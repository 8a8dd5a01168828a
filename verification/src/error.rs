//! The failures that database operations report.
use vstd::prelude::*;
use vstd::string::*;

verus! {

/// `sqlx::Error`, the driver's own failure, carried through unread.
#[verifier::external_type_specification]
#[verifier::external_body]
pub struct ExSqlxError(sqlx::Error);

/// Why a database operation failed.
#[derive(Debug)]
pub enum DbError {
    /// The driver failed while executing a statement.
    Sqlx(sqlx::Error),
    /// Bad connection string, unsupported engine kind or mismatched handle.
    Config(String),
    /// No transaction to resolve, a second one started, or no scope entered.
    TransactionState(String),
    /// A row could not be turned into the requested shape.
    Deserialization(String),
}

impl DbError {
    /// A configuration failure with the given message.
    pub fn config(msg: &str) -> (e: DbError)
        ensures
            e is Config,
            e->Config_0@ == msg@,
    {
        DbError::Config(msg.to_owned())
    }

    /// A transaction-state failure with the given message.
    pub fn transaction_state(msg: &str) -> (e: DbError)
        ensures
            e is TransactionState,
            e->TransactionState_0@ == msg@,
    {
        DbError::TransactionState(msg.to_owned())
    }

    /// A deserialization failure with the given message.
    pub fn deserialization(msg: String) -> (e: DbError)
        ensures
            e == DbError::Deserialization(msg),
    {
        DbError::Deserialization(msg)
    }
}

/// The text that `sqlx::Error` displays itself as. Nothing is claimed of
/// it.
#[verifier::external_body]
fn driver_error_text(e: &sqlx::Error) -> (s: String) {
    format!("{}", e)
}

impl DbError {
    /// The failure in words: the kind of the failure, a colon, and its
    /// message; for a failure of the driver, the driver's own text.
    pub fn to_string(&self) -> (s: String)
        ensures
            match self {
                DbError::Sqlx(_) => "Database error: "@.is_prefix_of(s@),
                DbError::Config(m) => s@ == "Configuration error: "@ + m@,
                DbError::TransactionState(m) => s@ == "Transaction state error: "@ + m@,
                DbError::Deserialization(m) => s@ == "反序列化错误 (Deserialization error): "@ + m@,
            },
    {
        match self {
            DbError::Sqlx(e) => {
                let mut s = String::from_str("Database error: ");
                let t = driver_error_text(e);
                s.append(t.as_str());
                proof {
                    assert(s@.subrange(0, "Database error: "@.len() as int) =~= "Database error: "@);
                }
                s
            },
            DbError::Config(m) => {
                let mut s = String::from_str("Configuration error: ");
                s.append(m.as_str());
                s
            },
            DbError::TransactionState(m) => {
                let mut s = String::from_str("Transaction state error: ");
                s.append(m.as_str());
                s
            },
            DbError::Deserialization(m) => {
                let mut s = String::from_str("反序列化错误 (Deserialization error): ");
                s.append(m.as_str());
                s
            },
        }
    }
}

impl From<sqlx::Error> for DbError {
    fn from(err: sqlx::Error) -> (r: DbError) {
        DbError::Sqlx(err)
    }
}

impl vstd::std_specs::convert::FromSpecImpl<sqlx::Error> for DbError {
    open spec fn obeys_from_spec() -> bool {
        true
    }

    open spec fn from_spec(err: sqlx::Error) -> DbError {
        DbError::Sqlx(err)
    }
}

impl From<String> for DbError {
    fn from(err: String) -> (r: DbError) {
        DbError::Config(err)
    }
}

impl vstd::std_specs::convert::FromSpecImpl<String> for DbError {
    open spec fn obeys_from_spec() -> bool {
        true
    }

    open spec fn from_spec(err: String) -> DbError {
        DbError::Config(err)
    }
}

impl<'a> From<&'a str> for DbError {
    /// The configuration failure with the message `err`.
    fn from(err: &'a str) -> (r: DbError)
        ensures
            r is Config,
            r->Config_0@ == err@,
    {
        DbError::Config(err.to_owned())
    }
}

impl<'a> vstd::std_specs::convert::FromSpecImpl<&'a str> for DbError {
    /// The result holds a fresh string, which no function of the slice
    /// gives: what it holds is stated on `from` itself.
    open spec fn obeys_from_spec() -> bool {
        false
    }

    open spec fn from_spec(err: &'a str) -> DbError {
        arbitrary()
    }
}

} // verus!
