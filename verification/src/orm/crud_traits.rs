//! The operations that every repository offers.
use vstd::prelude::*;
use vstd::string::*;
use crate::db_pool::TransactionContext;
use crate::orm::sqlx_impl::{Fetch, Statement};

verus! {

/// That `r`, where it is a statement, is the statement `sql` fetching as
/// `fetch` says.
pub open spec fn prepares<E>(r: Result<Statement, E>, sql: Seq<char>, fetch: Fetch) -> bool {
    r matches Ok(st) ==> st.sql@ == sql && st.fetch == fetch
}

/// The operations on a logical database: each prepares the statement that
/// is to be executed, with its parameters bound in the order of `args`,
/// which is the order of the placeholders in `sql`, and routed by the
/// transaction context; or refuses.
pub trait CrudRepository {
    /// The handle on a logical database.
    type Connection;

    /// The failure of a refusal.
    type Error;

    /// The arguments of one statement.
    type Args;

    /// Fetch at most one row.
    fn get(&self, cnn: &Self::Connection, ctx: &TransactionContext, sql: &str, args: Self::Args) -> (r:
        Result<Statement, Self::Error>)
        ensures
            prepares(r, sql@, Fetch::Optional),
    ;

    /// Fetch all matching rows.
    fn list(&self, cnn: &Self::Connection, ctx: &TransactionContext, sql: &str, args: Self::Args) -> (r:
        Result<Statement, Self::Error>)
        ensures
            prepares(r, sql@, Fetch::All),
    ;

    /// Create one row and fetch it.
    fn create(&self, cnn: &Self::Connection, ctx: &TransactionContext, sql: &str, args: Self::Args) -> (r:
        Result<Statement, Self::Error>)
        ensures
            prepares(r, sql@, Fetch::Optional),
    ;

    /// Create one row per item of `args`, one statement each, in order.
    fn batch_create(
        &self,
        cnn: &Self::Connection,
        ctx: &TransactionContext,
        sql: &str,
        args: Vec<Self::Args>,
    ) -> (r: Result<Vec<Statement>, Self::Error>)
        ensures
            r matches Ok(sts) ==> sts@.len() == args@.len() && forall|i: int|
                0 <= i < sts@.len() ==> (#[trigger] sts@[i]).sql@ == sql@ && sts@[i].fetch
                    == Fetch::Optional,
    ;

    /// Change rows and report how many.
    fn update(&self, cnn: &Self::Connection, ctx: &TransactionContext, sql: &str, args: Self::Args) -> (r:
        Result<Statement, Self::Error>)
        ensures
            prepares(r, sql@, Fetch::Affected),
    ;

    /// Delete rows and report how many.
    fn delete(&self, cnn: &Self::Connection, ctx: &TransactionContext, sql: &str, args: Self::Args) -> (r:
        Result<Statement, Self::Error>)
        ensures
            prepares(r, sql@, Fetch::Affected),
    ;
}

} // verus!
