//! The dispatch layer: how arguments are bound on each engine, where a
//! statement runs, and what becomes of what it returns.
use vstd::prelude::*;
use vstd::string::*;
use crate::db_pool::{
    DbConnection, DbPool, DbPoolInner, Engine, Route, TransactionContext, is_config,
    msg_pool_mismatch, msg_tx_mismatch, msg_unsupported,
};
use crate::error::DbError;
use crate::orm::crud_traits::CrudRepository;
use crate::orm::json::JsonValue;

verus! {

/// One bound parameter, as the engine is to receive it.
#[derive(Debug, PartialEq, Eq)]
pub enum BoundArg {
    /// A null, typed as an absent string.
    Null,
    Bool(bool),
    I64(i64),
    /// A 64-bit float, by bit pattern.
    F64(u64),
    Text(String),
    /// A structured value bound natively, given as JSON text.
    Json(String),
}

/// How one argument is bound on `driver`: a null as an absent string; a
/// boolean and a string as they are; a number as a 64-bit integer where it
/// is one, else as a float where it has one, else as its text; an array or
/// an object natively, except on SQLite, which has no structured columns
/// and is given the JSON text.
pub open spec fn bind_spec(driver: Engine, arg: JsonValue) -> BoundArg {
    match arg {
        JsonValue::Null => BoundArg::Null,
        JsonValue::Bool(b) => BoundArg::Bool(b),
        JsonValue::Number(n) => match n.as_i64 {
            Some(i) => BoundArg::I64(i),
            None => match n.as_f64 {
                Some(f) => BoundArg::F64(f),
                None => BoundArg::Text(n.text),
            },
        },
        JsonValue::String(s) => BoundArg::Text(s),
        JsonValue::Array(t) | JsonValue::Object(t) => if driver == Engine::Sqlite {
            BoundArg::Text(t)
        } else {
            BoundArg::Json(t)
        },
    }
}

/// Computes [`bind_spec`].
pub fn bind_arg(driver: Engine, arg: JsonValue) -> (b: BoundArg)
    ensures
        b == bind_spec(driver, arg),
{
    match arg {
        JsonValue::Null => BoundArg::Null,
        JsonValue::Bool(b) => BoundArg::Bool(b),
        JsonValue::Number(n) => match n.as_i64 {
            Some(i) => BoundArg::I64(i),
            None => match n.as_f64 {
                Some(f) => BoundArg::F64(f),
                None => BoundArg::Text(n.text),
            },
        },
        JsonValue::String(s) => BoundArg::Text(s),
        JsonValue::Array(t) => match driver {
            Engine::Sqlite => BoundArg::Text(t),
            _ => BoundArg::Json(t),
        },
        JsonValue::Object(t) => match driver {
            Engine::Sqlite => BoundArg::Text(t),
            _ => BoundArg::Json(t),
        },
    }
}

/// The arguments bound one by one, in order.
pub open spec fn binds_spec(driver: Engine, args: Seq<JsonValue>) -> Seq<BoundArg> {
    Seq::new(args.len(), |i: int| bind_spec(driver, args[i]))
}

/// Binds the arguments in order; the list of bound parameters has the
/// order of the argument list, which is that of the placeholders.
pub fn bind_all(driver: Engine, args: Vec<JsonValue>) -> (binds: Vec<BoundArg>)
    ensures
        binds@ == binds_spec(driver, args@),
{
    let ghost all = args@;
    let mut binds: Vec<BoundArg> = Vec::new();
    for arg in it: args
        invariant
            it.seq() == all,
            binds@.len() == it.index(),
            forall|i: int| 0 <= i < binds@.len() ==> binds@[i] == bind_spec(driver, all[i]),
    {
        binds.push(bind_arg(driver, arg));
    }
    assert(binds@ =~= binds_spec(driver, args@));
    binds
}

/// The pool of `pool`, if it is one of `driver`.
pub open spec fn pool_of(driver: Engine, pool: DbPool) -> Option<u64> {
    match (driver, pool.inner) {
        (Engine::MySql, DbPoolInner::MySql(p)) => Some(p),
        (Engine::Sqlite, DbPoolInner::Sqlite(p)) => Some(p),
        (Engine::Postgres, DbPoolInner::Postgres(p)) => Some(p),
        _ => None,
    }
}

/// The number of the pool behind `pool`, which has to be a pool of
/// `driver`; a handle of another kind is a configuration error.
pub fn get_pool(driver: Engine, pool: &DbPool) -> (r: Result<u64, DbError>)
    ensures
        match r {
            Ok(p) => pool_of(driver, *pool) == Some(p),
            Err(e) => pool_of(driver, *pool) is None && is_config(e, msg_pool_mismatch()),
        },
{
    match (driver, &pool.inner) {
        (Engine::MySql, DbPoolInner::MySql(p)) => Ok(*p),
        (Engine::Sqlite, DbPoolInner::Sqlite(p)) => Ok(*p),
        (Engine::Postgres, DbPoolInner::Postgres(p)) => Ok(*p),
        _ => Err(DbError::config("连接池类型不匹配 (Pool type mismatch)")),
    }
}

/// The number of the live connection `conn`, which has to be one of
/// `driver`; a connection of another engine is a configuration error.
pub fn get_connection(driver: Engine, conn: &DbConnection) -> (r: Result<u64, DbError>)
    ensures
        match r {
            Ok(c) => conn.engine_spec() == driver && match *conn {
                DbConnection::MySql(n) => n == c,
                DbConnection::Sqlite(n) => n == c,
                DbConnection::Postgres(n) => n == c,
            },
            Err(e) => conn.engine_spec() != driver && is_config(e, msg_tx_mismatch()),
        },
{
    match (driver, conn) {
        (Engine::MySql, DbConnection::MySql(c)) => Ok(*c),
        (Engine::Sqlite, DbConnection::Sqlite(c)) => Ok(*c),
        (Engine::Postgres, DbConnection::Postgres(c)) => Ok(*c),
        _ => Err(DbError::config("事务类型不匹配 (Transaction type mismatch)")),
    }
}

/// What is asked of the engine for a statement.
#[derive(Copy, Clone, Debug, PartialEq, Eq, Structural)]
pub enum Fetch {
    /// At most one row.
    Optional,
    /// All matching rows.
    All,
    /// No rows: the count of affected rows.
    Affected,
}

/// A statement ready for execution: where it runs, its text, and its
/// parameters in placeholder order.
#[derive(Debug, PartialEq, Eq)]
pub struct Statement {
    pub engine: Engine,
    pub route: Route,
    pub sql: String,
    pub binds: Vec<BoundArg>,
    pub fetch: Fetch,
}

/// Where a statement for `driver` on `pool` runs within `ctx`: on the
/// transaction in flight under the handle's name if there is one, and only
/// otherwise on the pool. Either has to be of `driver`.
pub open spec fn target_spec(driver: Engine, pool: DbPool, ctx: TransactionContext) -> Option<Route> {
    if ctx@.contains_key(pool.name@) {
        if ctx@[pool.name@].engine_spec() == driver {
            Some(Route::Transaction(ctx@[pool.name@]))
        } else {
            None
        }
    } else {
        match pool_of(driver, pool) {
            Some(p) => Some(Route::Pool(driver, p)),
            None => None,
        }
    }
}

/// That `r` is the statement `sql` with `args` bound for `driver`, routed
/// by [`target_spec`] and fetching as `fetch` says; or, where the
/// transaction in flight or else the pool is not of `driver`, the
/// configuration error that says so.
pub open spec fn prepared(
    r: Result<Statement, DbError>,
    driver: Engine,
    pool: DbPool,
    ctx: TransactionContext,
    sql: Seq<char>,
    args: Seq<JsonValue>,
    fetch: Fetch,
) -> bool {
    match r {
        Ok(st) => {
            &&& target_spec(driver, pool, ctx) == Some(st.route)
            &&& st.engine == driver
            &&& st.sql@ == sql
            &&& st.binds@ == binds_spec(driver, args)
            &&& st.fetch == fetch
        },
        Err(e) => {
            &&& target_spec(driver, pool, ctx) is None
            &&& if ctx@.contains_key(pool.name@) {
                is_config(e, msg_tx_mismatch())
            } else {
                is_config(e, msg_pool_mismatch())
            }
        },
    }
}

fn prepare(
    driver: Engine,
    pool: &DbPool,
    ctx: &TransactionContext,
    sql: &str,
    args: Vec<JsonValue>,
    fetch: Fetch,
) -> (r: Result<Statement, DbError>)
    ensures
        prepared(r, driver, *pool, *ctx, sql@, args@, fetch),
{
    let binds = bind_all(driver, args);
    let route = match ctx.transaction(pool.name.as_str()) {
        Some(conn) => {
            match get_connection(driver, &conn) {
                Ok(_) => Route::Transaction(conn),
                Err(e) => {
                    return Err(e);
                },
            }
        },
        None => {
            match get_pool(driver, pool) {
                Ok(p) => Route::Pool(driver, p),
                Err(e) => {
                    return Err(e);
                },
            }
        },
    };
    Ok(Statement { engine: driver, route, sql: sql.to_owned(), binds, fetch })
}

/// Prepares a query for at most one row.
pub fn execute_get_generic(
    driver: Engine,
    pool: &DbPool,
    ctx: &TransactionContext,
    sql: &str,
    args: Vec<JsonValue>,
) -> (r: Result<Statement, DbError>)
    ensures
        prepared(r, driver, *pool, *ctx, sql@, args@, Fetch::Optional),
{
    prepare(driver, pool, ctx, sql, args, Fetch::Optional)
}

/// Prepares a query for all matching rows.
pub fn execute_list_generic(
    driver: Engine,
    pool: &DbPool,
    ctx: &TransactionContext,
    sql: &str,
    args: Vec<JsonValue>,
) -> (r: Result<Statement, DbError>)
    ensures
        prepared(r, driver, *pool, *ctx, sql@, args@, Fetch::All),
{
    prepare(driver, pool, ctx, sql, args, Fetch::All)
}

/// Prepares a creating statement: it is a query for at most one row, whose
/// outcome [`created`] then judges.
pub fn execute_create_generic(
    driver: Engine,
    pool: &DbPool,
    ctx: &TransactionContext,
    sql: &str,
    args: Vec<JsonValue>,
) -> (r: Result<Statement, DbError>)
    ensures
        prepared(r, driver, *pool, *ctx, sql@, args@, Fetch::Optional),
{
    execute_get_generic(driver, pool, ctx, sql, args)
}

/// Prepares a statement that changes rows and reports how many.
pub fn execute_update_generic(
    driver: Engine,
    pool: &DbPool,
    ctx: &TransactionContext,
    sql: &str,
    args: Vec<JsonValue>,
) -> (r: Result<Statement, DbError>)
    ensures
        prepared(r, driver, *pool, *ctx, sql@, args@, Fetch::Affected),
{
    prepare(driver, pool, ctx, sql, args, Fetch::Affected)
}

pub open spec fn msg_no_row() -> Seq<char> {
    "创建操作未返回行 (Create did not return a row)"@
}

/// The outcome of a creating statement: the row it returned. One that
/// returned no row has failed; no default stands in for the row.
pub fn created<T>(row: Option<T>) -> (r: Result<T, DbError>)
    ensures
        match r {
            Ok(t) => row == Some(t),
            Err(e) => row is None && is_config(e, msg_no_row()),
        },
{
    match row {
        Some(t) => Ok(t),
        None => Err(DbError::config("创建操作未返回行 (Create did not return a row)")),
    }
}

/// The outcome of a query for at most one row, from what came back: no
/// row is no failure but an absent result; a row that was decoded is the
/// result; a row that could not be decoded fails the query with the
/// failure of the decoding.
pub fn fetched<T>(row: Option<Result<T, DbError>>) -> (r: Result<Option<T>, DbError>)
    ensures
        match row {
            None => r == Ok::<Option<T>, DbError>(None),
            Some(Ok(t)) => r == Ok::<Option<T>, DbError>(Some(t)),
            Some(Err(e)) => r == Err::<Option<T>, DbError>(e),
        },
{
    match row {
        None => Ok(None),
        Some(Ok(t)) => Ok(Some(t)),
        Some(Err(e)) => Err(e),
    }
}

/// Takes in the next row of a query for all matching rows, in the order
/// in which the rows came back: a decoded row joins the rows listed so
/// far, at their end; a row that could not be decoded ends the query with
/// the failure of the decoding, and no partial list is its result.
pub fn list_step<T>(rows: &mut Vec<T>, decoded: Result<T, DbError>) -> (r: Result<(), DbError>)
    ensures
        match decoded {
            Ok(t) => r is Ok && final(rows)@ == old(rows)@.push(t),
            Err(e) => r == Err::<(), DbError>(e) && final(rows)@ == old(rows)@,
        },
{
    match decoded {
        Ok(t) => {
            rows.push(t);
            Ok(())
        },
        Err(e) => Err(e),
    }
}

/// The rows of a query for all matching rows, from the rows that came
/// back, each decoded or not: all of them, in their order, where every one
/// was decoded; else the failure of the first that was not.
pub open spec fn listed_spec<T>(decoded: Seq<Result<T, DbError>>, n: nat) -> Result<Seq<T>, DbError>
    decreases n,
{
    if n == 0 || n > decoded.len() {
        Ok(Seq::empty())
    } else {
        match listed_spec(decoded, (n - 1) as nat) {
            Err(e) => Err(e),
            Ok(rows) => match decoded[n - 1] {
                Ok(t) => Ok(rows.push(t)),
                Err(e) => Err(e),
            },
        }
    }
}

/// Computes [`listed_spec`] over all the rows: no row is dropped, doubled
/// or moved, none gives the empty list, and one failure fails the whole.
pub fn listed<T>(decoded: Vec<Result<T, DbError>>) -> (r: Result<Vec<T>, DbError>)
    ensures
        match r {
            Ok(rows) => listed_spec(decoded@, decoded@.len()) == Ok::<Seq<T>, DbError>(rows@),
            Err(e) => listed_spec(decoded@, decoded@.len()) == Err::<Seq<T>, DbError>(e),
        },
{
    let ghost all = decoded@;
    let mut rows: Vec<T> = Vec::new();
    for item in it: decoded
        invariant
            it.seq() == all,
            listed_spec(all, it.index() as nat) == Ok::<Seq<T>, DbError>(rows@),
    {
        match list_step(&mut rows, item) {
            Ok(()) => {},
            Err(e) => {
                proof {
                    lemma_listed_failure_stays(all, (it.index() + 1) as nat, all.len());
                }
                return Err(e);
            },
        }
    }
    Ok(rows)
}

/// Once a row fails, the list has failed in that way, whatever rows
/// follow.
pub proof fn lemma_listed_failure_stays<T>(decoded: Seq<Result<T, DbError>>, k: nat, n: nat)
    requires
        k <= n <= decoded.len(),
        listed_spec(decoded, k) is Err,
    ensures
        listed_spec(decoded, n) == listed_spec(decoded, k),
    decreases n - k,
{
    if k < n {
        lemma_listed_failure_stays(decoded, k, (n - 1) as nat);
    }
}

/// Takes in the outcome of the next item of a batch of creating
/// statements, which run one after the other: a returned row joins the
/// rows created so far; a failure, or no row, ends the batch with that
/// failure and leaves the rows as they are.
pub fn batch_step<T>(rows: &mut Vec<T>, outcome: Result<Option<T>, DbError>) -> (r: Result<
    (),
    DbError,
>)
    ensures
        match outcome {
            Ok(Some(t)) => r is Ok && final(rows)@ == old(rows)@.push(t),
            Ok(None) => r matches Err(e) && is_config(e, msg_no_row()) && final(rows)@ == old(
                rows,
            )@,
            Err(e) => r == Err::<(), DbError>(e) && final(rows)@ == old(rows)@,
        },
{
    match outcome {
        Err(e) => Err(e),
        Ok(row) => match created(row) {
            Ok(t) => {
                rows.push(t);
                Ok(())
            },
            Err(e) => Err(e),
        },
    }
}

/// The repository of the three supported engines.
#[derive(Copy, Clone, Debug)]
pub struct SqlxRepository;

/// What a repository operation on `cnn` comes to: on a handle of a
/// supported engine, the statement prepared for that engine; on a handle
/// of an unrecognised kind, a configuration error.
pub open spec fn dispatched(
    r: Result<Statement, DbError>,
    cnn: DbPool,
    ctx: TransactionContext,
    sql: Seq<char>,
    args: Seq<JsonValue>,
    fetch: Fetch,
) -> bool {
    match cnn.inner.engine_spec() {
        Some(driver) => prepared(r, driver, cnn, ctx, sql, args, fetch),
        None => r matches Err(e) && is_config(e, msg_unsupported()),
    }
}

impl SqlxRepository {
    fn dispatch(
        cnn: &DbPool,
        ctx: &TransactionContext,
        sql: &str,
        args: Vec<JsonValue>,
        fetch: Fetch,
    ) -> (r: Result<Statement, DbError>)
        ensures
            dispatched(r, *cnn, *ctx, sql@, args@, fetch),
    {
        match cnn.inner.engine() {
            Some(driver) => prepare(driver, cnn, ctx, sql, args, fetch),
            None => Err(DbError::config("Unsupported database type")),
        }
    }
}

impl CrudRepository for SqlxRepository {
    type Connection = DbPool;

    type Error = DbError;

    type Args = Vec<JsonValue>;

    /// Fetch at most one row.
    fn get(&self, cnn: &DbPool, ctx: &TransactionContext, sql: &str, args: Vec<JsonValue>) -> (r:
        Result<Statement, DbError>)
        ensures
            dispatched(r, *cnn, *ctx, sql@, args@, Fetch::Optional),
    {
        Self::dispatch(cnn, ctx, sql, args, Fetch::Optional)
    }

    /// Fetch all matching rows.
    fn list(&self, cnn: &DbPool, ctx: &TransactionContext, sql: &str, args: Vec<JsonValue>) -> (r:
        Result<Statement, DbError>)
        ensures
            dispatched(r, *cnn, *ctx, sql@, args@, Fetch::All),
    {
        Self::dispatch(cnn, ctx, sql, args, Fetch::All)
    }

    /// Create one row: a query for at most one row, of which [`created`]
    /// then requires that there is one.
    fn create(&self, cnn: &DbPool, ctx: &TransactionContext, sql: &str, args: Vec<JsonValue>) -> (r:
        Result<Statement, DbError>)
        ensures
            dispatched(r, *cnn, *ctx, sql@, args@, Fetch::Optional),
    {
        Self::dispatch(cnn, ctx, sql, args, Fetch::Optional)
    }

    /// Create one row per item of `args`: one creating statement each, in
    /// the order of the items, to be run one after the other and not as one
    /// atomic unit. Where the handle refuses one it refuses all, and a batch
    /// of no items asks nothing of the handle.
    fn batch_create(
        &self,
        cnn: &DbPool,
        ctx: &TransactionContext,
        sql: &str,
        args: Vec<Vec<JsonValue>>,
    ) -> (r: Result<Vec<Statement>, DbError>)
        ensures
            match r {
                Ok(sts) => sts@.len() == args@.len() && forall|i: int|
                    0 <= i < sts@.len() ==> dispatched(
                        Ok(#[trigger] sts@[i]),
                        *cnn,
                        *ctx,
                        sql@,
                        args@[i]@,
                        Fetch::Optional,
                    ),
                Err(e) => args@.len() > 0 && dispatched(
                    Err(e),
                    *cnn,
                    *ctx,
                    sql@,
                    args@[0]@,
                    Fetch::Optional,
                ),
            },
    {
        let ghost all = args@;
        let mut sts: Vec<Statement> = Vec::new();
        for item in it: args
            invariant
                it.seq() == all,
                sts@.len() == it.index(),
                forall|i: int|
                    0 <= i < sts@.len() ==> dispatched(
                        Ok(#[trigger] sts@[i]),
                        *cnn,
                        *ctx,
                        sql@,
                        all[i]@,
                        Fetch::Optional,
                    ),
        {
            match self.create(cnn, ctx, sql, item) {
                Ok(st) => {
                    sts.push(st);
                },
                Err(e) => {
                    return Err(e);
                },
            }
        }
        Ok(sts)
    }

    /// Change rows and report how many.
    fn update(&self, cnn: &DbPool, ctx: &TransactionContext, sql: &str, args: Vec<JsonValue>) -> (r:
        Result<Statement, DbError>)
        ensures
            dispatched(r, *cnn, *ctx, sql@, args@, Fetch::Affected),
    {
        Self::dispatch(cnn, ctx, sql, args, Fetch::Affected)
    }

    /// Delete rows and report how many; it is an update.
    fn delete(&self, cnn: &DbPool, ctx: &TransactionContext, sql: &str, args: Vec<JsonValue>) -> (r:
        Result<Statement, DbError>)
        ensures
            dispatched(r, *cnn, *ctx, sql@, args@, Fetch::Affected),
    {
        self.update(cnn, ctx, sql, args)
    }
}

} // verus!
