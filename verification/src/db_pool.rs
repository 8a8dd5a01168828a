//! Logical database handles and the scoped transaction context.
//!
//! The library decides; the embedding program performs the I/O. A pool or a
//! checked-out connection of the driver is known here by the number under
//! which the embedding program keeps it.
use vstd::prelude::*;
use vstd::string::*;
use crate::error::DbError;
use crate::models::db_config::DatabaseOptions;
use crate::str_map::{StrMap, keys_distinct, map_of};
use crate::text::str_eq;

verus! {

/// The supported engines.
#[derive(Copy, Clone, Debug, PartialEq, Eq, Structural)]
pub enum Engine {
    MySql,
    Sqlite,
    Postgres,
}

/// The pooled resource behind a handle: the pool of one supported engine,
/// by its number, or the kind string of an engine that is not recognised.
#[derive(Debug, PartialEq, Eq)]
pub enum DbPoolInner {
    MySql(u64),
    Sqlite(u64),
    Postgres(u64),
    Other(String),
}

impl DbPoolInner {
    /// The engine of the pool, if it is a supported one.
    pub open spec fn engine_spec(self) -> Option<Engine> {
        match self {
            DbPoolInner::MySql(_) => Some(Engine::MySql),
            DbPoolInner::Sqlite(_) => Some(Engine::Sqlite),
            DbPoolInner::Postgres(_) => Some(Engine::Postgres),
            DbPoolInner::Other(_) => None,
        }
    }

    /// Computes [`Self::engine_spec`].
    pub fn engine(&self) -> (e: Option<Engine>)
        ensures
            e == self.engine_spec(),
    {
        match self {
            DbPoolInner::MySql(_) => Some(Engine::MySql),
            DbPoolInner::Sqlite(_) => Some(Engine::Sqlite),
            DbPoolInner::Postgres(_) => Some(Engine::Postgres),
            DbPoolInner::Other(_) => None,
        }
    }
}

impl Clone for DbPoolInner {
    fn clone(&self) -> (r: Self)
        ensures
            r == *self,
    {
        match self {
            DbPoolInner::MySql(p) => DbPoolInner::MySql(*p),
            DbPoolInner::Sqlite(p) => DbPoolInner::Sqlite(*p),
            DbPoolInner::Postgres(p) => DbPoolInner::Postgres(*p),
            DbPoolInner::Other(k) => DbPoolInner::Other(k.clone()),
        }
    }
}

/// A checked-out connection of one engine, by its number.
#[derive(Copy, Clone, Debug, PartialEq, Eq, Structural)]
pub enum DbConnection {
    MySql(u64),
    Sqlite(u64),
    Postgres(u64),
}

impl DbConnection {
    /// The engine that the connection belongs to.
    pub open spec fn engine_spec(self) -> Engine {
        match self {
            DbConnection::MySql(_) => Engine::MySql,
            DbConnection::Sqlite(_) => Engine::Sqlite,
            DbConnection::Postgres(_) => Engine::Postgres,
        }
    }

    /// Computes [`Self::engine_spec`].
    pub fn engine(&self) -> (e: Engine)
        ensures
            e == self.engine_spec(),
    {
        match self {
            DbConnection::MySql(_) => Engine::MySql,
            DbConnection::Sqlite(_) => Engine::Sqlite,
            DbConnection::Postgres(_) => Engine::Postgres,
        }
    }
}

/// The engine that a kind string names, if it names a supported one.
pub open spec fn engine_of_kind(kind: Seq<char>) -> Option<Engine> {
    if kind == "mysql"@ {
        Some(Engine::MySql)
    } else if kind == "sqlite"@ {
        Some(Engine::Sqlite)
    } else if kind == "postgres"@ {
        Some(Engine::Postgres)
    } else {
        None
    }
}

/// Computes [`engine_of_kind`].
pub fn parse_engine(kind: &str) -> (e: Option<Engine>)
    ensures
        e == engine_of_kind(kind@),
{
    if str_eq(kind, "mysql") {
        Some(Engine::MySql)
    } else if str_eq(kind, "sqlite") {
        Some(Engine::Sqlite)
    } else if str_eq(kind, "postgres") {
        Some(Engine::Postgres)
    } else {
        None
    }
}

/// How the pool of a supported engine is to be sized and connected.
#[derive(Debug, PartialEq, Eq)]
pub struct PoolSettings {
    pub engine: Engine,
    pub url: String,
    pub max_connections: u32,
    pub min_connections: u32,
    pub acquire_timeout_secs: u64,
    pub max_lifetime_secs: u64,
    /// Whether a missing database file is created; so for SQLite alone.
    pub create_if_missing: bool,
}

/// The low 32 bits of `n`.
pub open spec fn low_u32(n: u64) -> u32 {
    (n % 0x1_0000_0000) as u32
}

/// Computes [`low_u32`].
pub fn truncate_u32(n: u64) -> (r: u32)
    ensures
        r == low_u32(n),
{
    (n % 0x1_0000_0000) as u32
}

/// The settings that `config` asks for on `engine`. The connection counts
/// are the low 32 bits of the configured 64-bit numbers.
pub fn pool_settings(engine: Engine, config: &DatabaseOptions) -> (s: PoolSettings)
    ensures
        s.engine == engine,
        s.url@ == config.url@,
        s.max_connections == low_u32(config.max_open_conns),
        s.min_connections == low_u32(config.max_idle_conns),
        s.acquire_timeout_secs == config.timeout,
        s.max_lifetime_secs == config.max_lifetime,
        s.create_if_missing == (engine == Engine::Sqlite),
{
    PoolSettings {
        engine,
        url: config.url.clone(),
        max_connections: truncate_u32(config.max_open_conns),
        min_connections: truncate_u32(config.max_idle_conns),
        acquire_timeout_secs: config.timeout,
        max_lifetime_secs: config.max_lifetime,
        create_if_missing: match engine {
            Engine::Sqlite => true,
            _ => false,
        },
    }
}

/// The transactions in flight within one logical unit of work, by logical
/// database name. Outside any unit of work it is detached: it holds
/// nothing and nothing can be started in it.
pub struct TransactionContext {
    active: bool,
    txs: StrMap<DbConnection>,
}

impl View for TransactionContext {
    type V = Map<Seq<char>, DbConnection>;

    /// The transactions in flight; none while detached.
    closed spec fn view(&self) -> Map<Seq<char>, DbConnection> {
        if self.active {
            self.txs@
        } else {
            Map::empty()
        }
    }
}

impl TransactionContext {
    /// Whether a unit of work has been entered.
    pub closed spec fn is_active(&self) -> bool {
        self.active
    }

    /// The context seen outside any unit of work.
    pub fn detached() -> (ctx: Self)
        ensures
            !ctx.is_active(),
            ctx@ == Map::<Seq<char>, DbConnection>::empty(),
    {
        TransactionContext { active: false, txs: StrMap::new() }
    }

    /// The context of a unit of work that has just been entered.
    pub fn enter() -> (ctx: Self)
        ensures
            ctx.is_active(),
            ctx@ == Map::<Seq<char>, DbConnection>::empty(),
    {
        TransactionContext { active: true, txs: StrMap::new() }
    }

    /// Whether a unit of work has been entered.
    pub fn active(&self) -> (a: bool)
        ensures
            a == self.is_active(),
    {
        self.active
    }

    /// The connection of the transaction in flight under `name`, if any.
    pub fn transaction(&self, name: &str) -> (conn: Option<DbConnection>)
        ensures
            conn == if self@.contains_key(name@) {
                Some(self@[name@])
            } else {
                None
            },
    {
        if !self.active {
            return None;
        }
        match self.txs.get(name) {
            Some(c) => Some(*c),
            None => None,
        }
    }

    /// Ends the unit of work and hands back the transactions that were
    /// neither committed nor rolled back, each name once with its
    /// connection, so that they can be rolled back and their connections
    /// released instead of leaking.
    pub fn leave(self) -> (left: Vec<(String, DbConnection)>)
        ensures
            keys_distinct(left@),
            map_of(left@) == self@,
    {
        if self.active {
            self.txs.into_entries()
        } else {
            Vec::new()
        }
    }

    /// The number of transactions in flight.
    pub fn len(&self) -> (n: usize)
        ensures
            self@.dom().finite(),
            n == self@.dom().len(),
    {
        if self.active {
            self.txs.len()
        } else {
            0
        }
    }
}

/// Where a statement is to be executed.
#[derive(Copy, Clone, Debug, PartialEq, Eq, Structural)]
pub enum Route {
    /// On the connection of the transaction in flight, which is not to be
    /// returned to its pool afterwards.
    Transaction(DbConnection),
    /// On a connection freshly acquired from the pool with this number.
    Pool(Engine, u64),
    /// Handed on unprocessed: the engine kind is not a recognised one.
    PassThrough,
}

/// A handle on one logical database.
#[derive(Debug, PartialEq, Eq)]
pub struct DbPool {
    pub name: String,
    pub inner: DbPoolInner,
}

impl Clone for DbPool {
    fn clone(&self) -> (r: Self)
        ensures
            r == *self,
    {
        DbPool { name: self.name.clone(), inner: self.inner.clone() }
    }
}

pub open spec fn msg_tx_unsupported() -> Seq<char> {
    "Transactions not supported for Other DB types"@
}

pub open spec fn msg_no_scope() -> Seq<char> {
    "Transaction context not found. Ensure you are within a transaction scope."@
}

pub open spec fn msg_tx_active() -> Seq<char> {
    "A transaction is already active for this database"@
}

pub open spec fn msg_tx_mismatch() -> Seq<char> {
    "事务类型不匹配 (Transaction type mismatch)"@
}

pub open spec fn msg_pool_mismatch() -> Seq<char> {
    "连接池类型不匹配 (Pool type mismatch)"@
}

pub open spec fn msg_no_commit() -> Seq<char> {
    "No active transaction to commit"@
}

pub open spec fn msg_no_rollback() -> Seq<char> {
    "No active transaction to rollback"@
}

pub open spec fn msg_unsupported() -> Seq<char> {
    "Unsupported database type"@
}

/// A configuration failure with exactly this message.
pub open spec fn is_config(e: DbError, msg: Seq<char>) -> bool {
    e is Config && e->Config_0@ == msg
}

/// A transaction-state failure with exactly this message.
pub open spec fn is_tx_state(e: DbError, msg: Seq<char>) -> bool {
    e is TransactionState && e->TransactionState_0@ == msg
}

impl DbPool {
    /// The handle called `name` on the pool numbered `pool`, of the engine
    /// that `kind` names. A kind that names no supported engine gives a
    /// handle that keeps the kind string and has no pool.
    pub fn new(name: &str, kind: &str, pool: u64) -> (p: Self)
        ensures
            p.name@ == name@,
            p.inner.engine_spec() == engine_of_kind(kind@),
            match p.inner {
                DbPoolInner::MySql(n) => n == pool,
                DbPoolInner::Sqlite(n) => n == pool,
                DbPoolInner::Postgres(n) => n == pool,
                DbPoolInner::Other(k) => k@ == kind@,
            },
    {
        let inner = match parse_engine(kind) {
            Some(Engine::MySql) => DbPoolInner::MySql(pool),
            Some(Engine::Sqlite) => DbPoolInner::Sqlite(pool),
            Some(Engine::Postgres) => DbPoolInner::Postgres(pool),
            None => DbPoolInner::Other(kind.to_owned()),
        };
        DbPool { name: name.to_owned(), inner }
    }

    /// Decides whether a transaction may be started on this handle within
    /// `ctx`, and on which engine the connection for it is to be acquired.
    ///
    /// It may not where the engine kind is not a recognised one, where no
    /// unit of work has been entered, or where a transaction is already in
    /// flight under the handle's name; the first of these that holds is the
    /// one reported.
    pub fn begin_transaction(&self, ctx: &TransactionContext) -> (r: Result<Engine, DbError>)
        ensures
            match r {
                Ok(engine) => self.inner.engine_spec() == Some(engine) && ctx.is_active()
                    && !ctx@.contains_key(self.name@),
                Err(e) => if self.inner.engine_spec() is None {
                    is_config(e, msg_tx_unsupported())
                } else if !ctx.is_active() {
                    is_tx_state(e, msg_no_scope())
                } else {
                    ctx@.contains_key(self.name@) && is_tx_state(e, msg_tx_active())
                },
            },
    {
        match self.inner.engine() {
            None => Err(DbError::config("Transactions not supported for Other DB types")),
            Some(engine) => {
                if !ctx.active() {
                    Err(
                        DbError::transaction_state(
                            "Transaction context not found. Ensure you are within a transaction scope.",
                        ),
                    )
                } else if ctx.transaction(self.name.as_str()).is_some() {
                    Err(
                        DbError::transaction_state(
                            "A transaction is already active for this database",
                        ),
                    )
                } else {
                    Ok(engine)
                }
            },
        }
    }

    /// Records `conn`, on which the transaction has been begun, as the
    /// transaction in flight under the handle's name.
    ///
    /// It is refused, and the context left as it was, exactly where
    /// [`Self::begin_transaction`] refuses, or where `conn` is of another engine
    /// than the handle.
    pub fn start_transaction(&self, ctx: &mut TransactionContext, conn: DbConnection) -> (r: Result<
        (),
        DbError,
    >)
        ensures
            final(ctx).is_active() == old(ctx).is_active(),
            r is Ok <==> start_accepted(*self, old(ctx).is_active(), old(ctx)@, conn),
            match r {
                Ok(()) => self.inner.engine_spec() == Some(conn.engine_spec()) && old(
                    ctx,
                ).is_active() && !old(ctx)@.contains_key(self.name@) && final(ctx)@ == old(
                    ctx,
                )@.insert(self.name@, conn),
                Err(e) => final(ctx)@ == old(ctx)@ && if self.inner.engine_spec() is None {
                    is_config(e, msg_tx_unsupported())
                } else if !old(ctx).is_active() {
                    is_tx_state(e, msg_no_scope())
                } else if old(ctx)@.contains_key(self.name@) {
                    is_tx_state(e, msg_tx_active())
                } else {
                    self.inner.engine_spec() != Some(conn.engine_spec()) && is_config(
                        e,
                        msg_tx_mismatch(),
                    )
                },
            },
    {
        match self.begin_transaction(ctx) {
            Err(e) => Err(e),
            Ok(engine) => {
                if !engine_eq(engine, conn.engine()) {
                    return Err(DbError::config("事务类型不匹配 (Transaction type mismatch)"));
                }
                ctx.txs.insert(self.name.clone(), conn);
                Ok(())
            },
        }
    }

    /// Takes the transaction in flight under the handle's name out of the
    /// context and hands back its connection, on which the commit is to be
    /// issued and which is then to be released.
    ///
    /// Fails, and leaves the context as it was, where no unit of work has
    /// been entered or no transaction is in flight under that name.
    pub fn commit_transaction(&self, ctx: &mut TransactionContext) -> (r: Result<
        DbConnection,
        DbError,
    >)
        ensures
            final(ctx).is_active() == old(ctx).is_active(),
            match r {
                Ok(conn) => old(ctx)@.contains_key(self.name@) && conn == old(ctx)@[self.name@]
                    && final(ctx)@ == old(ctx)@.remove(self.name@),
                Err(e) => final(ctx)@ == old(ctx)@ && !old(ctx)@.contains_key(self.name@)
                    && if !old(ctx).is_active() {
                    is_tx_state(e, "Transaction context not found"@)
                } else {
                    is_tx_state(e, msg_no_commit())
                },
            },
    {
        if !ctx.active {
            return Err(DbError::transaction_state("Transaction context not found"));
        }
        match ctx.txs.remove(self.name.as_str()) {
            Some(conn) => Ok(conn),
            None => Err(DbError::transaction_state("No active transaction to commit")),
        }
    }

    /// As [`Self::commit_transaction`], for a rollback.
    pub fn rollback_transaction(&self, ctx: &mut TransactionContext) -> (r: Result<
        DbConnection,
        DbError,
    >)
        ensures
            final(ctx).is_active() == old(ctx).is_active(),
            match r {
                Ok(conn) => old(ctx)@.contains_key(self.name@) && conn == old(ctx)@[self.name@]
                    && final(ctx)@ == old(ctx)@.remove(self.name@),
                Err(e) => final(ctx)@ == old(ctx)@ && !old(ctx)@.contains_key(self.name@)
                    && if !old(ctx).is_active() {
                    is_tx_state(e, "Transaction context not found"@)
                } else {
                    is_tx_state(e, msg_no_rollback())
                },
            },
    {
        if !ctx.active {
            return Err(DbError::transaction_state("Transaction context not found"));
        }
        match ctx.txs.remove(self.name.as_str()) {
            Some(conn) => Ok(conn),
            None => Err(DbError::transaction_state("No active transaction to rollback")),
        }
    }

    /// Where a statement on this handle is executed within `ctx`: on the
    /// transaction in flight under the handle's name if there is one, else
    /// on the handle's pool; a handle of an unrecognised kind has no pool
    /// and passes the statement through.
    pub open spec fn route_spec(&self, ctx: &TransactionContext) -> Route {
        if ctx@.contains_key(self.name@) {
            Route::Transaction(ctx@[self.name@])
        } else {
            match self.inner {
                DbPoolInner::MySql(p) => Route::Pool(Engine::MySql, p),
                DbPoolInner::Sqlite(p) => Route::Pool(Engine::Sqlite, p),
                DbPoolInner::Postgres(p) => Route::Pool(Engine::Postgres, p),
                DbPoolInner::Other(_) => Route::PassThrough,
            }
        }
    }

    /// Where a raw statement is executed: see [`Self::route_spec`].
    pub fn execute_raw(&self, ctx: &TransactionContext) -> (r: Route)
        ensures
            r == self.route_spec(ctx),
    {
        match ctx.transaction(self.name.as_str()) {
            Some(conn) => Route::Transaction(conn),
            None => match &self.inner {
                DbPoolInner::MySql(p) => Route::Pool(Engine::MySql, *p),
                DbPoolInner::Sqlite(p) => Route::Pool(Engine::Sqlite, *p),
                DbPoolInner::Postgres(p) => Route::Pool(Engine::Postgres, *p),
                DbPoolInner::Other(_) => Route::PassThrough,
            },
        }
    }

    /// Where a structured operation is executed: where [`Self::route_spec`]
    /// says, but it is refused where the statement would only be passed
    /// through.
    pub open spec fn routed(&self, ctx: &TransactionContext, r: Result<Route, DbError>) -> bool {
        match r {
            Ok(route) => route == self.route_spec(ctx) && !(route is PassThrough),
            Err(e) => self.route_spec(ctx) is PassThrough && is_config(e, msg_unsupported()),
        }
    }

    /// Where a query for at most one row is executed.
    pub fn get(&self, ctx: &TransactionContext) -> (r: Result<Route, DbError>)
        ensures
            self.routed(ctx, r),
    {
        match self.execute_raw(ctx) {
            Route::PassThrough => Err(DbError::config("Unsupported database type")),
            route => Ok(route),
        }
    }

    /// Where a query for all matching rows is executed.
    pub fn list(&self, ctx: &TransactionContext) -> (r: Result<Route, DbError>)
        ensures
            self.routed(ctx, r),
    {
        self.get(ctx)
    }

    /// Where a creating statement is executed.
    pub fn create(&self, ctx: &TransactionContext) -> (r: Result<Route, DbError>)
        ensures
            self.routed(ctx, r),
    {
        self.get(ctx)
    }

    /// Where the creating statements of a batch are executed, one after
    /// the other.
    pub fn batch_create(&self, ctx: &TransactionContext) -> (r: Result<Route, DbError>)
        ensures
            self.routed(ctx, r),
    {
        self.get(ctx)
    }

    /// Where an updating statement is executed.
    pub fn update(&self, ctx: &TransactionContext) -> (r: Result<Route, DbError>)
        ensures
            self.routed(ctx, r),
    {
        self.get(ctx)
    }

    /// Where a deleting statement is executed.
    pub fn delete(&self, ctx: &TransactionContext) -> (r: Result<Route, DbError>)
        ensures
            self.routed(ctx, r),
    {
        self.get(ctx)
    }
}

/// Whether two engines are the same.
pub fn engine_eq(a: Engine, b: Engine) -> (r: bool)
    ensures
        r == (a == b),
{
    match (a, b) {
        (Engine::MySql, Engine::MySql) => true,
        (Engine::Sqlite, Engine::Sqlite) => true,
        (Engine::Postgres, Engine::Postgres) => true,
        _ => false,
    }
}

/// Whether a start on `pool` with the connection `conn` is accepted in a
/// context that is active or not and holds the transactions `txs`.
pub open spec fn start_accepted(
    pool: DbPool,
    active: bool,
    txs: Map<Seq<char>, DbConnection>,
    conn: DbConnection,
) -> bool {
    &&& pool.inner.engine_spec() == Some(conn.engine_spec())
    &&& active
    &&& !txs.contains_key(pool.name@)
}

/// Within one unit of work at most one transaction is in flight under a
/// name: once a start on a handle has been accepted, a second start on any
/// handle of that name is refused, whatever the connection offered, until
/// the first is resolved; resolving it hands back the first connection and
/// leaves the context as it was before the start.
pub proof fn lemma_one_transaction_per_name(
    pool: DbPool,
    other: DbPool,
    txs: Map<Seq<char>, DbConnection>,
    first: DbConnection,
    second: DbConnection,
)
    requires
        start_accepted(pool, true, txs, first),
        other.name@ == pool.name@,
    ensures
        !start_accepted(other, true, txs.insert(pool.name@, first), second),
        txs.insert(pool.name@, first)[pool.name@] == first,
        txs.insert(pool.name@, first).remove(pool.name@) == txs,
{
    assert(txs.insert(pool.name@, first).remove(pool.name@) =~= txs);
}

/// Transactions under different names do not touch each other: starting
/// or resolving one leaves the other in flight on its own connection.
pub proof fn lemma_names_independent(
    txs: Map<Seq<char>, DbConnection>,
    a: Seq<char>,
    b: Seq<char>,
    conn: DbConnection,
)
    requires
        a != b,
    ensures
        txs.insert(a, conn).contains_key(b) == txs.contains_key(b),
        txs.contains_key(b) ==> txs.insert(a, conn)[b] == txs[b],
        txs.remove(a).contains_key(b) == txs.contains_key(b),
        txs.contains_key(b) ==> txs.remove(a)[b] == txs[b],
{
}

} // verus!
