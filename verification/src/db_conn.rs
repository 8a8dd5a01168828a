//! The registry of logical databases, by name.
use vstd::prelude::*;
use vstd::string::*;
use crate::db_pool::{DbPool, DbPoolInner, Engine, PoolSettings, engine_of_kind, is_config, parse_engine, pool_settings};
use crate::error::DbError;
use crate::models::db_config::DatabaseOptions;
use crate::str_map::StrMap;

verus! {

/// What opening a logical database asks of the embedding program.
#[derive(Debug, PartialEq, Eq)]
pub enum OpenPlan {
    /// Connect a pool with these settings, then register it.
    Connect(PoolSettings),
    /// Nothing to connect: the kind is not a recognised engine. The handle
    /// is registered all the same.
    Unrecognised,
}

pub open spec fn msg_already_open() -> Seq<char> {
    "A database is already open under this name"@
}

/// The registered handles, by logical database name. A program keeps one.
pub struct ConnManager {
    pools: StrMap<DbPool>,
}

impl View for ConnManager {
    type V = Map<Seq<char>, DbPool>;

    closed spec fn view(&self) -> Map<Seq<char>, DbPool> {
        self.pools@
    }
}

impl ConnManager {
    /// Every handle is registered under its own name.
    pub closed spec fn wf(&self) -> bool {
        forall|k: Seq<char>| #[trigger] self.pools@.contains_key(k) ==> self.pools@[k].name@ == k
    }

    /// The registry with nothing open.
    pub fn new() -> (m: Self)
        ensures
            m.wf(),
            m@ == Map::<Seq<char>, DbPool>::empty(),
    {
        ConnManager { pools: StrMap::new() }
    }

    /// Decides whether `name` may be opened and what has to be connected
    /// for it. A name that is open already is refused.
    pub fn plan_open(&self, name: &str, kind: &str, config: &DatabaseOptions) -> (r: Result<
        OpenPlan,
        DbError,
    >)
        ensures
            match r {
                Ok(OpenPlan::Connect(s)) => !self@.contains_key(name@) && engine_of_kind(kind@)
                    == Some(s.engine) && s.url@ == config.url@ && s == pool_settings_spec(
                    s.engine,
                    config,
                    s.url,
                ),
                Ok(OpenPlan::Unrecognised) => !self@.contains_key(name@) && engine_of_kind(kind@)
                    is None,
                Err(e) => self@.contains_key(name@) && is_config(e, msg_already_open()),
            },
    {
        if self.pools.contains_key(name) {
            return Err(DbError::config("A database is already open under this name"));
        }
        match parse_engine(kind) {
            Some(engine) => Ok(OpenPlan::Connect(pool_settings(engine, config))),
            None => Ok(OpenPlan::Unrecognised),
        }
    }

    /// Registers, under `name`, the handle on the pool numbered `pool` of
    /// the engine that `kind` names. A name that is open already is
    /// refused, and the registry left as it was.
    pub fn open(&mut self, name: &str, kind: &str, pool: u64) -> (r: Result<(), DbError>)
        requires
            old(self).wf(),
        ensures
            final(self).wf(),
            match r {
                Ok(()) => {
                    let handle = final(self)@[name@];
                    &&& !old(self)@.contains_key(name@)
                    &&& final(self)@ == old(self)@.insert(name@, handle)
                    &&& handle.name@ == name@
                    &&& handle.inner.engine_spec() == engine_of_kind(kind@)
                    &&& match handle.inner {
                        DbPoolInner::MySql(n) => n == pool,
                        DbPoolInner::Sqlite(n) => n == pool,
                        DbPoolInner::Postgres(n) => n == pool,
                        DbPoolInner::Other(k) => k@ == kind@,
                    }
                },
                Err(e) => old(self)@.contains_key(name@) && final(self)@ == old(self)@
                    && is_config(e, msg_already_open()),
            },
    {
        if self.pools.contains_key(name) {
            return Err(DbError::config("A database is already open under this name"));
        }
        let handle = DbPool::new(name, kind, pool);
        self.pools.insert(name.to_owned(), handle);
        Ok(())
    }

    /// The handle registered under `name`, if any.
    pub fn by(&self, name: &str) -> (r: Option<DbPool>)
        requires
            self.wf(),
        ensures
            match r {
                Some(p) => self@.contains_key(name@) && p == self@[name@] && p.name@ == name@,
                None => !self@.contains_key(name@),
            },
    {
        match self.pools.get(name) {
            Some(p) => Some(p.clone()),
            None => None,
        }
    }

    /// The handle registered under the name `default`, if any.
    pub fn get(&self) -> (r: Option<DbPool>)
        requires
            self.wf(),
        ensures
            match r {
                Some(p) => self@.contains_key("default"@) && p == self@["default"@],
                None => !self@.contains_key("default"@),
            },
    {
        self.by("default")
    }

    /// Takes `name` out of the registry. Says whether anything was
    /// registered under it; a name that is not open is no failure.
    pub fn close(&mut self, name: &str) -> (closed: bool)
        requires
            old(self).wf(),
        ensures
            final(self).wf(),
            closed == old(self)@.contains_key(name@),
            final(self)@ == old(self)@.remove(name@),
    {
        self.pools.remove(name).is_some()
    }

    /// The number of open databases.
    pub fn len(&self) -> (n: usize)
        ensures
            self@.dom().finite(),
            n == self@.dom().len(),
    {
        self.pools.len()
    }
}

/// The settings of [`pool_settings`], given the copy of the URL they hold.
pub open spec fn pool_settings_spec(engine: Engine, config: &DatabaseOptions, url: String) -> PoolSettings {
    PoolSettings {
        engine,
        url,
        max_connections: crate::db_pool::low_u32(config.max_open_conns),
        min_connections: crate::db_pool::low_u32(config.max_idle_conns),
        acquire_timeout_secs: config.timeout,
        max_lifetime_secs: config.max_lifetime,
        create_if_missing: engine == Engine::Sqlite,
    }
}

/// Closing a name that is not open, be it never opened or closed already,
/// answers `false` and changes nothing; and whatever was open before, a
/// second close of the same name answers `false`.
pub proof fn lemma_close_absent(before: Map<Seq<char>, DbPool>, name: Seq<char>)
    ensures
        !before.contains_key(name) ==> before.remove(name) == before,
        !before.remove(name).contains_key(name),
{
    if !before.contains_key(name) {
        assert(before.remove(name) =~= before);
    }
}

} // verus!
