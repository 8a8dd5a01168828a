//! The configuration that opening a database consumes.
use vstd::prelude::*;

verus! {

/// Connection string and pool sizing of one logical database.
#[derive(Debug, PartialEq, Eq)]
pub struct DatabaseOptions {
    /// The engine kind, such as `"mysql"`, `"sqlite"` or `"postgres"`.
    pub kind: String,
    /// The connection string.
    pub url: String,
    /// The most connections the pool may hold.
    pub max_open_conns: u64,
    /// The connections the pool keeps ready.
    pub max_idle_conns: u64,
    /// How long a connection may live, in seconds.
    pub max_lifetime: u64,
    /// How long acquiring a connection may take, in seconds.
    pub timeout: u64,
}

impl DatabaseOptions {
    /// Options for `url` with the default sizing: 10 open and 2 idle
    /// connections, a lifetime of 3060 seconds and a timeout of 10.
    pub fn new(kind: String, url: String) -> (o: Self)
        ensures
            o == (DatabaseOptions {
                kind,
                url,
                max_open_conns: 10,
                max_idle_conns: 2,
                max_lifetime: 3060,
                timeout: 10,
            }),
    {
        DatabaseOptions {
            kind,
            url,
            max_open_conns: 10,
            max_idle_conns: 2,
            max_lifetime: 3060,
            timeout: 10,
        }
    }

    /// The same options with `max_open_conns` replaced.
    pub fn max_open_conns(self, max_open_conns: u64) -> (o: Self)
        ensures
            o == (DatabaseOptions { max_open_conns, ..self }),
    {
        let mut o = self;
        o.max_open_conns = max_open_conns;
        o
    }

    /// The same options with `max_idle_conns` replaced.
    pub fn max_idle_conns(self, max_idle_conns: u64) -> (o: Self)
        ensures
            o == (DatabaseOptions { max_idle_conns, ..self }),
    {
        let mut o = self;
        o.max_idle_conns = max_idle_conns;
        o
    }

    /// The same options with `max_lifetime` replaced.
    pub fn max_lifetime(self, max_lifetime: u64) -> (o: Self)
        ensures
            o == (DatabaseOptions { max_lifetime, ..self }),
    {
        let mut o = self;
        o.max_lifetime = max_lifetime;
        o
    }

    /// The same options with `timeout` replaced.
    pub fn timeout(self, timeout: u64) -> (o: Self)
        ensures
            o == (DatabaseOptions { timeout, ..self }),
    {
        let mut o = self;
        o.timeout = timeout;
        o
    }
}

} // verus!
