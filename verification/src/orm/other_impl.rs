//! The repository of engines that are not supported: it refuses everything.
use vstd::prelude::*;
use vstd::string::*;
use crate::db_pool::{DbPool, TransactionContext, is_config};
use crate::error::DbError;
use crate::orm::crud_traits::CrudRepository;
use crate::orm::json::JsonValue;
use crate::orm::sqlx_impl::Statement;

verus! {

pub open spec fn msg_not_implemented() -> Seq<char> {
    "Other repository not implemented"@
}

/// The repository for handles of an unrecognised engine kind.
#[derive(Copy, Clone, Debug)]
pub struct OtherRepository;

impl OtherRepository {
    fn refuse() -> (r: Result<Statement, DbError>)
        ensures
            r matches Err(e) && is_config(e, msg_not_implemented()),
    {
        Err(DbError::config("Other repository not implemented"))
    }
}

impl CrudRepository for OtherRepository {
    type Connection = DbPool;

    type Error = DbError;

    type Args = Vec<JsonValue>;

    fn get(&self, _cnn: &DbPool, _ctx: &TransactionContext, _sql: &str, _args: Vec<JsonValue>) -> (r:
        Result<Statement, DbError>)
        ensures
            r matches Err(e) && is_config(e, msg_not_implemented()),
    {
        Self::refuse()
    }

    fn list(&self, _cnn: &DbPool, _ctx: &TransactionContext, _sql: &str, _args: Vec<JsonValue>) -> (r:
        Result<Statement, DbError>)
        ensures
            r matches Err(e) && is_config(e, msg_not_implemented()),
    {
        Self::refuse()
    }

    fn create(&self, _cnn: &DbPool, _ctx: &TransactionContext, _sql: &str, _args: Vec<JsonValue>) -> (r:
        Result<Statement, DbError>)
        ensures
            r matches Err(e) && is_config(e, msg_not_implemented()),
    {
        Self::refuse()
    }

    fn batch_create(
        &self,
        _cnn: &DbPool,
        _ctx: &TransactionContext,
        _sql: &str,
        _args: Vec<Vec<JsonValue>>,
    ) -> (r: Result<Vec<Statement>, DbError>)
        ensures
            r matches Err(e) && is_config(e, msg_not_implemented()),
    {
        Err(DbError::config("Other repository not implemented"))
    }

    fn update(&self, _cnn: &DbPool, _ctx: &TransactionContext, _sql: &str, _args: Vec<JsonValue>) -> (r:
        Result<Statement, DbError>)
        ensures
            r matches Err(e) && is_config(e, msg_not_implemented()),
    {
        Self::refuse()
    }

    fn delete(&self, _cnn: &DbPool, _ctx: &TransactionContext, _sql: &str, _args: Vec<JsonValue>) -> (r:
        Result<Statement, DbError>)
        ensures
            r matches Err(e) && is_config(e, msg_not_implemented()),
    {
        Self::refuse()
    }
}

} // verus!
