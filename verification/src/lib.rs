//! The logic of a database-access layer, with its proofs: an
//! engine-agnostic value model, a SQL template engine, the decoding of
//! schema-less rows, a registry of logical databases, a scoped transaction
//! context and the dispatch of statements to three engines; and beside it
//! status codes and a codec for short identifiers.
//!
//! The library decides and computes. Connecting, executing and reading
//! files are left to the program that embeds it.
use vstd::prelude::*;

pub mod code;
pub mod db_conn;
pub mod db_pool;
pub mod error;
pub mod models;
pub mod orm;
pub mod sql_parser;
pub mod sql_tpl;
pub mod str_map;
pub mod text;
pub mod uid;

verus! {

} // verus!
