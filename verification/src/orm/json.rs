//! JSON values as the dispatch layer reads them.
use vstd::prelude::*;

verus! {

/// A JSON number, by what can be read from it: its value as a signed 64-bit
/// integer where it is one; its value as a 64-bit float, by bit pattern,
/// where it has one; and its text.
#[derive(Debug, PartialEq, Eq)]
pub struct JsonNumber {
    pub as_i64: Option<i64>,
    pub as_f64: Option<u64>,
    pub text: String,
}

/// A JSON value. An array or an object is carried as its JSON text.
#[derive(Debug, PartialEq, Eq)]
pub enum JsonValue {
    Null,
    Bool(bool),
    Number(JsonNumber),
    String(String),
    Array(String),
    Object(String),
}

} // verus!
