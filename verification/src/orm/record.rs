//! A row held in memory: every answer a reader can give, stored as data.
use vstd::prelude::*;
use vstd::string::*;
use crate::orm::row_de::{ColumnSpec, RowReader, string_result_view, text_result_view};

verus! {

/// One cell: its column's name and type name, whether it is null, and what
/// each typed extraction gives for it.
#[derive(Debug, PartialEq)]
pub struct Cell {
    pub name: String,
    pub column_type_name: String,
    pub null: bool,
    pub as_bool: Result<bool, String>,
    pub as_i64: Result<i64, String>,
    /// The float by its bit pattern.
    pub as_f64: Result<u64, String>,
    pub as_string: Result<String, String>,
    /// The JSON value by its text.
    pub as_json: Result<String, String>,
}

impl View for Cell {
    type V = ColumnSpec;

    open spec fn view(&self) -> ColumnSpec {
        ColumnSpec {
            name: self.name@,
            column_type_name: self.column_type_name@,
            null: self.null,
            as_bool: text_result_view(self.as_bool),
            as_i64: text_result_view(self.as_i64),
            as_f64: text_result_view(self.as_f64),
            as_string: string_result_view(self.as_string),
            as_json: string_result_view(self.as_json),
        }
    }
}

/// A row as a list of cells, in column order.
#[derive(Debug, PartialEq)]
pub struct Record {
    pub cells: Vec<Cell>,
}

fn copy_text_result(r: &Result<String, String>) -> (c: Result<String, String>)
    ensures
        string_result_view(c) == string_result_view(*r),
{
    match r {
        Ok(s) => Ok(s.clone()),
        Err(e) => Err(e.clone()),
    }
}

impl RowReader for Record {
    open spec fn columns(&self) -> Seq<ColumnSpec> {
        Seq::new(self.cells@.len(), |i: int| self.cells@[i]@)
    }

    fn column_count(&self) -> (n: usize) {
        self.cells.len()
    }

    fn column_name(&self, idx: usize) -> (name: &str) {
        self.cells[idx].name.as_str()
    }

    fn is_null(&self, idx: usize) -> (null: bool) {
        self.cells[idx].null
    }

    fn column_type_name(&self, idx: usize) -> (name: &str) {
        self.cells[idx].column_type_name.as_str()
    }

    fn get_bool(&self, idx: usize) -> (r: Result<bool, String>) {
        match &self.cells[idx].as_bool {
            Ok(b) => Ok(*b),
            Err(e) => Err(e.clone()),
        }
    }

    fn get_i64(&self, idx: usize) -> (r: Result<i64, String>) {
        match &self.cells[idx].as_i64 {
            Ok(i) => Ok(*i),
            Err(e) => Err(e.clone()),
        }
    }

    fn get_f64(&self, idx: usize) -> (r: Result<u64, String>) {
        match &self.cells[idx].as_f64 {
            Ok(f) => Ok(*f),
            Err(e) => Err(e.clone()),
        }
    }

    fn get_string(&self, idx: usize) -> (r: Result<String, String>) {
        copy_text_result(&self.cells[idx].as_string)
    }

    fn get_json(&self, idx: usize) -> (r: Result<String, String>) {
        copy_text_result(&self.cells[idx].as_json)
    }
}

} // verus!
