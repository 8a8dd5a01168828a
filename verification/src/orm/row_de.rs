//! Decoding of schema-less result rows: each cell is decoded by the type
//! name that the engine reports for its column.
use vstd::prelude::*;
use vstd::string::*;
use crate::error::DbError;
use crate::text::str_eq;

verus! {

/// What one cell of a row answers to each question a reader can ask of it.
pub struct ColumnSpec {
    pub name: Seq<char>,
    pub column_type_name: Seq<char>,
    pub null: bool,
    pub as_bool: Result<bool, Seq<char>>,
    pub as_i64: Result<i64, Seq<char>>,
    pub as_f64: Result<u64, Seq<char>>,
    pub as_string: Result<Seq<char>, Seq<char>>,
    pub as_json: Result<Seq<char>, Seq<char>>,
}

/// Uniform access to one result row of some engine.
///
/// A 64-bit float travels as its IEEE-754 bit pattern, a JSON value as its
/// text.
pub trait RowReader {
    /// The cells of the row, by column index.
    spec fn columns(&self) -> Seq<ColumnSpec>;

    fn column_count(&self) -> (n: usize)
        ensures
            n == self.columns().len(),
    ;

    fn column_name(&self, idx: usize) -> (name: &str)
        requires
            idx < self.columns().len(),
        ensures
            name@ == self.columns()[idx as int].name,
    ;

    fn is_null(&self, idx: usize) -> (null: bool)
        requires
            idx < self.columns().len(),
        ensures
            null == self.columns()[idx as int].null,
    ;

    fn column_type_name(&self, idx: usize) -> (name: &str)
        requires
            idx < self.columns().len(),
        ensures
            name@ == self.columns()[idx as int].column_type_name,
    ;

    fn get_bool(&self, idx: usize) -> (r: Result<bool, String>)
        requires
            idx < self.columns().len(),
        ensures
            text_result_view(r) == self.columns()[idx as int].as_bool,
    ;

    fn get_i64(&self, idx: usize) -> (r: Result<i64, String>)
        requires
            idx < self.columns().len(),
        ensures
            text_result_view(r) == self.columns()[idx as int].as_i64,
    ;

    fn get_f64(&self, idx: usize) -> (r: Result<u64, String>)
        requires
            idx < self.columns().len(),
        ensures
            text_result_view(r) == self.columns()[idx as int].as_f64,
    ;

    fn get_string(&self, idx: usize) -> (r: Result<String, String>)
        requires
            idx < self.columns().len(),
        ensures
            string_result_view(r) == self.columns()[idx as int].as_string,
    ;

    fn get_json(&self, idx: usize) -> (r: Result<String, String>)
        requires
            idx < self.columns().len(),
        ensures
            string_result_view(r) == self.columns()[idx as int].as_json,
    ;
}

/// A result whose error text is taken by its characters.
pub open spec fn text_result_view<T>(r: Result<T, String>) -> Result<T, Seq<char>> {
    match r {
        Ok(v) => Ok(v),
        Err(e) => Err(e@),
    }
}

/// A textual result, value and error both taken by their characters.
pub open spec fn string_result_view(r: Result<String, String>) -> Result<Seq<char>, Seq<char>> {
    match r {
        Ok(v) => Ok(v@),
        Err(e) => Err(e@),
    }
}

/// The families of column types that decoding tells apart.
#[derive(Copy, Clone, Debug, PartialEq, Eq, Structural)]
pub enum TypeFamily {
    Integer,
    Float,
    Boolean,
    Text,
    Json,
    Timestamp,
    Unknown,
}

/// The family of an engine-reported type name. Names are matched exactly.
pub open spec fn type_family(name: Seq<char>) -> TypeFamily {
    if name == "TINYINT"@ || name == "SMALLINT"@ || name == "INT"@ || name == "INTEGER"@
        || name == "BIGINT"@ || name == "INT2"@ || name == "INT4"@ || name == "INT8"@ {
        TypeFamily::Integer
    } else if name == "FLOAT"@ || name == "DOUBLE"@ || name == "REAL"@ || name == "FLOAT4"@
        || name == "FLOAT8"@ {
        TypeFamily::Float
    } else if name == "BOOLEAN"@ || name == "BOOL"@ {
        TypeFamily::Boolean
    } else if name == "VARCHAR"@ || name == "TEXT"@ || name == "CHAR"@ || name == "NAME"@
        || name == "String"@ {
        TypeFamily::Text
    } else if name == "JSON"@ || name == "JSONB"@ {
        TypeFamily::Json
    } else if name == "DATETIME"@ || name == "TIMESTAMP"@ || name == "TIMESTAMPTZ"@ {
        TypeFamily::Timestamp
    } else {
        TypeFamily::Unknown
    }
}

/// Computes [`type_family`].
pub fn classify_type(name: &str) -> (f: TypeFamily)
    ensures
        f == type_family(name@),
{
    if str_eq(name, "TINYINT") || str_eq(name, "SMALLINT") || str_eq(name, "INT") || str_eq(
        name,
        "INTEGER",
    ) || str_eq(name, "BIGINT") || str_eq(name, "INT2") || str_eq(name, "INT4") || str_eq(
        name,
        "INT8",
    ) {
        TypeFamily::Integer
    } else if str_eq(name, "FLOAT") || str_eq(name, "DOUBLE") || str_eq(name, "REAL") || str_eq(
        name,
        "FLOAT4",
    ) || str_eq(name, "FLOAT8") {
        TypeFamily::Float
    } else if str_eq(name, "BOOLEAN") || str_eq(name, "BOOL") {
        TypeFamily::Boolean
    } else if str_eq(name, "VARCHAR") || str_eq(name, "TEXT") || str_eq(name, "CHAR") || str_eq(
        name,
        "NAME",
    ) || str_eq(name, "String") {
        TypeFamily::Text
    } else if str_eq(name, "JSON") || str_eq(name, "JSONB") {
        TypeFamily::Json
    } else if str_eq(name, "DATETIME") || str_eq(name, "TIMESTAMP") || str_eq(
        name,
        "TIMESTAMPTZ",
    ) {
        TypeFamily::Timestamp
    } else {
        TypeFamily::Unknown
    }
}

/// A decoded cell.
#[derive(Debug, PartialEq)]
pub enum ColumnValue {
    /// A null cell, or one that nothing could be read from.
    Unit,
    Bool(bool),
    I64(i64),
    /// A 64-bit float, as its bit pattern.
    F64(u64),
    Str(String),
    /// A JSON value, as its text.
    Json(String),
}

/// A decoded cell, with texts as character sequences.
pub enum ColumnValueView {
    Unit,
    Bool(bool),
    I64(i64),
    F64(u64),
    Str(Seq<char>),
    Json(Seq<char>),
}

impl View for ColumnValue {
    type V = ColumnValueView;

    open spec fn view(&self) -> ColumnValueView {
        match self {
            ColumnValue::Unit => ColumnValueView::Unit,
            ColumnValue::Bool(b) => ColumnValueView::Bool(*b),
            ColumnValue::I64(i) => ColumnValueView::I64(*i),
            ColumnValue::F64(f) => ColumnValueView::F64(*f),
            ColumnValue::Str(s) => ColumnValueView::Str(s@),
            ColumnValue::Json(s) => ColumnValueView::Json(s@),
        }
    }
}

/// What a cell of an unrecognised type decodes to: its text if it has one,
/// else its integer, else its float, else nothing.
pub open spec fn fallback_spec(c: ColumnSpec) -> ColumnValueView {
    match c.as_string {
        Ok(s) => ColumnValueView::Str(s),
        Err(_) => match c.as_i64 {
            Ok(i) => ColumnValueView::I64(i),
            Err(_) => match c.as_f64 {
                Ok(f) => ColumnValueView::F64(f),
                Err(_) => ColumnValueView::Unit,
            },
        },
    }
}

/// What a cell decodes to when the destination gives no hint: a null cell
/// is the unit whatever its type; otherwise the column's type family picks
/// the accessor, and the accessor's failure is the failure of the decoding.
pub open spec fn decode_any_spec(c: ColumnSpec) -> Result<ColumnValueView, Seq<char>> {
    if c.null {
        Ok(ColumnValueView::Unit)
    } else {
        match type_family(c.column_type_name) {
            TypeFamily::Integer => match c.as_i64 {
                Ok(i) => Ok(ColumnValueView::I64(i)),
                Err(e) => Err(e),
            },
            TypeFamily::Float => match c.as_f64 {
                Ok(f) => Ok(ColumnValueView::F64(f)),
                Err(e) => Err(e),
            },
            TypeFamily::Boolean => match c.as_bool {
                Ok(b) => Ok(ColumnValueView::Bool(b)),
                Err(e) => Err(e),
            },
            TypeFamily::Text | TypeFamily::Timestamp => match c.as_string {
                Ok(s) => Ok(ColumnValueView::Str(s)),
                Err(e) => Err(e),
            },
            TypeFamily::Json => match c.as_json {
                Ok(s) => Ok(ColumnValueView::Json(s)),
                Err(e) => Err(e),
            },
            TypeFamily::Unknown => Ok(fallback_spec(c)),
        }
    }
}

/// That the outcome `r` of a decoding is what `expected` asks for: a value by
/// its view, a failure as a deserialization error with the accessor's text.
pub open spec fn decoded_as(
    r: Result<ColumnValue, DbError>,
    expected: Result<ColumnValueView, Seq<char>>,
) -> bool {
    match r {
        Ok(v) => expected == Ok::<ColumnValueView, Seq<char>>(v@),
        Err(e) => e is Deserialization && expected == Err::<ColumnValueView, Seq<char>>(
            e->Deserialization_0@,
        ),
    }
}

/// Decodes cell `idx` of `row` with no hint from the destination.
pub fn decode_any<R: RowReader>(row: &R, idx: usize) -> (r: Result<ColumnValue, DbError>)
    requires
        idx < row.columns().len(),
    ensures
        decoded_as(r, decode_any_spec(row.columns()[idx as int])),
{
    let family = classify_type(row.column_type_name(idx));
    if row.is_null(idx) {
        return Ok(ColumnValue::Unit);
    }
    match family {
        TypeFamily::Integer => match row.get_i64(idx) {
            Ok(v) => Ok(ColumnValue::I64(v)),
            Err(e) => Err(DbError::deserialization(e)),
        },
        TypeFamily::Float => match row.get_f64(idx) {
            Ok(v) => Ok(ColumnValue::F64(v)),
            Err(e) => Err(DbError::deserialization(e)),
        },
        TypeFamily::Boolean => match row.get_bool(idx) {
            Ok(v) => Ok(ColumnValue::Bool(v)),
            Err(e) => Err(DbError::deserialization(e)),
        },
        TypeFamily::Text | TypeFamily::Timestamp => match row.get_string(idx) {
            Ok(v) => Ok(ColumnValue::Str(v)),
            Err(e) => Err(DbError::deserialization(e)),
        },
        TypeFamily::Json => match row.get_json(idx) {
            Ok(v) => Ok(ColumnValue::Json(v)),
            Err(e) => Err(DbError::deserialization(e)),
        },
        TypeFamily::Unknown => {
            if let Ok(v) = row.get_string(idx) {
                Ok(ColumnValue::Str(v))
            } else if let Ok(v) = row.get_i64(idx) {
                Ok(ColumnValue::I64(v))
            } else if let Ok(v) = row.get_f64(idx) {
                Ok(ColumnValue::F64(v))
            } else {
                Ok(ColumnValue::Unit)
            }
        },
    }
}

/// What the destination expects of a cell.
#[derive(Copy, Clone, Debug, PartialEq, Eq, Structural)]
pub enum Hint {
    /// Nothing: decode by the column's type name.
    Any,
    Bool,
    I64,
    F64,
    Str,
}

/// What a cell decodes to under a hint: the hinted accessor's value where
/// it gives one, otherwise what [`decode_any_spec`] says.
pub open spec fn decode_hinted_spec(c: ColumnSpec, hint: Hint) -> Result<ColumnValueView, Seq<char>> {
    match hint {
        Hint::Any => decode_any_spec(c),
        Hint::Bool => match c.as_bool {
            Ok(b) => Ok(ColumnValueView::Bool(b)),
            Err(_) => decode_any_spec(c),
        },
        Hint::I64 => match c.as_i64 {
            Ok(i) => Ok(ColumnValueView::I64(i)),
            Err(_) => decode_any_spec(c),
        },
        Hint::F64 => match c.as_f64 {
            Ok(f) => Ok(ColumnValueView::F64(f)),
            Err(_) => decode_any_spec(c),
        },
        Hint::Str => match c.as_string {
            Ok(s) => Ok(ColumnValueView::Str(s)),
            Err(_) => decode_any_spec(c),
        },
    }
}

/// Decodes cell `idx` for a destination that expects a boolean.
pub fn decode_bool<R: RowReader>(row: &R, idx: usize) -> (r: Result<ColumnValue, DbError>)
    requires
        idx < row.columns().len(),
    ensures
        decoded_as(r, decode_hinted_spec(row.columns()[idx as int], Hint::Bool)),
{
    if let Ok(v) = row.get_bool(idx) {
        Ok(ColumnValue::Bool(v))
    } else {
        decode_any(row, idx)
    }
}

/// Decodes cell `idx` for a destination that expects a 64-bit integer.
pub fn decode_i64<R: RowReader>(row: &R, idx: usize) -> (r: Result<ColumnValue, DbError>)
    requires
        idx < row.columns().len(),
    ensures
        decoded_as(r, decode_hinted_spec(row.columns()[idx as int], Hint::I64)),
{
    if let Ok(v) = row.get_i64(idx) {
        Ok(ColumnValue::I64(v))
    } else {
        decode_any(row, idx)
    }
}

/// Decodes cell `idx` for a destination that expects a 64-bit float.
pub fn decode_f64<R: RowReader>(row: &R, idx: usize) -> (r: Result<ColumnValue, DbError>)
    requires
        idx < row.columns().len(),
    ensures
        decoded_as(r, decode_hinted_spec(row.columns()[idx as int], Hint::F64)),
{
    if let Ok(v) = row.get_f64(idx) {
        Ok(ColumnValue::F64(v))
    } else {
        decode_any(row, idx)
    }
}

/// Decodes cell `idx` for a destination that expects a string.
pub fn decode_string<R: RowReader>(row: &R, idx: usize) -> (r: Result<ColumnValue, DbError>)
    requires
        idx < row.columns().len(),
    ensures
        decoded_as(r, decode_hinted_spec(row.columns()[idx as int], Hint::Str)),
{
    if let Ok(v) = row.get_string(idx) {
        Ok(ColumnValue::Str(v))
    } else {
        decode_any(row, idx)
    }
}

/// Decodes cell `idx` under `hint`.
pub fn decode_hinted<R: RowReader>(row: &R, idx: usize, hint: Hint) -> (r: Result<
    ColumnValue,
    DbError,
>)
    requires
        idx < row.columns().len(),
    ensures
        decoded_as(r, decode_hinted_spec(row.columns()[idx as int], hint)),
{
    match hint {
        Hint::Any => decode_any(row, idx),
        Hint::Bool => decode_bool(row, idx),
        Hint::I64 => decode_i64(row, idx),
        Hint::F64 => decode_f64(row, idx),
        Hint::Str => decode_string(row, idx),
    }
}

/// What a cell decodes to for an optional destination: nothing where the
/// cell is null, else what the hint gives.
pub open spec fn decode_option_spec(c: ColumnSpec, hint: Hint) -> Result<
    Option<ColumnValueView>,
    Seq<char>,
> {
    if c.null {
        Ok(None)
    } else {
        match decode_hinted_spec(c, hint) {
            Ok(v) => Ok(Some(v)),
            Err(e) => Err(e),
        }
    }
}

/// Decodes cell `idx` for an optional destination whose inner value is
/// expected as `hint` says.
pub fn decode_option<R: RowReader>(row: &R, idx: usize, hint: Hint) -> (r: Result<
    Option<ColumnValue>,
    DbError,
>)
    requires
        idx < row.columns().len(),
    ensures
        match r {
            Ok(None) => decode_option_spec(row.columns()[idx as int], hint) == Ok::<
                Option<ColumnValueView>,
                Seq<char>,
            >(None),
            Ok(Some(v)) => decode_option_spec(row.columns()[idx as int], hint) == Ok::<
                Option<ColumnValueView>,
                Seq<char>,
            >(Some(v@)),
            Err(e) => e is Deserialization && decode_option_spec(row.columns()[idx as int], hint)
                == Err::<Option<ColumnValueView>, Seq<char>>(e->Deserialization_0@),
        },
{
    if row.is_null(idx) {
        Ok(None)
    } else {
        match decode_hinted(row, idx, hint) {
            Ok(v) => Ok(Some(v)),
            Err(e) => Err(e),
        }
    }
}

/// A null cell decodes to the unit under no hint, whatever type the column
/// declares, and to nothing for an optional destination.
pub proof fn lemma_null_decodes_absent(c: ColumnSpec, hint: Hint)
    requires
        c.null,
    ensures
        decode_any_spec(c) == Ok::<ColumnValueView, Seq<char>>(ColumnValueView::Unit),
        decode_option_spec(c, hint) == Ok::<Option<ColumnValueView>, Seq<char>>(None),
{
}

/// A non-null cell of a column declared with an integer type decodes to the
/// 64-bit integer that the reader extracts, and fails as the reader fails.
pub proof fn lemma_integer_column_decodes_i64(c: ColumnSpec)
    requires
        !c.null,
        type_family(c.column_type_name) == TypeFamily::Integer,
    ensures
        match c.as_i64 {
            Ok(i) => decode_any_spec(c) == Ok::<ColumnValueView, Seq<char>>(
                ColumnValueView::I64(i),
            ),
            Err(e) => decode_any_spec(c) == Err::<ColumnValueView, Seq<char>>(e),
        },
{
}

/// A non-null cell of an unrecognised type never fails to decode: it gives
/// its string; failing that its integer; failing that its float; and the
/// unit only when all three extractions fail.
pub proof fn lemma_unknown_column_falls_back(c: ColumnSpec)
    requires
        !c.null,
        type_family(c.column_type_name) == TypeFamily::Unknown,
    ensures
        decode_any_spec(c) is Ok,
        c.as_string is Ok ==> decode_any_spec(c)->Ok_0 == ColumnValueView::Str(c.as_string->Ok_0),
        c.as_string is Err && c.as_i64 is Ok ==> decode_any_spec(c)->Ok_0 == ColumnValueView::I64(
            c.as_i64->Ok_0,
        ),
        c.as_string is Err && c.as_i64 is Err && c.as_f64 is Ok ==> decode_any_spec(c)->Ok_0
            == ColumnValueView::F64(c.as_f64->Ok_0),
        decode_any_spec(c)->Ok_0 is Unit <==> c.as_string is Err && c.as_i64 is Err && c.as_f64
            is Err,
{
}

/// The named fields that the first `n` columns decode to, in column order,
/// or the failure of the first column that cannot be decoded.
pub open spec fn decode_fields_spec(cols: Seq<ColumnSpec>, n: nat) -> Result<
    Seq<(Seq<char>, ColumnValueView)>,
    Seq<char>,
>
    recommends
        n <= cols.len(),
    decreases n,
{
    if n == 0 {
        Ok(Seq::empty())
    } else {
        match decode_fields_spec(cols, (n - 1) as nat) {
            Err(e) => Err(e),
            Ok(fields) => match decode_any_spec(cols[n - 1]) {
                Ok(v) => Ok(fields.push((cols[n - 1].name, v))),
                Err(e) => Err(e),
            },
        }
    }
}

/// Named fields, names and values by their views.
pub open spec fn fields_view(fields: Seq<(String, ColumnValue)>) -> Seq<
    (Seq<char>, ColumnValueView),
> {
    Seq::new(fields.len(), |i: int| (fields[i].0@, fields[i].1@))
}

/// Presents a row as a sequence of (column name, column value) pairs.
pub struct RowDeserializer<'a, R: RowReader> {
    row: &'a R,
    col_idx: usize,
    count: usize,
}

impl<'a, R: RowReader> RowDeserializer<'a, R> {
    /// The row being read.
    pub closed spec fn row(&self) -> &'a R {
        self.row
    }

    /// The index of the next column to hand out.
    pub closed spec fn position(&self) -> nat {
        self.col_idx as nat
    }

    /// The position never passes the row's end.
    pub closed spec fn wf(&self) -> bool {
        &&& self.count == self.row.columns().len()
        &&& self.col_idx <= self.count
    }

    /// Starts at the first column of `row`.
    pub fn new(row: &'a R) -> (de: Self)
        ensures
            de.wf(),
            de.row() == row,
            de.position() == 0,
    {
        RowDeserializer { row, col_idx: 0, count: row.column_count() }
    }

    /// The name of the next column, or nothing past the last one. The
    /// position stays.
    pub fn next_key(&self) -> (key: Option<String>)
        requires
            self.wf(),
        ensures
            self.position() >= self.row().columns().len() <==> key is None,
            key matches Some(k) ==> k@ == self.row().columns()[self.position() as int].name,
    {
        if self.col_idx >= self.count {
            return None;
        }
        Some(self.row.column_name(self.col_idx).to_owned())
    }

    /// Whether the next column holds a null. The position stays.
    pub fn next_is_null(&self) -> (null: bool)
        requires
            self.wf(),
            self.position() < self.row().columns().len(),
        ensures
            null == self.row().columns()[self.position() as int].null,
    {
        self.row.is_null(self.col_idx)
    }

    /// Whether a column is left to hand out.
    pub fn has_next(&self) -> (more: bool)
        requires
            self.wf(),
        ensures
            more == (self.position() < self.row().columns().len()),
    {
        self.col_idx < self.count
    }

    /// Decodes the next column under `hint` and moves past it, whether the
    /// decoding succeeds or not.
    pub fn next_value(&mut self, hint: Hint) -> (r: Result<ColumnValue, DbError>)
        requires
            old(self).wf(),
            old(self).position() < old(self).row().columns().len(),
        ensures
            final(self).wf(),
            final(self).row() == old(self).row(),
            final(self).position() == old(self).position() + 1,
            decoded_as(
                r,
                decode_hinted_spec(
                    old(self).row().columns()[old(self).position() as int],
                    hint,
                ),
            ),
    {
        let idx = self.col_idx;
        self.col_idx = self.col_idx + 1;
        decode_hinted(self.row, idx, hint)
    }
}

/// Decodes every column of `row` with no hint, in column order.
pub fn decode_row<R: RowReader>(row: &R) -> (r: Result<Vec<(String, ColumnValue)>, DbError>)
    ensures
        match r {
            Ok(fields) => decode_fields_spec(row.columns(), row.columns().len()) == Ok::<
                Seq<(Seq<char>, ColumnValueView)>,
                Seq<char>,
            >(fields_view(fields@)),
            Err(e) => e is Deserialization && decode_fields_spec(
                row.columns(),
                row.columns().len(),
            ) == Err::<Seq<(Seq<char>, ColumnValueView)>, Seq<char>>(e->Deserialization_0@),
        },
{
    let mut de = RowDeserializer::new(row);
    let mut fields: Vec<(String, ColumnValue)> = Vec::new();
    let n = row.column_count();
    let mut i: usize = 0;
    proof {
        assert(fields_view(fields@) =~= Seq::empty());
    }
    while i < n
        invariant
            de.wf(),
            de.row() == row,
            de.position() == i,
            n == row.columns().len(),
            i <= n,
            decode_fields_spec(row.columns(), i as nat) == Ok::<
                Seq<(Seq<char>, ColumnValueView)>,
                Seq<char>,
            >(fields_view(fields@)),
        decreases n - i,
    {
        let key = de.next_key();
        let name = match key {
            Some(k) => k,
            None => String::new(),
        };
        let ghost before = fields@;
        match de.next_value(Hint::Any) {
            Ok(v) => {
                fields.push((name, v));
                proof {
                    assert(fields_view(fields@) =~= fields_view(before).push(
                        (row.columns()[i as int].name, v@),
                    ));
                }
            },
            Err(e) => {
                proof {
                    lemma_decode_fields_error_stays(row.columns(), (i + 1) as nat, n as nat);
                }
                return Err(e);
            },
        }
        i += 1;
    }
    Ok(fields)
}

/// Once a prefix of the columns fails to decode, every longer prefix fails
/// in the same way.
pub proof fn lemma_decode_fields_error_stays(cols: Seq<ColumnSpec>, k: nat, n: nat)
    requires
        k <= n,
        decode_fields_spec(cols, k) is Err,
    ensures
        decode_fields_spec(cols, n) == decode_fields_spec(cols, k),
    decreases n - k,
{
    if k < n {
        lemma_decode_fields_error_stays(cols, k, (n - 1) as nat);
    }
}

/// The index of the first field called `name`, if there is one.
pub open spec fn field_index(fields: Seq<(Seq<char>, ColumnValueView)>, name: Seq<char>) -> Option<
    int,
>
    decreases fields.len(),
{
    if fields.len() == 0 {
        None
    } else if fields[0].0 == name {
        Some(0)
    } else {
        match field_index(fields.drop_first(), name) {
            Some(i) => Some(i + 1),
            None => None,
        }
    }
}

/// The message reported for a destination field that no column provides.
pub open spec fn missing_field_message(name: Seq<char>) -> Seq<char> {
    "missing field `"@ + name + "`"@
}

/// The first field called `name`. A destination that requires a field that
/// is not among the columns fails; nothing is defaulted.
pub fn require_field<'f>(fields: &'f Vec<(String, ColumnValue)>, name: &str) -> (r: Result<
    &'f ColumnValue,
    DbError,
>)
    ensures
        match r {
            Ok(v) => field_index(fields_view(fields@), name@) matches Some(i) && 0 <= i
                < fields@.len() && *v == fields@[i].1,
            Err(e) => field_index(fields_view(fields@), name@) is None && e is Deserialization
                && e->Deserialization_0@ == missing_field_message(name@),
        },
{
    let mut i: usize = 0;
    proof {
        assert(fields_view(fields@).skip(0) =~= fields_view(fields@));
    }
    while i < fields.len()
        invariant
            i <= fields.len(),
            field_index(fields_view(fields@), name@) == match field_index(
                fields_view(fields@).skip(i as int),
                name@,
            ) {
                Some(j) => Some(j + i),
                None => None,
            },
        decreases fields.len() - i,
    {
        let ghost rest = fields_view(fields@).skip(i as int);
        if str_eq(fields[i].0.as_str(), name) {
            proof {
                assert(rest[0] == fields_view(fields@)[i as int]);
            }
            return Ok(&fields[i].1);
        }
        proof {
            assert(rest[0] == fields_view(fields@)[i as int]);
            assert(rest.drop_first() =~= fields_view(fields@).skip(i + 1));
        }
        i += 1;
    }
    let mut msg = String::from_str("missing field `");
    msg.append(name);
    msg.append("`");
    Err(DbError::deserialization(msg))
}

/// The text that a `chrono::NaiveDateTime` displays itself as: its date
/// and its time of day with a blank between, such as
/// `2024-02-29 13:05:59`. It depends on the value alone.
pub uninterp spec fn naive_text(v: chrono::NaiveDateTime) -> Seq<char>;

/// The RFC 3339 text of the instant that `v` is in UTC, as
/// `chrono::DateTime::to_rfc3339` writes it, such as
/// `2024-02-29T13:05:59+00:00`. It depends on the value alone.
pub uninterp spec fn utc_rfc3339_text(v: chrono::NaiveDateTime) -> Seq<char>;

/// `chrono::NaiveDateTime`'s `Display`, through `to_string`: the result is
/// the text named [`naive_text`].
#[verifier::external_body]
fn naive_timestamp_text(v: &chrono::NaiveDateTime) -> (s: String)
    ensures
        s@ == naive_text(*v),
{
    v.to_string()
}

/// `chrono::NaiveDateTime::and_utc` and then `chrono::DateTime::to_rfc3339`:
/// the result is the text named [`utc_rfc3339_text`].
#[verifier::external_body]
fn zoned_timestamp_text(v: &chrono::NaiveDateTime) -> (s: String)
    ensures
        s@ == utc_rfc3339_text(*v),
{
    v.and_utc().to_rfc3339()
}

/// The message for a cell that no string can be made of.
pub open spec fn no_string_message(column: Seq<char>) -> Seq<char> {
    "Cannot convert column "@ + column + " to string"@
}

/// The string of a cell, from what the engine could extract from it: the
/// cell's own text where it is textual; else, where it is a native
/// timestamp, that timestamp written out, a naive one before a zoned one
/// (given by its date and time in UTC); else a failure that names the
/// column.
pub fn string_of_cell(
    text: Option<String>,
    naive: Option<chrono::NaiveDateTime>,
    zoned: Option<chrono::NaiveDateTime>,
    column: &str,
) -> (r: Result<String, String>)
    ensures
        match text {
            Some(t) => r == Ok::<String, String>(t),
            None => match naive {
                Some(n) => r is Ok && r->Ok_0@ == naive_text(n),
                None => match zoned {
                    Some(z) => r is Ok && r->Ok_0@ == utc_rfc3339_text(z),
                    None => r is Err && r->Err_0@ == no_string_message(column@),
                },
            },
        },
{
    if let Some(t) = text {
        return Ok(t);
    }
    if let Some(v) = naive {
        return Ok(naive_timestamp_text(&v));
    }
    if let Some(v) = zoned {
        return Ok(zoned_timestamp_text(&v));
    }
    let mut msg = String::from_str("Cannot convert column ");
    msg.append(column);
    msg.append(" to string");
    Err(msg)
}

} // verus!
