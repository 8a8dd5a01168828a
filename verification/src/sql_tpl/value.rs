//! The engine-agnostic value model: what a template is rendered against and
//! what a query is given as its parameters.
use vstd::prelude::*;
use vstd::string::*;
use crate::str_map::{StrMap, keys_distinct, map_of};
use crate::text::str_eq;

verus! {

/// `chrono::NaiveDate`, a calendar date, carried through unread.
#[verifier::external_type_specification]
#[verifier::external_body]
pub struct ExNaiveDate(chrono::NaiveDate);

/// `chrono::NaiveTime`, a time of day, carried through unread.
#[verifier::external_type_specification]
#[verifier::external_body]
pub struct ExNaiveTime(chrono::NaiveTime);

/// `chrono::NaiveDateTime`, a date with a time of day, carried through
/// unread.
#[verifier::external_type_specification]
#[verifier::external_body]
pub struct ExNaiveDateTime(chrono::NaiveDateTime);

/// `rust_decimal::Decimal`, a decimal number, carried through unread.
#[verifier::external_type_specification]
#[verifier::external_body]
pub struct ExDecimal(rust_decimal::Decimal);

/// A scalar or structured datum.
///
/// A 64-bit float is held as its IEEE-754 bit pattern, a zoned timestamp as
/// its date and time of day in UTC. A mapping is a list of entries, of
/// which the last one with a given key counts; the order of the entries
/// carries no other meaning, and a mapping that a serializer has built
/// holds each key once.
#[derive(Debug, PartialEq)]
pub enum Value {
    Null,
    Bool(bool),
    I16(i16),
    I32(i32),
    I64(i64),
    U8(u8),
    F64(u64),
    Str(String),
    Bytes(Vec<u8>),
    Date(chrono::NaiveDate),
    Time(chrono::NaiveTime),
    DateTime(chrono::NaiveDateTime),
    DateTimeUtc(chrono::NaiveDateTime),
    Decimal(rust_decimal::Decimal),
    List(Vec<Value>),
    Mapping(Vec<(String, Value)>),
}

/// A bound query parameter: the scalar subset of [`Value`].
#[derive(Debug, PartialEq)]
pub enum SqlParam {
    I16(i16),
    I32(i32),
    I64(i64),
    U8(u8),
    F64(u64),
    String(String),
    Bytes(Vec<u8>),
    Bool(bool),
    Date(chrono::NaiveDate),
    Time(chrono::NaiveTime),
    DateTime(chrono::NaiveDateTime),
    DateTimeUtc(chrono::NaiveDateTime),
    Decimal(rust_decimal::Decimal),
    Null,
}

/// A scalar by kind and payload, with text and bytes as sequences.
pub enum ParamView {
    I16(i16),
    I32(i32),
    I64(i64),
    U8(u8),
    F64(u64),
    String(Seq<char>),
    Bytes(Seq<u8>),
    Bool(bool),
    Date(chrono::NaiveDate),
    Time(chrono::NaiveTime),
    DateTime(chrono::NaiveDateTime),
    DateTimeUtc(chrono::NaiveDateTime),
    Decimal(rust_decimal::Decimal),
    Null,
}

impl View for SqlParam {
    type V = ParamView;

    open spec fn view(&self) -> ParamView {
        match self {
            SqlParam::I16(v) => ParamView::I16(*v),
            SqlParam::I32(v) => ParamView::I32(*v),
            SqlParam::I64(v) => ParamView::I64(*v),
            SqlParam::U8(v) => ParamView::U8(*v),
            SqlParam::F64(v) => ParamView::F64(*v),
            SqlParam::String(v) => ParamView::String(v@),
            SqlParam::Bytes(v) => ParamView::Bytes(v@),
            SqlParam::Bool(v) => ParamView::Bool(*v),
            SqlParam::Date(v) => ParamView::Date(*v),
            SqlParam::Time(v) => ParamView::Time(*v),
            SqlParam::DateTime(v) => ParamView::DateTime(*v),
            SqlParam::DateTimeUtc(v) => ParamView::DateTimeUtc(*v),
            SqlParam::Decimal(v) => ParamView::Decimal(*v),
            SqlParam::Null => ParamView::Null,
        }
    }
}

/// The value that the last entry with the key `key` gives, if any has it.
pub open spec fn mapping_get(entries: Seq<(String, Value)>, key: Seq<char>) -> Option<Value>
    decreases entries.len(),
{
    if entries.len() == 0 {
        None
    } else if entries.last().0@ == key {
        Some(entries.last().1)
    } else {
        mapping_get(entries.drop_last(), key)
    }
}

impl Value {
    /// Whether the value is a scalar: anything but a list or a mapping.
    pub open spec fn is_scalar_spec(&self) -> bool {
        !(self is List) && !(self is Mapping)
    }

    /// Computes [`Self::is_scalar_spec`].
    #[verifier::when_used_as_spec(is_scalar_spec)]
    pub fn is_scalar(&self) -> (r: bool)
        ensures
            r == self.is_scalar_spec(),
    {
        match self {
            Value::List(_) => false,
            Value::Mapping(_) => false,
            _ => true,
        }
    }

    /// Whether the value is the null.
    pub fn is_null(&self) -> (r: bool)
        ensures
            r == (self is Null),
    {
        match self {
            Value::Null => true,
            _ => false,
        }
    }

    /// The kind and payload of a scalar.
    pub open spec fn scalar_view(&self) -> ParamView
        recommends
            self.is_scalar_spec(),
    {
        match self {
            Value::I16(v) => ParamView::I16(*v),
            Value::I32(v) => ParamView::I32(*v),
            Value::I64(v) => ParamView::I64(*v),
            Value::U8(v) => ParamView::U8(*v),
            Value::F64(v) => ParamView::F64(*v),
            Value::Str(v) => ParamView::String(v@),
            Value::Bytes(v) => ParamView::Bytes(v@),
            Value::Bool(v) => ParamView::Bool(*v),
            Value::Date(v) => ParamView::Date(*v),
            Value::Time(v) => ParamView::Time(*v),
            Value::DateTime(v) => ParamView::DateTime(*v),
            Value::DateTimeUtc(v) => ParamView::DateTimeUtc(*v),
            Value::Decimal(v) => ParamView::Decimal(*v),
            _ => ParamView::Null,
        }
    }

    /// What the key `key` gives in this value: the value of the last entry
    /// with that key where the value is a mapping that has one, and the
    /// null everywhere else.
    pub open spec fn field_spec(&self, key: Seq<char>) -> Value {
        match self {
            Value::Mapping(entries) => match mapping_get(entries@, key) {
                Some(v) => v,
                None => Value::Null,
            },
            _ => Value::Null,
        }
    }

    /// Computes [`Self::field_spec`].
    pub fn field<'a>(&'a self, key: &str) -> (r: &'a Value)
        ensures
            *r == self.field_spec(key@),
    {
        match self {
            Value::Mapping(entries) => {
                let mut i: usize = entries.len();
                proof {
                    assert(entries@.take(i as int) =~= entries@);
                }
                while i > 0
                    invariant
                        i <= entries@.len(),
                        *self == Value::Mapping(*entries),
                        mapping_get(entries@, key@) == mapping_get(entries@.take(i as int), key@),
                    decreases i,
                {
                    let ghost head = entries@.take(i as int);
                    proof {
                        assert(head.last() == entries@[i - 1]);
                        assert(head.drop_last() =~= entries@.take(i - 1));
                    }
                    if str_eq(entries[i - 1].0.as_str(), key) {
                        return &entries[i - 1].1;
                    }
                    i -= 1;
                }
                &Value::Null
            },
            _ => &Value::Null,
        }
    }
}

fn copy_bytes(b: &Vec<u8>) -> (r: Vec<u8>)
    ensures
        r@ == b@,
{
    let mut r: Vec<u8> = Vec::new();
    let mut i: usize = 0;
    while i < b.len()
        invariant
            i <= b@.len(),
            r@ == b@.take(i as int),
        decreases b@.len() - i,
    {
        r.push(b[i]);
        proof {
            assert(b@.take(i + 1) =~= b@.take(i as int).push(b@[i as int]));
        }
        i += 1;
    }
    proof {
        assert(b@.take(b@.len() as int) =~= b@);
    }
    r
}

/// The bound parameter for a scalar: the same kind with the same payload.
/// A list or a mapping is no parameter.
pub fn value_to_param(v: &Value) -> (p: SqlParam)
    requires
        v.is_scalar_spec(),
    ensures
        p@ == v.scalar_view(),
        param_matches(*v, p),
{
    match v {
        Value::I16(v) => SqlParam::I16(*v),
        Value::I32(v) => SqlParam::I32(*v),
        Value::I64(v) => SqlParam::I64(*v),
        Value::U8(v) => SqlParam::U8(*v),
        Value::F64(v) => SqlParam::F64(*v),
        Value::Str(v) => SqlParam::String(v.clone()),
        Value::Bytes(v) => SqlParam::Bytes(copy_bytes(v)),
        Value::Bool(v) => SqlParam::Bool(*v),
        Value::Date(v) => SqlParam::Date(*v),
        Value::Time(v) => SqlParam::Time(*v),
        Value::DateTime(v) => SqlParam::DateTime(*v),
        Value::DateTimeUtc(v) => SqlParam::DateTimeUtc(*v),
        Value::Decimal(v) => SqlParam::Decimal(*v),
        _ => SqlParam::Null,
    }
}

/// That `p` is of the kind of the scalar `v` and has its payload.
pub open spec fn param_matches(v: Value, p: SqlParam) -> bool {
    match (v, p) {
        (Value::Null, SqlParam::Null) => true,
        (Value::Bool(a), SqlParam::Bool(b)) => a == b,
        (Value::I16(a), SqlParam::I16(b)) => a == b,
        (Value::I32(a), SqlParam::I32(b)) => a == b,
        (Value::I64(a), SqlParam::I64(b)) => a == b,
        (Value::U8(a), SqlParam::U8(b)) => a == b,
        (Value::F64(a), SqlParam::F64(b)) => a == b,
        (Value::Str(a), SqlParam::String(b)) => a@ == b@,
        (Value::Bytes(a), SqlParam::Bytes(b)) => a@ == b@,
        (Value::Date(a), SqlParam::Date(b)) => a == b,
        (Value::Time(a), SqlParam::Time(b)) => a == b,
        (Value::DateTime(a), SqlParam::DateTime(b)) => a == b,
        (Value::DateTimeUtc(a), SqlParam::DateTimeUtc(b)) => a == b,
        (Value::Decimal(a), SqlParam::Decimal(b)) => a == b,
        _ => false,
    }
}

/// A scalar goes over into its parameter exactly: the parameter of a
/// scalar is of the same kind and has the same payload, and no parameter
/// of another kind or with another payload has the view of the scalar.
pub proof fn lemma_param_keeps_kind_and_payload(v: Value, p: SqlParam)
    requires
        v.is_scalar_spec(),
    ensures
        p@ == v.scalar_view() <==> param_matches(v, p),
{
}

/// A failure of turning a structured datum into a [`Value`].
#[derive(Debug, PartialEq, Eq)]
pub struct ValueError(pub String);

impl ValueError {
    /// The failure with the message `msg`.
    pub fn custom(msg: &str) -> (e: ValueError)
        ensures
            e.0@ == msg@,
    {
        ValueError(msg.to_owned())
    }

    /// The message of the failure.
    pub fn to_string(&self) -> (s: String)
        ensures
            s@ == self.0@,
    {
        self.0.clone()
    }
}

/// The 64-bit signed integer with the bits of `v`.
pub open spec fn wrap_i64(v: u64) -> i64 {
    if v <= i64::MAX {
        v as i64
    } else {
        (v - 0x1_0000_0000_0000_0000) as i64
    }
}

/// Turns the pieces of a structured datum into values: fields of a struct
/// into entries of a mapping, elements of a sequence into elements of a
/// list, an absent option and the unit into the null, a unit variant into
/// the string of its name.
#[derive(Copy, Clone, Debug)]
pub struct ValueSerializer;

impl ValueSerializer {
    pub fn serialize_bool(self, v: bool) -> (r: Result<Value, ValueError>)
        ensures
            r == Ok::<Value, ValueError>(Value::Bool(v)),
    {
        Ok(Value::Bool(v))
    }

    /// An 8-bit signed integer is held in 16 bits.
    pub fn serialize_i8(self, v: i8) -> (r: Result<Value, ValueError>)
        ensures
            r == Ok::<Value, ValueError>(Value::I16(v as i16)),
    {
        Ok(Value::I16(v as i16))
    }

    pub fn serialize_i16(self, v: i16) -> (r: Result<Value, ValueError>)
        ensures
            r == Ok::<Value, ValueError>(Value::I16(v)),
    {
        Ok(Value::I16(v))
    }

    pub fn serialize_i32(self, v: i32) -> (r: Result<Value, ValueError>)
        ensures
            r == Ok::<Value, ValueError>(Value::I32(v)),
    {
        Ok(Value::I32(v))
    }

    pub fn serialize_i64(self, v: i64) -> (r: Result<Value, ValueError>)
        ensures
            r == Ok::<Value, ValueError>(Value::I64(v)),
    {
        Ok(Value::I64(v))
    }

    pub fn serialize_u8(self, v: u8) -> (r: Result<Value, ValueError>)
        ensures
            r == Ok::<Value, ValueError>(Value::U8(v)),
    {
        Ok(Value::U8(v))
    }

    /// A 16-bit unsigned integer is held in 64 signed bits.
    pub fn serialize_u16(self, v: u16) -> (r: Result<Value, ValueError>)
        ensures
            r == Ok::<Value, ValueError>(Value::I64(v as i64)),
    {
        Ok(Value::I64(v as i64))
    }

    /// A 32-bit unsigned integer is held in 64 signed bits.
    pub fn serialize_u32(self, v: u32) -> (r: Result<Value, ValueError>)
        ensures
            r == Ok::<Value, ValueError>(Value::I64(v as i64)),
    {
        Ok(Value::I64(v as i64))
    }

    /// A 64-bit unsigned integer is held in 64 signed bits, bit for bit:
    /// one above the largest signed integer comes out negative.
    pub fn serialize_u64(self, v: u64) -> (r: Result<Value, ValueError>)
        ensures
            r == Ok::<Value, ValueError>(Value::I64(wrap_i64(v))),
    {
        if v <= 0x7fff_ffff_ffff_ffff {
            Ok(Value::I64(v as i64))
        } else {
            let low = v - 0x8000_0000_0000_0000;
            Ok(Value::I64((low as i64) + i64::MIN))
        }
    }

    /// A 64-bit float, given by its bit pattern.
    pub fn serialize_f64(self, bits: u64) -> (r: Result<Value, ValueError>)
        ensures
            r == Ok::<Value, ValueError>(Value::F64(bits)),
    {
        Ok(Value::F64(bits))
    }

    /// A character is the string of that one character.
    pub fn serialize_char(self, v: char) -> (r: Result<Value, ValueError>)
        ensures
            r matches Ok(Value::Str(s)) && s@ == seq![v],
    {
        let mut s = String::new();
        s.push(v);
        proof {
            assert(s@ =~= seq![v]);
        }
        Ok(Value::Str(s))
    }

    pub fn serialize_str(self, v: &str) -> (r: Result<Value, ValueError>)
        ensures
            r matches Ok(Value::Str(s)) && s@ == v@,
    {
        Ok(Value::Str(v.to_owned()))
    }

    pub fn serialize_bytes(self, v: &Vec<u8>) -> (r: Result<Value, ValueError>)
        ensures
            r matches Ok(Value::Bytes(b)) && b@ == v@,
    {
        Ok(Value::Bytes(copy_bytes(v)))
    }

    /// An absent option is the null.
    pub fn serialize_none(self) -> (r: Result<Value, ValueError>)
        ensures
            r == Ok::<Value, ValueError>(Value::Null),
    {
        Ok(Value::Null)
    }

    /// The unit is the null.
    pub fn serialize_unit(self) -> (r: Result<Value, ValueError>)
        ensures
            r == Ok::<Value, ValueError>(Value::Null),
    {
        Ok(Value::Null)
    }

    /// A unit struct is the null, whatever its name.
    pub fn serialize_unit_struct(self, _name: &str) -> (r: Result<Value, ValueError>)
        ensures
            r == Ok::<Value, ValueError>(Value::Null),
    {
        Ok(Value::Null)
    }

    /// A unit variant is the string of its name.
    pub fn serialize_unit_variant(self, _name: &str, _variant_index: u32, variant: &str) -> (r: Result<
        Value,
        ValueError,
    >)
        ensures
            r matches Ok(Value::Str(s)) && s@ == variant@,
    {
        Ok(Value::Str(variant.to_owned()))
    }

    /// Starts a list; the announced length is a hint only.
    pub fn serialize_seq(self, _len: Option<usize>) -> (r: Result<ListSerializer, ValueError>)
        ensures
            r matches Ok(l) && l@ == Seq::<Value>::empty(),
    {
        Ok(ListSerializer { vec: Vec::new() })
    }

    /// A tuple is a list.
    pub fn serialize_tuple(self, len: usize) -> (r: Result<ListSerializer, ValueError>)
        ensures
            r matches Ok(l) && l@ == Seq::<Value>::empty(),
    {
        self.serialize_seq(Some(len))
    }

    /// A tuple struct is a list, whatever its name.
    pub fn serialize_tuple_struct(self, _name: &str, len: usize) -> (r: Result<ListSerializer, ValueError>)
        ensures
            r matches Ok(l) && l@ == Seq::<Value>::empty(),
    {
        self.serialize_seq(Some(len))
    }

    /// A tuple variant is a list; the name of the variant is dropped.
    pub fn serialize_tuple_variant(
        self,
        _name: &str,
        _variant_index: u32,
        _variant: &str,
        _len: usize,
    ) -> (r: Result<ListSerializer, ValueError>)
        ensures
            r matches Ok(l) && l@ == Seq::<Value>::empty(),
    {
        self.serialize_seq(None)
    }

    /// Starts a mapping; the announced length is a hint only.
    pub fn serialize_map(self, _len: Option<usize>) -> (r: Result<MapSerializer, ValueError>)
        ensures
            r matches Ok(m) && m.entries() == Map::<Seq<char>, Value>::empty() && m.pending()
                is None,
    {
        Ok(MapSerializer { map: StrMap::new(), key: None })
    }

    /// A struct is a mapping of its fields, whatever its name.
    pub fn serialize_struct(self, _name: &str, _len: usize) -> (r: Result<MapSerializer, ValueError>)
        ensures
            r matches Ok(m) && m.entries() == Map::<Seq<char>, Value>::empty() && m.pending()
                is None,
    {
        Ok(MapSerializer { map: StrMap::new(), key: None })
    }

    /// A struct variant is a mapping of its fields; the name of the
    /// variant is dropped.
    pub fn serialize_struct_variant(
        self,
        _name: &str,
        _variant_index: u32,
        _variant: &str,
        _len: usize,
    ) -> (r: Result<MapSerializer, ValueError>)
        ensures
            r matches Ok(m) && m.entries() == Map::<Seq<char>, Value>::empty() && m.pending()
                is None,
    {
        Ok(MapSerializer { map: StrMap::new(), key: None })
    }
}

/// A list in the making.
#[derive(Debug, PartialEq)]
pub struct ListSerializer {
    vec: Vec<Value>,
}

impl View for ListSerializer {
    type V = Seq<Value>;

    closed spec fn view(&self) -> Seq<Value> {
        self.vec@
    }
}

impl ListSerializer {
    /// Adds an element at the end.
    pub fn serialize_element(&mut self, value: Value) -> (r: Result<(), ValueError>)
        ensures
            r is Ok,
            final(self)@ == old(self)@.push(value),
    {
        self.vec.push(value);
        Ok(())
    }

    /// Adds a field of a tuple struct or tuple variant at the end.
    pub fn serialize_field(&mut self, value: Value) -> (r: Result<(), ValueError>)
        ensures
            r is Ok,
            final(self)@ == old(self)@.push(value),
    {
        self.serialize_element(value)
    }

    /// The list of the elements added, in the order they were added in.
    pub fn end(self) -> (r: Result<Value, ValueError>)
        ensures
            r matches Ok(Value::List(l)) && l@ == self@,
    {
        Ok(Value::List(self.vec))
    }
}

pub open spec fn msg_key_not_string() -> Seq<char> {
    "Map key must be a string"@
}

pub open spec fn msg_missing_key() -> Seq<char> {
    "Missing key for value"@
}

/// A mapping in the making. It holds each key once: a second value for a
/// key takes the place of the first.
#[derive(Debug)]
pub struct MapSerializer {
    map: StrMap<Value>,
    key: Option<String>,
}

impl MapSerializer {
    /// The entries made so far, by key.
    pub closed spec fn entries(&self) -> Map<Seq<char>, Value> {
        self.map@
    }

    /// The key that waits for its value.
    pub closed spec fn pending(&self) -> Option<String> {
        self.key
    }

    /// Takes the key of the next entry, which has to be a string.
    pub fn serialize_key(&mut self, key: Value) -> (r: Result<(), ValueError>)
        ensures
            final(self).entries() == old(self).entries(),
            match key {
                Value::Str(s) => r is Ok && final(self).pending() == Some(s),
                _ => final(self).pending() == old(self).pending() && r is Err && r->Err_0.0@
                    == msg_key_not_string(),
            },
    {
        match key {
            Value::Str(s) => {
                self.key = Some(s);
                Ok(())
            },
            _ => Err(ValueError::custom("Map key must be a string")),
        }
    }

    /// Completes the entry whose key was taken last with `value`, which
    /// takes the place of a value that the key had. Without a key that
    /// waits, it fails and nothing changes.
    pub fn serialize_value(&mut self, value: Value) -> (r: Result<(), ValueError>)
        ensures
            final(self).pending() is None,
            match old(self).pending() {
                Some(k) => r is Ok && final(self).entries() == old(self).entries().insert(
                    k@,
                    value,
                ),
                None => final(self).entries() == old(self).entries() && r is Err && r->Err_0.0@
                    == msg_missing_key(),
            },
    {
        let mut taken: Option<String> = None;
        core::mem::swap(&mut self.key, &mut taken);
        match taken {
            Some(k) => {
                self.map.insert(k, value);
                Ok(())
            },
            None => Err(ValueError::custom("Missing key for value")),
        }
    }

    /// Gives the field `key` of a struct the value `value`, which takes
    /// the place of a value that the field had.
    pub fn serialize_field(&mut self, key: &str, value: Value) -> (r: Result<(), ValueError>)
        ensures
            r is Ok,
            final(self).pending() == old(self).pending(),
            final(self).entries() == old(self).entries().insert(key@, value),
    {
        self.map.insert(key.to_owned(), value);
        Ok(())
    }

    /// The mapping of the entries made: each key once, with the value it
    /// was given last. The order of the entries carries no meaning.
    pub fn end(self) -> (r: Result<Value, ValueError>)
        ensures
            r matches Ok(Value::Mapping(m)) && keys_distinct(m@) && map_of(m@) == self.entries(),
    {
        Ok(Value::Mapping(self.map.into_entries()))
    }
}

/// Looking a key up in a list of entries gives what the map that the list
/// stands for holds under the key: the order of the entries does not
/// matter beyond which of two entries with one key is the later.
pub proof fn lemma_mapping_get_is_map_of(entries: Seq<(String, Value)>, key: Seq<char>)
    ensures
        mapping_get(entries, key) == if map_of(entries).contains_key(key) {
            Some(map_of(entries)[key])
        } else {
            None
        },
    decreases entries.len(),
{
    if entries.len() > 0 {
        lemma_mapping_get_is_map_of(entries.drop_last(), key);
    }
}

/// What a key gives in a mapping that a serializer has built is the value
/// that the key was given last, and the null for a key that was given
/// none.
pub proof fn lemma_built_mapping_lookup(built: Value, entries: Map<Seq<char>, Value>, key: Seq<char>)
    requires
        built is Mapping,
        map_of(built->Mapping_0@) == entries,
    ensures
        built.field_spec(key) == if entries.contains_key(key) {
            entries[key]
        } else {
            Value::Null
        },
{
    lemma_mapping_get_is_map_of(built->Mapping_0@, key);
}

impl From<i64> for Value {
    fn from(v: i64) -> (r: Value) {
        Value::I64(v)
    }
}

impl vstd::std_specs::convert::FromSpecImpl<i64> for Value {
    open spec fn obeys_from_spec() -> bool {
        true
    }

    open spec fn from_spec(v: i64) -> Value {
        Value::I64(v)
    }
}

impl From<i32> for Value {
    fn from(v: i32) -> (r: Value) {
        Value::I32(v)
    }
}

impl vstd::std_specs::convert::FromSpecImpl<i32> for Value {
    open spec fn obeys_from_spec() -> bool {
        true
    }

    open spec fn from_spec(v: i32) -> Value {
        Value::I32(v)
    }
}

impl From<i16> for Value {
    fn from(v: i16) -> (r: Value) {
        Value::I16(v)
    }
}

impl vstd::std_specs::convert::FromSpecImpl<i16> for Value {
    open spec fn obeys_from_spec() -> bool {
        true
    }

    open spec fn from_spec(v: i16) -> Value {
        Value::I16(v)
    }
}

impl From<u8> for Value {
    fn from(v: u8) -> (r: Value) {
        Value::U8(v)
    }
}

impl vstd::std_specs::convert::FromSpecImpl<u8> for Value {
    open spec fn obeys_from_spec() -> bool {
        true
    }

    open spec fn from_spec(v: u8) -> Value {
        Value::U8(v)
    }
}

impl From<bool> for Value {
    fn from(v: bool) -> (r: Value) {
        Value::Bool(v)
    }
}

impl vstd::std_specs::convert::FromSpecImpl<bool> for Value {
    open spec fn obeys_from_spec() -> bool {
        true
    }

    open spec fn from_spec(v: bool) -> Value {
        Value::Bool(v)
    }
}

impl From<String> for Value {
    fn from(v: String) -> (r: Value) {
        Value::Str(v)
    }
}

impl vstd::std_specs::convert::FromSpecImpl<String> for Value {
    open spec fn obeys_from_spec() -> bool {
        true
    }

    open spec fn from_spec(v: String) -> Value {
        Value::Str(v)
    }
}

impl From<Vec<u8>> for Value {
    fn from(v: Vec<u8>) -> (r: Value) {
        Value::Bytes(v)
    }
}

impl vstd::std_specs::convert::FromSpecImpl<Vec<u8>> for Value {
    open spec fn obeys_from_spec() -> bool {
        true
    }

    open spec fn from_spec(v: Vec<u8>) -> Value {
        Value::Bytes(v)
    }
}

impl From<chrono::NaiveDate> for Value {
    fn from(v: chrono::NaiveDate) -> (r: Value) {
        Value::Date(v)
    }
}

impl vstd::std_specs::convert::FromSpecImpl<chrono::NaiveDate> for Value {
    open spec fn obeys_from_spec() -> bool {
        true
    }

    open spec fn from_spec(v: chrono::NaiveDate) -> Value {
        Value::Date(v)
    }
}

impl From<chrono::NaiveTime> for Value {
    fn from(v: chrono::NaiveTime) -> (r: Value) {
        Value::Time(v)
    }
}

impl vstd::std_specs::convert::FromSpecImpl<chrono::NaiveTime> for Value {
    open spec fn obeys_from_spec() -> bool {
        true
    }

    open spec fn from_spec(v: chrono::NaiveTime) -> Value {
        Value::Time(v)
    }
}

impl From<chrono::NaiveDateTime> for Value {
    fn from(v: chrono::NaiveDateTime) -> (r: Value) {
        Value::DateTime(v)
    }
}

impl vstd::std_specs::convert::FromSpecImpl<chrono::NaiveDateTime> for Value {
    open spec fn obeys_from_spec() -> bool {
        true
    }

    open spec fn from_spec(v: chrono::NaiveDateTime) -> Value {
        Value::DateTime(v)
    }
}

impl From<rust_decimal::Decimal> for Value {
    fn from(v: rust_decimal::Decimal) -> (r: Value) {
        Value::Decimal(v)
    }
}

impl vstd::std_specs::convert::FromSpecImpl<rust_decimal::Decimal> for Value {
    open spec fn obeys_from_spec() -> bool {
        true
    }

    open spec fn from_spec(v: rust_decimal::Decimal) -> Value {
        Value::Decimal(v)
    }
}

impl<'a> From<&'a str> for Value {
    /// The string with the characters of `v`.
    fn from(v: &'a str) -> (r: Value)
        ensures
            r is Str,
            r->Str_0@ == v@,
    {
        Value::Str(v.to_owned())
    }
}

impl<'a> vstd::std_specs::convert::FromSpecImpl<&'a str> for Value {
    /// The result is a fresh string, which no function of the slice gives:
    /// what it holds is stated on `from` itself.
    open spec fn obeys_from_spec() -> bool {
        false
    }

    open spec fn from_spec(v: &'a str) -> Value {
        arbitrary()
    }
}

impl From<u64> for Value {
    fn from(v: u64) -> (r: Value) {
        if v <= 0x7fff_ffff_ffff_ffff {
            Value::I64(v as i64)
        } else {
            let low = v - 0x8000_0000_0000_0000;
            Value::I64((low as i64) + i64::MIN)
        }
    }
}

impl vstd::std_specs::convert::FromSpecImpl<u64> for Value {
    open spec fn obeys_from_spec() -> bool {
        true
    }

    /// A 64-bit unsigned integer is held in 64 signed bits, bit for bit.
    open spec fn from_spec(v: u64) -> Value {
        Value::I64(wrap_i64(v))
    }
}

impl Clone for Value {
    /// A copy of the same kind with the same payload, element by element
    /// and entry by entry.
    fn clone(&self) -> (r: Self)
        ensures
            same_value(*self, r),
        decreases self,
    {
        match self {
            Value::Null => Value::Null,
            Value::Bool(v) => Value::Bool(*v),
            Value::I16(v) => Value::I16(*v),
            Value::I32(v) => Value::I32(*v),
            Value::I64(v) => Value::I64(*v),
            Value::U8(v) => Value::U8(*v),
            Value::F64(v) => Value::F64(*v),
            Value::Str(v) => Value::Str(v.clone()),
            Value::Bytes(v) => Value::Bytes(copy_bytes(v)),
            Value::Date(v) => Value::Date(*v),
            Value::Time(v) => Value::Time(*v),
            Value::DateTime(v) => Value::DateTime(*v),
            Value::DateTimeUtc(v) => Value::DateTimeUtc(*v),
            Value::Decimal(v) => Value::Decimal(*v),
            Value::List(items) => {
                let mut out: Vec<Value> = Vec::new();
                let mut i: usize = 0;
                while i < items.len()
                    invariant
                        i <= items@.len(),
                        *self == Value::List(*items),
                        out@.len() == i,
                        forall|j: int| 0 <= j < i ==> same_value(items@[j], #[trigger] out@[j]),
                    decreases items@.len() - i,
                {
                    proof {
                        assert(decreases_to!(self => self->List_0));
                        vstd::std_specs::vec::axiom_vec_index_decreases(*items, i as int);
                    }
                    out.push(items[i].clone());
                    i += 1;
                }
                Value::List(out)
            },
            Value::Mapping(entries) => {
                let mut out: Vec<(String, Value)> = Vec::new();
                let mut i: usize = 0;
                while i < entries.len()
                    invariant
                        i <= entries@.len(),
                        *self == Value::Mapping(*entries),
                        out@.len() == i,
                        forall|j: int|
                            0 <= j < i ==> entries@[j].0@ == (#[trigger] out@[j]).0@ && same_value(
                                entries@[j].1,
                                out@[j].1,
                            ),
                    decreases entries@.len() - i,
                {
                    proof {
                        assert(decreases_to!(self => self->Mapping_0));
                        vstd::std_specs::vec::axiom_vec_index_decreases(*entries, i as int);
                        assert(decreases_to!(entries@[i as int] => entries@[i as int].1));
                    }
                    out.push((entries[i].0.clone(), entries[i].1.clone()));
                    i += 1;
                }
                Value::Mapping(out)
            },
        }
    }
}

/// Two values of the same kind with the same payload: lists with the same
/// elements in the same order, mappings with the same entries in the same
/// order.
pub open spec fn same_value(a: Value, b: Value) -> bool
    decreases a,
{
    match (a, b) {
        (Value::Null, Value::Null) => true,
        (Value::Bool(x), Value::Bool(y)) => x == y,
        (Value::I16(x), Value::I16(y)) => x == y,
        (Value::I32(x), Value::I32(y)) => x == y,
        (Value::I64(x), Value::I64(y)) => x == y,
        (Value::U8(x), Value::U8(y)) => x == y,
        (Value::F64(x), Value::F64(y)) => x == y,
        (Value::Str(x), Value::Str(y)) => x@ == y@,
        (Value::Bytes(x), Value::Bytes(y)) => x@ == y@,
        (Value::Date(x), Value::Date(y)) => x == y,
        (Value::Time(x), Value::Time(y)) => x == y,
        (Value::DateTime(x), Value::DateTime(y)) => x == y,
        (Value::DateTimeUtc(x), Value::DateTimeUtc(y)) => x == y,
        (Value::Decimal(x), Value::Decimal(y)) => x == y,
        (Value::List(x), Value::List(y)) => x@.len() == y@.len() && forall|i: int|
            0 <= i < x@.len() ==> same_value(#[trigger] x@[i], y@[i]),
        (Value::Mapping(x), Value::Mapping(y)) => x@.len() == y@.len() && forall|i: int|
            0 <= i < x@.len() ==> (#[trigger] x@[i]).0@ == y@[i].0@ && same_value(x@[i].1, y@[i].1),
        _ => false,
    }
}

} // verus!
