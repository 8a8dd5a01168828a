use rivus::sql_tpl::value::{
    value_to_param, ListSerializer, MapSerializer, SqlParam, Value, ValueError, ValueSerializer,
};

fn date() -> chrono::NaiveDate {
    chrono::NaiveDate::from_ymd_opt(2024, 2, 29).unwrap()
}

fn time() -> chrono::NaiveTime {
    chrono::NaiveTime::from_hms_opt(13, 5, 59).unwrap()
}

#[test]
fn value_to_param_keeps_kind_and_payload() {
    let dt = date().and_time(time());
    let dec = rust_decimal::Decimal::new(12345, 2);
    assert_eq!(value_to_param(&Value::Null), SqlParam::Null);
    assert_eq!(value_to_param(&Value::Bool(true)), SqlParam::Bool(true));
    assert_eq!(value_to_param(&Value::I16(-7)), SqlParam::I16(-7));
    assert_eq!(value_to_param(&Value::I32(i32::MIN)), SqlParam::I32(i32::MIN));
    assert_eq!(value_to_param(&Value::I64(i64::MAX)), SqlParam::I64(i64::MAX));
    assert_eq!(value_to_param(&Value::U8(255)), SqlParam::U8(255));
    assert_eq!(value_to_param(&Value::F64(1.5f64.to_bits())), SqlParam::F64(1.5f64.to_bits()));
    assert_eq!(value_to_param(&Value::Str("tom".to_string())), SqlParam::String("tom".to_string()));
    assert_eq!(value_to_param(&Value::Bytes(vec![0, 1, 255])), SqlParam::Bytes(vec![0, 1, 255]));
    assert_eq!(value_to_param(&Value::Date(date())), SqlParam::Date(date()));
    assert_eq!(value_to_param(&Value::Time(time())), SqlParam::Time(time()));
    assert_eq!(value_to_param(&Value::DateTime(dt)), SqlParam::DateTime(dt));
    assert_eq!(value_to_param(&Value::DateTimeUtc(dt)), SqlParam::DateTimeUtc(dt));
    assert_eq!(value_to_param(&Value::Decimal(dec)), SqlParam::Decimal(dec));
}

#[test]
fn float_travels_as_its_bits() {
    let v = Value::F64((-0.25f64).to_bits());
    match value_to_param(&v) {
        SqlParam::F64(bits) => assert_eq!(f64::from_bits(bits), -0.25),
        _ => panic!("float expected"),
    }
}

#[test]
fn scalars_are_all_but_lists_and_mappings() {
    assert!(Value::Null.is_scalar());
    assert!(Value::Str(String::new()).is_scalar());
    assert!(Value::Bytes(vec![]).is_scalar());
    assert!(!Value::List(vec![]).is_scalar());
    assert!(!Value::Mapping(vec![]).is_scalar());
    assert!(Value::Null.is_null());
    assert!(!Value::Bool(false).is_null());
}

#[test]
fn field_gives_the_last_entry_of_a_key() {
    let m = Value::Mapping(vec![
        ("a".to_string(), Value::I64(1)),
        ("b".to_string(), Value::I64(2)),
        ("a".to_string(), Value::I64(3)),
    ]);
    assert_eq!(m.field("a"), &Value::I64(3));
    assert_eq!(m.field("b"), &Value::I64(2));
    assert_eq!(m.field("c"), &Value::Null);
    assert_eq!(Value::List(vec![Value::I64(1)]).field("a"), &Value::Null);
    assert_eq!(Value::Str("a".to_string()).field("a"), &Value::Null);
}

#[test]
fn serializer_maps_the_primitives() {
    let s = ValueSerializer;
    assert_eq!(s.serialize_bool(true), Ok(Value::Bool(true)));
    assert_eq!(s.serialize_i8(-128), Ok(Value::I16(-128)));
    assert_eq!(s.serialize_i16(5), Ok(Value::I16(5)));
    assert_eq!(s.serialize_i32(5), Ok(Value::I32(5)));
    assert_eq!(s.serialize_i64(5), Ok(Value::I64(5)));
    assert_eq!(s.serialize_u8(5), Ok(Value::U8(5)));
    assert_eq!(s.serialize_u16(65535), Ok(Value::I64(65535)));
    assert_eq!(s.serialize_u32(u32::MAX), Ok(Value::I64(4294967295)));
    assert_eq!(s.serialize_u64(7), Ok(Value::I64(7)));
    assert_eq!(s.serialize_u64(i64::MAX as u64), Ok(Value::I64(i64::MAX)));
    assert_eq!(s.serialize_u64(i64::MAX as u64 + 1), Ok(Value::I64(i64::MIN)));
    assert_eq!(s.serialize_u64(u64::MAX), Ok(Value::I64(-1)));
    assert_eq!(s.serialize_f64(2.5f64.to_bits()), Ok(Value::F64(2.5f64.to_bits())));
    assert_eq!(s.serialize_char('x'), Ok(Value::Str("x".to_string())));
    assert_eq!(s.serialize_str("abc"), Ok(Value::Str("abc".to_string())));
    assert_eq!(s.serialize_bytes(&vec![1, 2]), Ok(Value::Bytes(vec![1, 2])));
    assert_eq!(s.serialize_none(), Ok(Value::Null));
    assert_eq!(s.serialize_unit(), Ok(Value::Null));
    assert_eq!(s.serialize_unit_struct("Marker"), Ok(Value::Null));
    assert_eq!(s.serialize_unit_variant("Color", 1, "Green"), Ok(Value::Str("Green".to_string())));
}

#[test]
fn serializer_builds_lists() {
    let mut l: ListSerializer = ValueSerializer.serialize_seq(Some(2)).unwrap();
    l.serialize_element(Value::I64(1)).unwrap();
    l.serialize_element(Value::I64(2)).unwrap();
    assert_eq!(l.end(), Ok(Value::List(vec![Value::I64(1), Value::I64(2)])));

    let mut t = ValueSerializer.serialize_tuple(1).unwrap();
    t.serialize_element(Value::Null).unwrap();
    assert_eq!(t.end(), Ok(Value::List(vec![Value::Null])));

    let mut t = ValueSerializer.serialize_tuple_struct("P", 1).unwrap();
    t.serialize_field(Value::Bool(true)).unwrap();
    assert_eq!(t.end(), Ok(Value::List(vec![Value::Bool(true)])));

    let t = ValueSerializer.serialize_tuple_variant("E", 0, "V", 0).unwrap();
    assert_eq!(t.end(), Ok(Value::List(vec![])));
}

#[test]
fn serializer_builds_mappings() {
    let mut m: MapSerializer = ValueSerializer.serialize_struct("Param", 2).unwrap();
    m.serialize_field("id", Value::I64(42)).unwrap();
    m.serialize_field("name", Value::Null).unwrap();
    let v = m.end().unwrap();
    assert_eq!(v.field("id"), &Value::I64(42));
    assert_eq!(v.field("name"), &Value::Null);
    assert_eq!(
        v,
        Value::Mapping(vec![("id".to_string(), Value::I64(42)), ("name".to_string(), Value::Null)])
    );

    let mut m = ValueSerializer.serialize_map(None).unwrap();
    m.serialize_key(Value::Str("k".to_string())).unwrap();
    m.serialize_value(Value::I64(1)).unwrap();
    m.serialize_key(Value::Str("j".to_string())).unwrap();
    m.serialize_value(Value::I64(5)).unwrap();
    m.serialize_key(Value::Str("k".to_string())).unwrap();
    m.serialize_value(Value::I64(2)).unwrap();
    m.serialize_field("j", Value::I64(6)).unwrap();
    let v = m.end().unwrap();
    // a second value for a key takes the place of the first
    assert_eq!(v.field("k"), &Value::I64(2));
    assert_eq!(v.field("j"), &Value::I64(6));
    match &v {
        Value::Mapping(entries) => {
            assert_eq!(entries.len(), 2);
            assert_eq!(entries.iter().filter(|(k, _)| k == "k").count(), 1);
            assert_eq!(entries.iter().filter(|(k, _)| k == "j").count(), 1);
        }
        other => panic!("mapping expected, got {:?}", other),
    }

    let m = ValueSerializer.serialize_struct_variant("E", 0, "V", 0).unwrap();
    assert_eq!(m.end(), Ok(Value::Mapping(vec![])));
}

#[test]
fn map_key_must_be_a_string() {
    let mut m = ValueSerializer.serialize_map(Some(1)).unwrap();
    let e = m.serialize_key(Value::I64(1)).unwrap_err();
    assert_eq!(e, ValueError("Map key must be a string".to_string()));
    assert_eq!(e.to_string(), "Map key must be a string");
    // the failed key does not wait for a value
    let e = m.serialize_value(Value::I64(1)).unwrap_err();
    assert_eq!(e, ValueError("Missing key for value".to_string()));
    assert_eq!(m.end(), Ok(Value::Mapping(vec![])));
    assert_eq!(ValueError::custom("x"), ValueError("x".to_string()));
}

#[test]
fn a_key_serves_one_value() {
    let mut m = ValueSerializer.serialize_map(None).unwrap();
    m.serialize_key(Value::Str("k".to_string())).unwrap();
    m.serialize_value(Value::I64(1)).unwrap();
    assert!(m.serialize_value(Value::I64(2)).is_err());
    assert_eq!(m.end(), Ok(Value::Mapping(vec![("k".to_string(), Value::I64(1))])));
}

#[test]
fn values_come_from_plain_data() {
    assert_eq!(Value::from(5i64), Value::I64(5));
    assert_eq!(Value::from(5i32), Value::I32(5));
    assert_eq!(Value::from(5i16), Value::I16(5));
    assert_eq!(Value::from(5u8), Value::U8(5));
    assert_eq!(Value::from(true), Value::Bool(true));
    assert_eq!(Value::from("s".to_string()), Value::Str("s".to_string()));
    assert_eq!(Value::from(vec![1u8, 2]), Value::Bytes(vec![1, 2]));
    assert_eq!(Value::from(date()), Value::Date(date()));
    assert_eq!(Value::from(time()), Value::Time(time()));
    assert_eq!(Value::from(date().and_time(time())), Value::DateTime(date().and_time(time())));
    assert_eq!(
        Value::from(rust_decimal::Decimal::new(15, 1)),
        Value::Decimal(rust_decimal::Decimal::new(15, 1))
    );
    assert_eq!(Value::from("s"), Value::Str("s".to_string()));
    assert_eq!(Value::from(9u64), Value::I64(9));
    assert_eq!(Value::from(u64::MAX), Value::I64(-1));
    let v: Value = 3i64.into();
    assert_eq!(v, Value::I64(3));
}

#[test]
fn clone_copies_deeply() {
    let v = Value::Mapping(vec![
        ("ids".to_string(), Value::List(vec![Value::I64(1), Value::Str("x".to_string())])),
        ("when".to_string(), Value::Date(date())),
        ("raw".to_string(), Value::Bytes(vec![9, 8])),
        (
            "inner".to_string(),
            Value::Mapping(vec![("f".to_string(), Value::F64(0.5f64.to_bits()))]),
        ),
    ]);
    let c = v.clone();
    assert_eq!(c, v);
    assert_eq!(Value::Null.clone(), Value::Null);
    assert_eq!(Value::List(vec![]).clone(), Value::List(vec![]));
}
