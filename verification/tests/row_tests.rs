use rivus::error::DbError;
use rivus::orm::record::{Cell, Record};
use rivus::orm::row_de::{
    classify_type, decode_any, decode_bool, decode_f64, decode_hinted, decode_i64, decode_option,
    decode_row, decode_string, require_field, ColumnValue, Hint, RowDeserializer, RowReader,
    TypeFamily,
};

fn no(what: &str) -> String {
    format!("no {}", what)
}

/// A cell from which nothing can be extracted.
fn bare(name: &str, column_type: &str) -> Cell {
    Cell {
        name: name.to_string(),
        column_type_name: column_type.to_string(),
        null: false,
        as_bool: Err(no("bool")),
        as_i64: Err(no("i64")),
        as_f64: Err(no("f64")),
        as_string: Err(no("string")),
        as_json: Err(no("json")),
    }
}

fn row(cells: Vec<Cell>) -> Record {
    Record { cells }
}

fn message(r: Result<ColumnValue, DbError>) -> String {
    match r {
        Err(DbError::Deserialization(m)) => m,
        other => panic!("deserialization error expected, got {:?}", other),
    }
}

#[test]
fn type_names_fall_into_families() {
    for n in ["TINYINT", "SMALLINT", "INT", "INTEGER", "BIGINT", "INT2", "INT4", "INT8"] {
        assert_eq!(classify_type(n), TypeFamily::Integer, "{}", n);
    }
    for n in ["FLOAT", "DOUBLE", "REAL", "FLOAT4", "FLOAT8"] {
        assert_eq!(classify_type(n), TypeFamily::Float, "{}", n);
    }
    for n in ["BOOLEAN", "BOOL"] {
        assert_eq!(classify_type(n), TypeFamily::Boolean, "{}", n);
    }
    for n in ["VARCHAR", "TEXT", "CHAR", "NAME", "String"] {
        assert_eq!(classify_type(n), TypeFamily::Text, "{}", n);
    }
    for n in ["JSON", "JSONB"] {
        assert_eq!(classify_type(n), TypeFamily::Json, "{}", n);
    }
    for n in ["DATETIME", "TIMESTAMP", "TIMESTAMPTZ"] {
        assert_eq!(classify_type(n), TypeFamily::Timestamp, "{}", n);
    }
    for n in ["", "int", "NUMERIC", "DATE", "UUID", "STRING", "INT ", "BLOB"] {
        assert_eq!(classify_type(n), TypeFamily::Unknown, "{}", n);
    }
}

#[test]
fn null_cell_decodes_to_unit_whatever_its_type() {
    for t in ["INT", "FLOAT", "BOOL", "TEXT", "JSON", "TIMESTAMP", "BLOB", "NUMERIC"] {
        let mut c = bare("c", t);
        c.null = true;
        // even where every extraction would succeed
        c.as_i64 = Ok(1);
        c.as_string = Ok("1".to_string());
        let r = row(vec![c]);
        assert_eq!(decode_any(&r, 0).unwrap(), ColumnValue::Unit, "{}", t);
        assert_eq!(decode_option(&r, 0, Hint::Any).unwrap(), None, "{}", t);
        assert_eq!(decode_option(&r, 0, Hint::I64).unwrap(), None, "{}", t);
    }
}

#[test]
fn declared_integer_decodes_to_i64() {
    let mut c = bare("id", "BIGINT");
    c.as_i64 = Ok(9_000_000_000);
    c.as_string = Ok("9000000000".to_string());
    let r = row(vec![c]);
    assert_eq!(decode_any(&r, 0).unwrap(), ColumnValue::I64(9_000_000_000));
    assert_eq!(decode_option(&r, 0, Hint::Any).unwrap(), Some(ColumnValue::I64(9_000_000_000)));
}

#[test]
fn each_family_uses_its_accessor() {
    let mut c = bare("f", "DOUBLE");
    c.as_f64 = Ok(1.5f64.to_bits());
    assert_eq!(decode_any(&row(vec![c]), 0).unwrap(), ColumnValue::F64(1.5f64.to_bits()));

    let mut c = bare("b", "BOOLEAN");
    c.as_bool = Ok(true);
    assert_eq!(decode_any(&row(vec![c]), 0).unwrap(), ColumnValue::Bool(true));

    let mut c = bare("s", "VARCHAR");
    c.as_string = Ok("tom".to_string());
    c.as_i64 = Ok(3);
    assert_eq!(decode_any(&row(vec![c]), 0).unwrap(), ColumnValue::Str("tom".to_string()));

    let mut c = bare("j", "JSONB");
    c.as_json = Ok("{\"a\":[1,2]}".to_string());
    c.as_string = Ok("text".to_string());
    assert_eq!(decode_any(&row(vec![c]), 0).unwrap(), ColumnValue::Json("{\"a\":[1,2]}".to_string()));

    // a timestamp is handed on as a string
    let mut c = bare("t", "TIMESTAMP");
    c.as_string = Ok("2024-02-29 13:05:59".to_string());
    assert_eq!(decode_any(&row(vec![c]), 0).unwrap(), ColumnValue::Str("2024-02-29 13:05:59".to_string()));

    // a type name outside the six families, such as a blob's, falls back
    let mut c = bare("x", "BLOB");
    c.as_string = Ok("bytes".to_string());
    c.as_i64 = Ok(5);
    assert_eq!(decode_any(&row(vec![c]), 0).unwrap(), ColumnValue::Str("bytes".to_string()));
    let mut c = bare("x", "BLOB");
    c.as_i64 = Ok(5);
    assert_eq!(decode_any(&row(vec![c]), 0).unwrap(), ColumnValue::I64(5));
    assert_eq!(decode_any(&row(vec![bare("x", "BLOB")]), 0).unwrap(), ColumnValue::Unit);
}

#[test]
fn a_declared_type_whose_accessor_fails_is_an_error() {
    assert_eq!(message(decode_any(&row(vec![bare("i", "INT")]), 0)), "no i64");
    assert_eq!(message(decode_any(&row(vec![bare("f", "REAL")]), 0)), "no f64");
    assert_eq!(message(decode_any(&row(vec![bare("b", "BOOL")]), 0)), "no bool");
    assert_eq!(message(decode_any(&row(vec![bare("s", "TEXT")]), 0)), "no string");
    assert_eq!(message(decode_any(&row(vec![bare("j", "JSON")]), 0)), "no json");
    assert_eq!(message(decode_any(&row(vec![bare("t", "DATETIME")]), 0)), "no string");
    // an integer column is not rescued by a string
    let mut c = bare("i", "INT");
    c.as_string = Ok("1".to_string());
    assert_eq!(message(decode_any(&row(vec![c]), 0)), "no i64");
}

#[test]
fn unrecognized_type_falls_back_string_then_integer_then_float() {
    let mut c = bare("u", "NUMERIC");
    c.as_string = Ok("1.5".to_string());
    c.as_i64 = Ok(1);
    c.as_f64 = Ok(1.5f64.to_bits());
    assert_eq!(decode_any(&row(vec![c]), 0).unwrap(), ColumnValue::Str("1.5".to_string()));

    let mut c = bare("u", "NUMERIC");
    c.as_i64 = Ok(1);
    c.as_f64 = Ok(1.5f64.to_bits());
    assert_eq!(decode_any(&row(vec![c]), 0).unwrap(), ColumnValue::I64(1));

    let mut c = bare("u", "NUMERIC");
    c.as_f64 = Ok(1.5f64.to_bits());
    assert_eq!(decode_any(&row(vec![c]), 0).unwrap(), ColumnValue::F64(1.5f64.to_bits()));

    // when all three fail the cell counts as absent, not as an error
    assert_eq!(decode_any(&row(vec![bare("u", "NUMERIC")]), 0).unwrap(), ColumnValue::Unit);
    // a boolean or a JSON value is not tried
    let mut c = bare("u", "NUMERIC");
    c.as_bool = Ok(true);
    c.as_json = Ok("1".to_string());
    assert_eq!(decode_any(&row(vec![c]), 0).unwrap(), ColumnValue::Unit);
}

#[test]
fn a_hint_is_tried_first_and_falls_back_to_the_type() {
    let mut c = bare("c", "VARCHAR");
    c.as_string = Ok("7".to_string());
    c.as_i64 = Ok(7);
    c.as_bool = Ok(true);
    c.as_f64 = Ok(7f64.to_bits());
    let r = row(vec![c]);
    assert_eq!(decode_i64(&r, 0).unwrap(), ColumnValue::I64(7));
    assert_eq!(decode_bool(&r, 0).unwrap(), ColumnValue::Bool(true));
    assert_eq!(decode_f64(&r, 0).unwrap(), ColumnValue::F64(7f64.to_bits()));
    assert_eq!(decode_string(&r, 0).unwrap(), ColumnValue::Str("7".to_string()));
    assert_eq!(decode_hinted(&r, 0, Hint::Any).unwrap(), ColumnValue::Str("7".to_string()));
    assert_eq!(decode_hinted(&r, 0, Hint::I64).unwrap(), ColumnValue::I64(7));
    assert_eq!(decode_hinted(&r, 0, Hint::Bool).unwrap(), ColumnValue::Bool(true));
    assert_eq!(decode_hinted(&r, 0, Hint::F64).unwrap(), ColumnValue::F64(7f64.to_bits()));
    assert_eq!(decode_hinted(&r, 0, Hint::Str).unwrap(), ColumnValue::Str("7".to_string()));
    assert_eq!(decode_option(&r, 0, Hint::I64).unwrap(), Some(ColumnValue::I64(7)));

    // the hinted accessor fails: the type name decides
    let mut c = bare("c", "VARCHAR");
    c.as_string = Ok("seven".to_string());
    let r = row(vec![c]);
    assert_eq!(decode_i64(&r, 0).unwrap(), ColumnValue::Str("seven".to_string()));
    assert_eq!(decode_bool(&r, 0).unwrap(), ColumnValue::Str("seven".to_string()));
    assert_eq!(decode_f64(&r, 0).unwrap(), ColumnValue::Str("seven".to_string()));

    let r = row(vec![bare("c", "INT")]);
    assert_eq!(message(decode_string(&r, 0)), "no i64");
    match decode_option(&r, 0, Hint::Str) {
        Err(DbError::Deserialization(m)) => assert_eq!(m, "no i64"),
        other => panic!("deserialization error expected, got {:?}", other),
    }
}

#[test]
fn record_answers_as_a_row_reader() {
    let mut a = bare("a", "INT");
    a.as_i64 = Ok(1);
    let mut b = bare("b", "TEXT");
    b.null = true;
    let r = row(vec![a, b]);
    assert_eq!(r.column_count(), 2);
    assert_eq!(r.column_name(0), "a");
    assert_eq!(r.column_name(1), "b");
    assert_eq!(r.column_type_name(0), "INT");
    assert!(!r.is_null(0));
    assert!(r.is_null(1));
    assert_eq!(r.get_i64(0), Ok(1));
    assert_eq!(r.get_bool(0), Err("no bool".to_string()));
    assert_eq!(r.get_f64(0), Err("no f64".to_string()));
    assert_eq!(r.get_string(0), Err("no string".to_string()));
    assert_eq!(r.get_json(0), Err("no json".to_string()));
}

#[test]
fn row_is_a_sequence_of_named_fields() {
    let mut id = bare("id", "INT");
    id.as_i64 = Ok(7);
    let mut name = bare("name", "TEXT");
    name.as_string = Ok("tom".to_string());
    let mut age = bare("age", "INT");
    age.null = true;
    let r = row(vec![id, name, age]);

    let fields = decode_row(&r).unwrap();
    assert_eq!(
        fields,
        vec![
            ("id".to_string(), ColumnValue::I64(7)),
            ("name".to_string(), ColumnValue::Str("tom".to_string())),
            ("age".to_string(), ColumnValue::Unit),
        ]
    );

    let mut de = RowDeserializer::new(&r);
    assert_eq!(de.next_key(), Some("id".to_string()));
    assert_eq!(de.next_key(), Some("id".to_string()));
    assert_eq!(de.next_value(Hint::Any).unwrap(), ColumnValue::I64(7));
    assert_eq!(de.next_key(), Some("name".to_string()));
    assert_eq!(de.next_value(Hint::Str).unwrap(), ColumnValue::Str("tom".to_string()));
    assert_eq!(de.next_key(), Some("age".to_string()));
    assert_eq!(de.next_value(Hint::I64).unwrap(), ColumnValue::Unit);
    assert_eq!(de.next_key(), None);

    assert_eq!(decode_row(&row(vec![])).unwrap(), vec![]);
}

#[test]
fn the_first_column_that_fails_fails_the_row() {
    let mut ok = bare("a", "INT");
    ok.as_i64 = Ok(1);
    let bad = bare("b", "BOOL");
    let worse = bare("c", "JSON");
    match decode_row(&row(vec![ok, bad, worse])) {
        Err(DbError::Deserialization(m)) => assert_eq!(m, "no bool"),
        other => panic!("deserialization error expected, got {:?}", other),
    }
}

#[test]
fn a_required_field_that_is_missing_is_an_error() {
    let fields = vec![
        ("id".to_string(), ColumnValue::I64(7)),
        ("name".to_string(), ColumnValue::Unit),
        ("id".to_string(), ColumnValue::I64(8)),
    ];
    assert_eq!(require_field(&fields, "id").unwrap(), &ColumnValue::I64(7));
    assert_eq!(require_field(&fields, "name").unwrap(), &ColumnValue::Unit);
    match require_field(&fields, "age") {
        Err(DbError::Deserialization(m)) => assert_eq!(m, "missing field `age`"),
        other => panic!("deserialization error expected, got {:?}", other),
    }
    assert!(require_field(&vec![], "id").is_err());
}

#[test]
fn the_deserializer_tells_what_comes_next() {
    let mut a = bare("a", "INT");
    a.null = true;
    let mut b = bare("b", "INT");
    b.as_i64 = Ok(2);
    let r = row(vec![a, b]);
    let mut de = RowDeserializer::new(&r);
    assert!(de.has_next());
    assert!(de.next_is_null());
    assert_eq!(de.next_value(Hint::Any).unwrap(), ColumnValue::Unit);
    assert!(de.has_next());
    assert!(!de.next_is_null());
    assert_eq!(de.next_value(Hint::Any).unwrap(), ColumnValue::I64(2));
    assert!(!de.has_next());
}

#[test]
fn a_cell_that_is_a_timestamp_is_written_out_as_a_string() {
    let at = chrono::NaiveDate::from_ymd_opt(2024, 2, 29).unwrap().and_hms_opt(13, 5, 59).unwrap();
    // textual already: taken as it is
    assert_eq!(
        rivus::orm::row_de::string_of_cell(Some("x".to_string()), Some(at), Some(at), "c"),
        Ok("x".to_string())
    );
    // a naive timestamp before a zoned one
    assert_eq!(
        rivus::orm::row_de::string_of_cell(None, Some(at), Some(at), "c"),
        Ok("2024-02-29 13:05:59".to_string())
    );
    assert_eq!(
        rivus::orm::row_de::string_of_cell(None, None, Some(at), "c"),
        Ok("2024-02-29T13:05:59+00:00".to_string())
    );
    assert_eq!(
        rivus::orm::row_de::string_of_cell(None, None, None, "created_at"),
        Err("Cannot convert column created_at to string".to_string())
    );
}
