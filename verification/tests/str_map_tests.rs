use rivus::str_map::StrMap;

#[test]
fn a_map_holds_one_value_per_key() {
    let mut m: StrMap<i32> = StrMap::new();
    assert_eq!(m.len(), 0);
    assert_eq!(m.get("a"), None);
    assert!(!m.contains_key("a"));
    assert_eq!(m.insert("a".to_string(), 1), None);
    assert_eq!(m.insert("b".to_string(), 2), None);
    assert_eq!(m.len(), 2);
    assert_eq!(m.get("a"), Some(&1));
    assert_eq!(m.get("b"), Some(&2));
    // a second value takes the place of the first, which is handed back
    assert_eq!(m.insert("a".to_string(), 3), Some(1));
    assert_eq!(m.len(), 2);
    assert_eq!(m.get("a"), Some(&3));
    assert_eq!(m.get("b"), Some(&2));
    assert!(m.contains_key("b"));
    assert_eq!(m.remove("b"), Some(2));
    assert_eq!(m.remove("b"), None);
    assert_eq!(m.len(), 1);
    assert_eq!(m.get("b"), None);
    assert_eq!(m.get("a"), Some(&3));
    // keys are compared by their characters
    assert_eq!(m.get("A"), None);
    assert_eq!(m.get(""), None);
    assert_eq!(m.insert(String::new(), 0), None);
    assert_eq!(m.get(""), Some(&0));
}

#[test]
fn entries_come_out_once_each() {
    let mut m: StrMap<i32> = StrMap::new();
    m.insert("x".to_string(), 1);
    m.insert("y".to_string(), 2);
    m.insert("x".to_string(), 3);
    m.insert("z".to_string(), 4);
    m.remove("y");
    let mut es = m.into_entries();
    es.sort();
    assert_eq!(es, vec![("x".to_string(), 3), ("z".to_string(), 4)]);
}
