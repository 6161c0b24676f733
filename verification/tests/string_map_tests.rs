use pollcore::string_map::StringMap;

#[test]
fn insert_get_and_overwrite() {
    let mut m: StringMap<u64> = StringMap::new();
    assert!(!m.contains_key("a"));
    assert_eq!(m.get("a"), None);
    m.insert("a".to_string(), 1);
    assert!(m.contains_key("a"));
    assert_eq!(m.get("a"), Some(1));
    m.insert("a".to_string(), 2);
    assert_eq!(m.get("a"), Some(2));
    assert_eq!(m.keys().len(), 1);
}

#[test]
fn remove_returns_previous_value() {
    let mut m: StringMap<u32> = StringMap::new();
    m.insert("x".to_string(), 7);
    m.insert("y".to_string(), 8);
    assert_eq!(m.remove("x"), Some(7));
    assert_eq!(m.remove("x"), None);
    assert!(!m.contains_key("x"));
    assert!(m.contains_key("y"));
}

#[test]
fn keys_lists_each_key_once() {
    let mut m: StringMap<u32> = StringMap::new();
    m.insert("a".to_string(), 0);
    m.insert("b".to_string(), 1);
    m.insert("a".to_string(), 2);
    let mut keys = m.keys();
    keys.sort();
    assert_eq!(keys, vec!["a".to_string(), "b".to_string()]);
}
