use pyew::string_map::StringMap;

fn keys<V>(m: &StringMap<V>) -> Vec<String> {
    m.sorted_keys()
}

#[test]
fn keeps_keys_in_ascending_order() {
    let mut m: StringMap<i32> = StringMap::new();
    assert!(m.is_empty());
    assert_eq!(m.insert("name".to_string(), 1), None);
    assert_eq!(m.insert("age".to_string(), 2), None);
    assert_eq!(m.insert("Zeta".to_string(), 3), None);
    assert_eq!(m.insert("ab".to_string(), 4), None);
    assert_eq!(m.insert("a".to_string(), 5), None);
    assert_eq!(keys(&m), vec!["Zeta", "a", "ab", "age", "name"]);
    assert_eq!(m.len(), 5);
    assert_eq!(m.key_at(0), "Zeta");
    assert_eq!(*m.value_at(4), 1);
}

#[test]
fn orders_like_a_btree_map() {
    let words = ["é", "e", "z", "", "éa", "Ω", "10", "9", "a b", "a"];
    let mut m: StringMap<usize> = StringMap::new();
    let mut reference = std::collections::BTreeMap::new();
    for (i, w) in words.iter().enumerate() {
        m.insert(w.to_string(), i);
        reference.insert(w.to_string(), i);
    }
    let expected: Vec<String> = reference.keys().cloned().collect();
    assert_eq!(keys(&m), expected);
}

#[test]
fn insert_replaces_and_returns_old_value() {
    let mut m: StringMap<&str> = StringMap::new();
    m.insert("k".to_string(), "first");
    assert_eq!(m.insert("k".to_string(), "second"), Some("first"));
    assert_eq!(m.len(), 1);
    assert_eq!(m.get("k"), Some(&"second"));
}

#[test]
fn get_finds_only_present_keys() {
    let mut m: StringMap<i64> = StringMap::new();
    m.insert("x".to_string(), 10);
    m.insert("y".to_string(), 20);
    assert_eq!(m.get("x"), Some(&10));
    assert_eq!(m.get("y"), Some(&20));
    assert_eq!(m.get("z"), None);
    assert_eq!(m.get(""), None);
}
