use aegis_gateway::strmap::{KeyedMap, StringMap};

#[test]
fn string_map_insert_replaces_and_clone_copies() {
    let mut m = StringMap::new();
    m.insert("a".into(), "1".into());
    m.insert("b".into(), "2".into());
    m.insert("a".into(), "3".into());
    assert_eq!(m.len(), 2);
    assert_eq!(m.get("a").map(String::as_str), Some("3"));
    let c = m.clone();
    m.insert("c".into(), "4".into());
    assert_eq!(c.len(), 2);
    assert_eq!(c.get("b").map(String::as_str), Some("2"));
    assert!(c.get("c").is_none());
    let keys: Vec<&str> = m.entries().iter().map(|(k, _)| k.as_str()).collect();
    assert_eq!(keys, vec!["a", "b", "c"]);
}

#[test]
fn keyed_map_read_gives_back_write() {
    let mut m: KeyedMap<Vec<u8>> = KeyedMap::new();
    assert!(m.get("x").is_none());
    m.insert("x".into(), vec![1]);
    m.insert("y".into(), vec![2]);
    m.insert("x".into(), vec![3]);
    assert_eq!(m.len(), 2);
    assert_eq!(m.get("x"), Some(&vec![3]));
    assert_eq!(m.get("y"), Some(&vec![2]));
    m.clear();
    assert_eq!(m.len(), 0);
    assert!(m.get("y").is_none());
}
