use lectio_scraper::keyed::Keyed;

#[test]
fn a_new_map_is_empty() {
    let map: Keyed<String> = Keyed::new();
    assert_eq!(map.len(), 0);
    assert_eq!(map.get("a"), None);
    assert!(map.entries().is_empty());
}

#[test]
fn insert_sets_or_replaces() {
    let mut map: Keyed<String> = Keyed::new();
    map.insert("a".to_string(), "1".to_string());
    map.insert("b".to_string(), "2".to_string());
    map.insert("a".to_string(), "3".to_string());
    assert_eq!(map.len(), 2);
    assert_eq!(map.get("a"), Some(&"3".to_string()));
    assert_eq!(map.get("b"), Some(&"2".to_string()));
    assert_eq!(map.get("c"), None);
    assert_eq!(map.get(""), None);
    assert_eq!(
        map.entries(),
        &vec![("a".to_string(), "3".to_string()), ("b".to_string(), "2".to_string())]
    );
}
