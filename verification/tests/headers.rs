use rocket_sentry::headers::HeaderMap;

#[test]
fn header_map_new_is_empty() {
    let map = HeaderMap::new();

    assert!(map.is_empty());
    assert_eq!(map.len(), 0);
    assert_eq!(map.get("host"), None);
    assert!(map.entries().is_empty());
}

#[test]
fn header_map_insert_adds_a_name() {
    let mut map = HeaderMap::new();

    map.insert("host".to_string(), "example.org".to_string());

    assert_eq!(map.len(), 1);
    assert_eq!(map.get("host"), Some(&"example.org".to_string()));
    assert_eq!(map.get("accept"), None);
}

#[test]
fn header_map_insert_replaces_the_value_of_a_name() {
    let mut map = HeaderMap::new();
    map.insert("host".to_string(), "example.org".to_string());
    map.insert("accept".to_string(), "*/*".to_string());

    map.insert("host".to_string(), "example.com".to_string());

    assert_eq!(map.len(), 2);
    assert_eq!(map.get("host"), Some(&"example.com".to_string()));
    assert_eq!(map.get("accept"), Some(&"*/*".to_string()));
    assert_eq!(
        map.entries(),
        &vec![
            ("host".to_string(), "example.com".to_string()),
            ("accept".to_string(), "*/*".to_string()),
        ]
    );
}

#[test]
fn header_map_clone_holds_the_same_pairs() {
    let mut map = HeaderMap::new();
    map.insert("a".to_string(), "1".to_string());
    map.insert("b".to_string(), "2".to_string());

    let copy = map.clone();
    map.insert("a".to_string(), "3".to_string());

    assert_eq!(copy.len(), 2);
    assert_eq!(copy.get("a"), Some(&"1".to_string()));
    assert_eq!(copy.get("b"), Some(&"2".to_string()));
    assert_eq!(map.get("a"), Some(&"3".to_string()));
}
