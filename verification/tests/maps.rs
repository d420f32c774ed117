use subversive::safe_map::SafeMap;
use subversive::string_map::StringMap;

#[test]
fn test_basic_operations() {
    let mut map = SafeMap::new();

    // Test insert
    map.insert("key1".to_string(), 1);
    assert_eq!(map.readonly().get("key1"), Some(&1));

    // Test remove
    assert_eq!(map.remove("key1"), Some(1));
    assert_eq!(map.readonly().get("key1"), None);

    // Test update_many
    let entries = vec![("a".to_string(), 1), ("b".to_string(), 2), ("c".to_string(), 3)];
    map.update_many(entries);
    assert_eq!(map.readonly().len(), 3);
    assert_eq!(map.readonly().get("b"), Some(&2));
}

#[test]
fn test_clear() {
    let mut map = SafeMap::new();
    map.insert("key1".to_string(), 1);
    map.insert("key2".to_string(), 2);
    assert_eq!(map.readonly().len(), 2);

    map.clear();
    assert_eq!(map.readonly().len(), 0);
}

#[test]
fn test_insert_replaces_and_returns_previous() {
    let mut map: SafeMap<i32> = SafeMap::with_capacity(4);
    assert_eq!(map.insert("k".to_string(), 1), None);
    assert_eq!(map.insert("k".to_string(), 2), Some(1));
    assert_eq!(map.read().len(), 1);
    assert_eq!(map.read().get("k"), Some(&2));
    assert_eq!(map.remove("k"), Some(2));
    assert_eq!(map.remove("k"), None);
    let defaulted: SafeMap<i32> = SafeMap::default();
    assert!(defaulted.read().is_empty());
}

#[test]
fn test_update_many_last_wins() {
    let mut map = SafeMap::new();
    map.insert("a".to_string(), 0);
    map.update_many(vec![("a".to_string(), 1), ("b".to_string(), 2), ("a".to_string(), 3)]);
    assert_eq!(map.read().len(), 2);
    assert_eq!(map.read().get("a"), Some(&3));
    assert_eq!(map.read().get("b"), Some(&2));
}

#[test]
fn test_string_map_keys() {
    let mut m = StringMap::new();
    m.insert("x".to_string(), 'x');
    m.insert("y".to_string(), 'y');
    m.insert("x".to_string(), 'z');
    let mut keys = m.keys();
    keys.sort();
    assert_eq!(keys, vec!["x".to_string(), "y".to_string()]);
    assert!(m.contains_key("y"));
    assert!(!m.contains_key("w"));
    assert_eq!(m.get("x"), Some(&'z'));
}

#[test]
fn test_clone_copies_entries() {
    let mut map: SafeMap<u64> = SafeMap::new();
    map.insert("a".to_string(), 1);
    map.insert("b".to_string(), 2);
    let mut copy = map.clone();
    assert_eq!(copy.read().len(), 2);
    assert_eq!(copy.read().get("a"), Some(&1));
    assert_eq!(copy.readonly().get("b"), Some(&2));
    // The copy is independent of the original.
    copy.insert("c".to_string(), 3);
    assert_eq!(map.read().len(), 2);
    assert_eq!(copy.read().len(), 3);
}
