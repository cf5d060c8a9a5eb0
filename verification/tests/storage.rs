use state_machine::storage::StringMap;

#[test]
fn empty_map_holds_nothing() {
    let map: StringMap<u32> = StringMap::new();
    assert_eq!(map.get(&"a".to_string()), None);
}

#[test]
fn insert_then_get() {
    let mut map: StringMap<u32> = StringMap::new();
    map.insert("a".to_string(), 1);
    map.insert("b".to_string(), 2);
    assert_eq!(map.get(&"a".to_string()), Some(&1));
    assert_eq!(map.get(&"b".to_string()), Some(&2));
    assert_eq!(map.get(&"c".to_string()), None);
}

#[test]
fn insert_replaces_the_old_value() {
    let mut map: StringMap<u32> = StringMap::new();
    map.insert("a".to_string(), 1);
    map.insert("b".to_string(), 2);
    map.insert("a".to_string(), 3);
    assert_eq!(map.get(&"a".to_string()), Some(&3));
    assert_eq!(map.get(&"b".to_string()), Some(&2));
}

#[test]
fn remove_takes_only_the_key_out() {
    let mut map: StringMap<u32> = StringMap::new();
    map.insert("a".to_string(), 1);
    map.insert("b".to_string(), 2);
    map.insert("c".to_string(), 3);
    map.remove(&"b".to_string());
    assert_eq!(map.get(&"a".to_string()), Some(&1));
    assert_eq!(map.get(&"b".to_string()), None);
    assert_eq!(map.get(&"c".to_string()), Some(&3));
    map.remove(&"missing".to_string());
    assert_eq!(map.get(&"a".to_string()), Some(&1));
    assert_eq!(map.get(&"c".to_string()), Some(&3));
}
