use flexible_database::NameMap;

#[test]
fn a_new_map_is_empty() {
    let map: NameMap<i64> = NameMap::new();
    assert_eq!(map.len(), 0);
    assert!(map.is_empty());
    assert_eq!(map.get("a"), None);
    assert!(!map.contains_key("a"));
    assert_eq!(map.index_of("a"), None);
    assert_eq!(map.into_entries(), vec![]);
}

#[test]
fn entries_keep_the_order_in_which_they_came() {
    let mut map = NameMap::new();
    map.insert("b".to_string(), 2);
    map.insert("a".to_string(), 1);
    map.insert("c".to_string(), 3);
    assert_eq!(map.len(), 3);
    assert!(!map.is_empty());
    assert_eq!(map.name_at(0), "b");
    assert_eq!(map.name_at(1), "a");
    assert_eq!(map.name_at(2), "c");
    assert_eq!(*map.value_at(0), 2);
    assert_eq!(*map.value_at(1), 1);
    assert_eq!(*map.value_at(2), 3);
    assert_eq!(map.index_of("a"), Some(1));
    assert_eq!(map.index_of("c"), Some(2));
    assert_eq!(
        map.into_entries(),
        vec![("b".to_string(), 2), ("a".to_string(), 1), ("c".to_string(), 3)]
    );
}

#[test]
fn a_name_is_found_with_its_value() {
    let mut map = NameMap::new();
    map.insert("a".to_string(), 1);
    map.insert("b".to_string(), 2);
    assert_eq!(map.get("a"), Some(&1));
    assert_eq!(map.get("b"), Some(&2));
    assert_eq!(map.get("c"), None);
    assert_eq!(map.get("A"), None);
    assert_eq!(map.get(""), None);
    assert!(map.contains_key("b"));
    assert!(!map.contains_key("ab"));
}

#[test]
fn binding_a_name_again_replaces_the_value_in_place() {
    let mut map = NameMap::new();
    map.insert("a".to_string(), 1);
    map.insert("b".to_string(), 2);
    map.insert("a".to_string(), 10);
    assert_eq!(map.len(), 2);
    assert_eq!(map.get("a"), Some(&10));
    assert_eq!(map.into_entries(), vec![("a".to_string(), 10), ("b".to_string(), 2)]);
}

#[test]
fn binding_twice_is_the_same_as_once() {
    let mut once = NameMap::new();
    once.insert("a".to_string(), 1);
    let mut twice = NameMap::new();
    twice.insert("a".to_string(), 1);
    twice.insert("a".to_string(), 1);
    assert_eq!(once, twice);
}

#[test]
fn a_clone_has_the_same_entries() {
    let mut map = NameMap::new();
    map.insert("a".to_string(), "x".to_string());
    map.insert("b".to_string(), "y".to_string());
    let copy = map.clone();
    assert_eq!(copy, map);
    assert_eq!(copy.get("b"), Some(&"y".to_string()));
}

#[test]
fn the_empty_name_is_a_name_like_any_other() {
    let mut map = NameMap::new();
    map.insert("".to_string(), 5);
    assert_eq!(map.get(""), Some(&5));
    assert_eq!(map.len(), 1);
}
