use cargo_runner::collections::{Duplicate, StringMap, StringSet};

#[test]
fn map_insert_get_remove() {
    let mut map: StringMap<String> = StringMap::new();
    assert!(map.is_empty());
    assert_eq!(map.insert("A".to_string(), "1".to_string()), None);
    assert_eq!(map.insert("B".to_string(), "2".to_string()), None);
    assert_eq!(map.insert("A".to_string(), "3".to_string()), Some("1".to_string()));
    assert_eq!(map.len(), 2);
    assert!(map.contains_key("A"));
    assert!(!map.contains_key("C"));
    assert_eq!(map.get("A"), Some(&"3".to_string()));
    assert_eq!(map.get("C"), None);
    assert_eq!(map.key_list(), vec!["A", "B"]);
    assert_eq!(map.key_at(1), "B");
    assert_eq!(map.value_at(0), "3");
    assert_eq!(map.remove("A"), Some("3".to_string()));
    assert_eq!(map.remove("A"), None);
    assert_eq!(map.key_list(), vec!["B"]);
    assert!(!map.is_empty());
}

#[test]
fn map_extend_prefers_the_incoming_value() {
    let mut base: StringMap<String> = StringMap::new();
    base.insert("A".to_string(), "1".to_string());
    base.insert("B".to_string(), "2".to_string());
    let mut incoming: StringMap<String> = StringMap::new();
    incoming.insert("B".to_string(), "20".to_string());
    incoming.insert("C".to_string(), "30".to_string());

    base.extend_from(&incoming);

    assert_eq!(base.len(), 3);
    assert_eq!(base.get("A"), Some(&"1".to_string()));
    assert_eq!(base.get("B"), Some(&"20".to_string()));
    assert_eq!(base.get("C"), Some(&"30".to_string()));
    assert_eq!(incoming.len(), 2);

    let copy = base.duplicate();
    assert_eq!(copy.key_list(), base.key_list());
    assert_eq!(copy.get("B"), Some(&"20".to_string()));
}

#[test]
fn set_holds_each_text_once() {
    let mut set = StringSet::new();
    assert!(set.is_empty());
    assert!(set.insert("a".to_string()));
    assert!(set.insert("b".to_string()));
    assert!(!set.insert("a".to_string()));
    assert_eq!(set.len(), 2);
    assert!(set.contains("a"));
    assert!(!set.contains("c"));
    assert_eq!(set.to_vec(), vec!["a", "b"]);
    assert_eq!(set.item_at(1), "b");
    assert!(set.remove("a"));
    assert!(!set.remove("a"));
    assert_eq!(set.to_vec(), vec!["b"]);
}

#[test]
fn set_from_vec_and_union() {
    let left = StringSet::from_vec(vec!["a".to_string(), "b".to_string(), "a".to_string()]);
    assert_eq!(left.len(), 2);
    let right = StringSet::from_vec(vec!["b".to_string(), "c".to_string()]);
    let mut union = left.duplicate();
    union.union_with(&right);
    assert_eq!(union.to_vec(), vec!["a", "b", "c"]);
    assert_eq!(left.to_vec(), vec!["a", "b"]);
}
