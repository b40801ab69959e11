use gami::table::StringTable;

#[test]
fn insert_and_get() {
    let mut table: StringTable<i32> = StringTable::new();
    assert_eq!(table.len(), 0);
    assert_eq!(table.get("a"), None);
    table.insert("a".to_string(), 1);
    table.insert("b".to_string(), 2);
    assert_eq!(table.len(), 2);
    assert_eq!(table.get("a"), Some(&1));
    assert_eq!(table.get("b"), Some(&2));
    assert_eq!(table.get("c"), None);
    assert!(table.contains_key("a"));
    assert!(!table.contains_key(""));
}

#[test]
fn insert_replaces_and_keeps_the_order_of_first_insertion() {
    let mut table: StringTable<i32> = StringTable::new();
    table.insert("b".to_string(), 1);
    table.insert("a".to_string(), 2);
    table.insert("b".to_string(), 3);
    assert_eq!(table.len(), 2);
    assert_eq!(table.get("b"), Some(&3));
    assert_eq!(table.keys(), vec!["b", "a"]);
}

#[test]
fn extend_prefers_the_incoming_values() {
    let mut left: StringTable<i32> = StringTable::new();
    left.insert("a".to_string(), 1);
    left.insert("b".to_string(), 2);
    let mut right: StringTable<i32> = StringTable::new();
    right.insert("b".to_string(), 20);
    right.insert("c".to_string(), 30);
    left.extend(right);
    assert_eq!(left.keys(), vec!["a", "b", "c"]);
    assert_eq!(left.get("a"), Some(&1));
    assert_eq!(left.get("b"), Some(&20));
    assert_eq!(left.get("c"), Some(&30));
}
