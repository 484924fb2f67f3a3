use v8js::table::NamedTable;

#[test]
fn empty_table() {
    let table: NamedTable<i32> = NamedTable::new();
    assert_eq!(table.len(), 0);
    assert_eq!(table.get(&String::from("a")), None);
    assert!(!table.contains_key(&String::from("a")));
}

#[test]
fn insert_then_get() {
    let mut table = NamedTable::new();
    table.insert(String::from("a"), 1);
    table.insert(String::from("b"), 2);
    assert_eq!(table.get(&String::from("a")), Some(&1));
    assert_eq!(table.get(&String::from("b")), Some(&2));
    assert_eq!(table.get(&String::from("c")), None);
    assert_eq!(table.len(), 2);
}

#[test]
fn insert_replaces() {
    let mut table = NamedTable::new();
    table.insert(String::from("a"), 1);
    table.insert(String::from("a"), 5);
    assert_eq!(table.get(&String::from("a")), Some(&5));
    assert_eq!(table.len(), 1);
    assert!(table.contains_key(&String::from("a")));
}

#[test]
fn names_are_compared_by_text() {
    let mut table = NamedTable::new();
    table.insert(String::from("é"), 1);
    table.insert(String::from("e"), 2);
    table.insert(String::from(""), 3);
    assert_eq!(table.get(&String::from("é")), Some(&1));
    assert_eq!(table.get(&String::from("e")), Some(&2));
    assert_eq!(table.get(&String::from("")), Some(&3));
    assert_eq!(table.len(), 3);
}
