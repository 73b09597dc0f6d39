use xcnft::table::Table;
use xcnft::types::AssetKey;

#[test]
fn table_remembers_what_was_put_last() {
    let mut table: Table<u64, &str> = Table::new();
    table.insert(7, "a");
    table.insert(8, "b");
    table.insert(7, "c");
    assert_eq!(table.get(7), Some(&"c"));
    assert_eq!(table.get(8), Some(&"b"));
    assert_eq!(table.get(9), None);
    assert_eq!(table.len(), 2);
}

#[test]
fn table_forgets_what_was_removed() {
    let mut table: Table<u32, u8> = Table::new();
    table.insert(1, 10);
    table.insert(2, 20);
    assert_eq!(table.remove(1), Some(10));
    assert_eq!(table.remove(1), None);
    assert!(!table.contains_key(1));
    assert!(table.contains_key(2));
    assert_eq!(table.len(), 1);
}

#[test]
fn table_rows_follow_insertion() {
    let mut table: Table<AssetKey, u8> = Table::new();
    let a = AssetKey { collection: 1, item: 2 };
    let b = AssetKey { collection: 2, item: 1 };
    table.insert(a, 1);
    table.insert(b, 2);
    assert_eq!(table.row(0), (a, &1));
    assert_eq!(table.row(1), (b, &2));
}
