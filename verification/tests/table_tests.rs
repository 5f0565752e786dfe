use smart_house::ident::Id;
use smart_house::ident::IdAllocator;
use smart_house::table::Row;
use smart_house::table::Table;

fn letters() -> Table<char> {
    let mut table = Table::new();
    table.insert('a');
    table.insert('b');
    table.insert('c');
    table.insert('b');
    table
}

fn contents(table: &Table<char>) -> Vec<(u64, char)> {
    let mut scan = table.scan();
    let mut rows = Vec::new();
    while let Some(row) = table.next(&mut scan) {
        rows.push((row.id.value, row.data));
    }
    rows
}

#[test]
fn allocator_counts_up_from_zero() {
    let mut ids = IdAllocator::new();
    assert!(!ids.is_exhausted());
    assert_eq!(ids.next(), Id { value: 0 });
    assert_eq!(ids.next(), Id { value: 1 });
    assert_eq!(ids.next(), Id { value: 2 });
}

#[test]
fn allocator_never_repeats_an_identifier() {
    let mut ids = IdAllocator::new();
    let mut last = ids.next();
    for _ in 0..100 {
        let next = ids.next();
        assert!(next.value > last.value);
        last = next;
    }
}

#[test]
fn new_table_is_empty() {
    let table: Table<char> = Table::new();
    assert_eq!(table.len(), 0);
    assert!(table.is_empty());
    assert!(!table.is_full());
}

#[test]
fn insert_numbers_rows_in_order() {
    let mut table = Table::new();
    assert_eq!(table.insert('x'), Id { value: 0 });
    assert_eq!(table.insert('y'), Id { value: 1 });
    assert_eq!(table.len(), 2);
    assert!(!table.is_empty());
    assert_eq!(contents(&table), vec![(0, 'x'), (1, 'y')]);
}

#[test]
fn find_returns_the_first_match() {
    let table = letters();
    let found = table.find(|row: &Row<char>| row.data == 'b').unwrap();
    assert_eq!(found.id, Id { value: 1 });
    assert_eq!(found.data, 'b');
}

#[test]
fn find_can_look_at_the_identifier() {
    let table = letters();
    let found = table.find(|row: &Row<char>| row.id.value >= 2).unwrap();
    assert_eq!((found.id.value, found.data), (2, 'c'));
}

#[test]
fn find_returns_none_without_a_match() {
    let table = letters();
    assert!(table.find(|row: &Row<char>| row.data == 'z').is_none());
    let empty: Table<char> = Table::new();
    assert!(empty.find(|_row: &Row<char>| true).is_none());
}

#[test]
fn find_mut_changes_the_first_match_in_place() {
    let mut table = letters();
    *table.find_mut(|row: &Row<char>| row.data == 'b').unwrap() = 'B';
    assert_eq!(contents(&table), vec![(0, 'a'), (1, 'B'), (2, 'c'), (3, 'b')]);
    assert!(table.find_mut(|row: &Row<char>| row.data == 'z').is_none());
}

#[test]
fn scan_yields_the_rows_in_insertion_order() {
    let table = letters();
    let mut scan = table.scan();
    let mut seen = Vec::new();
    while let Some(row) = table.next(&mut scan) {
        seen.push((row.id.value, row.data));
    }
    assert_eq!(seen, vec![(0, 'a'), (1, 'b'), (2, 'c'), (3, 'b')]);
    assert_eq!(scan.position, 4);
    assert!(table.next(&mut scan).is_none());
    assert_eq!(scan.position, 4);
}

#[test]
fn scan_can_be_started_again() {
    let table = letters();
    let mut first = table.scan();
    assert_eq!(table.next(&mut first).unwrap().data, 'a');
    assert_eq!(table.next(&mut first).unwrap().data, 'b');
    let mut second = table.scan();
    assert_eq!(table.next(&mut second).unwrap().data, 'a');
    assert_eq!(table.next(&mut first).unwrap().data, 'c');
}

#[test]
fn scan_of_an_empty_table_yields_nothing() {
    let table: Table<char> = Table::new();
    let mut scan = table.scan();
    assert!(table.next(&mut scan).is_none());
    assert_eq!(scan.position, 0);
}

#[test]
fn next_mut_changes_rows_in_place() {
    let mut table = letters();
    let mut scan = table.scan();
    while let Some(data) = table.next_mut(&mut scan) {
        *data = data.to_ascii_uppercase();
    }
    assert_eq!(contents(&table), vec![(0, 'A'), (1, 'B'), (2, 'C'), (3, 'B')]);
}

#[test]
fn delete_returns_the_value_and_keeps_the_rest() {
    let mut table = letters();
    assert_eq!(table.delete(Id { value: 1 }), Some('b'));
    assert_eq!(contents(&table), vec![(0, 'a'), (2, 'c'), (3, 'b')]);
}

#[test]
fn delete_of_an_absent_identifier_changes_nothing() {
    let mut table = letters();
    assert_eq!(table.delete(Id { value: 9 }), None);
    assert_eq!(table.delete(Id { value: 1 }), Some('b'));
    assert_eq!(table.delete(Id { value: 1 }), None);
    assert_eq!(contents(&table), vec![(0, 'a'), (2, 'c'), (3, 'b')]);
}

#[test]
fn delete_where_removes_every_match_and_counts_them() {
    let mut table = letters();
    assert_eq!(table.delete_where(|row: &Row<char>| row.data == 'b'), 2);
    assert_eq!(contents(&table), vec![(0, 'a'), (2, 'c')]);
}

#[test]
fn delete_where_without_a_match_removes_nothing() {
    let mut table = letters();
    assert_eq!(table.delete_where(|row: &Row<char>| row.data == 'z'), 0);
    assert_eq!(table.len(), 4);
}

#[test]
fn delete_where_can_empty_the_table() {
    let mut table = letters();
    assert_eq!(table.delete_where(|_row: &Row<char>| true), 4);
    assert!(table.is_empty());
}

#[test]
fn identifiers_are_not_given_out_again() {
    let mut table = letters();
    assert_eq!(table.delete(Id { value: 3 }), Some('b'));
    assert_eq!(table.delete_where(|_row: &Row<char>| true), 3);
    assert_eq!(table.insert('n'), Id { value: 4 });
    assert_eq!(contents(&table), vec![(4, 'n')]);
}
