use toy_interferometer::table::{AntennaTable, Position};

fn at(x: i64) -> Position {
    Position { x, y: -x, z: 2 * x }
}

fn names_of(table: &AntennaTable) -> Vec<String> {
    (0..table.len()).map(|i| table.name(i)).collect()
}

#[test]
fn new_table_is_empty() {
    assert_eq!(AntennaTable::new().len(), 0);
}

#[test]
fn insert_keeps_name_order() {
    let mut table = AntennaTable::new();
    table.insert("Parkes".to_string(), at(1));
    table.insert("Ceduna".to_string(), at(2));
    table.insert("Perth".to_string(), at(3));
    table.insert("Hobart".to_string(), at(4));
    assert_eq!(names_of(&table), vec!["Ceduna", "Hobart", "Parkes", "Perth"]);
    assert_eq!(table.position(0), at(2));
    assert_eq!(table.position(3), at(3));
}

#[test]
fn insert_of_a_known_name_replaces_its_position() {
    let mut table = AntennaTable::new();
    table.insert("Lovell".to_string(), at(1));
    table.insert("Defford".to_string(), at(2));
    table.insert("Lovell".to_string(), at(9));
    assert_eq!(names_of(&table), vec!["Defford", "Lovell"]);
    assert_eq!(table.position(1), at(9));
}

#[test]
fn from_entries_sorts_and_keeps_the_last_duplicate() {
    let table = AntennaTable::from_entries(&[("b", at(1)), ("a", at(2)), ("b", at(3)), ("ab", at(4))]);
    assert_eq!(names_of(&table), vec!["a", "ab", "b"]);
    assert_eq!(table.position(2), at(3));
}

#[test]
fn order_is_bytewise_with_prefixes_first() {
    let table = AntennaTable::from_entries(&[
        ("IT-NOTO", at(1)),
        ("IT", at(2)),
        ("Ia", at(3)),
        ("IE613HBA", at(4)),
        ("", at(5)),
    ]);
    assert_eq!(names_of(&table), vec!["", "IE613HBA", "IT", "IT-NOTO", "Ia"]);
}

#[test]
fn retain_by_mask_walks_the_mask_against_name_order() {
    let mut table = AntennaTable::from_entries(&[("c", at(1)), ("a", at(2)), ("b", at(3))]);
    table.retain_by_mask(&[0, 1, 0]);
    assert_eq!(names_of(&table), vec!["b"]);
    assert_eq!(table.position(0), at(3));
}
