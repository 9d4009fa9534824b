use kronosphere::schema::{Column, ColumnType, Schema, Table};

fn small_table(name: &str) -> Table {
    Table {
        name: name.to_owned(),
        columns: vec![Column {
            name: "id".to_owned(),
            column_type: ColumnType::Text,
            primary_key: true,
        }],
    }
}

#[test]
fn fresh_schema_has_no_tables() {
    let s = Schema::new();
    assert!(s.tables.is_empty());
    assert!(!s.has_table(&"notes".to_owned()));
}

#[test]
fn created_table_is_declared() {
    let mut s = Schema::new();
    s.create_table_if_not_exists(small_table("notes"));
    assert!(s.has_table(&"notes".to_owned()));
    assert_eq!(s.tables.len(), 1);
    assert!(!s.has_table(&"other".to_owned()));
}

#[test]
fn creating_twice_leaves_schema_unchanged() {
    let mut once = Schema::new();
    once.create_table_if_not_exists(small_table("notes"));
    let mut twice = Schema::new();
    twice.create_table_if_not_exists(small_table("notes"));
    twice.create_table_if_not_exists(small_table("notes"));
    assert_eq!(once, twice);
}

#[test]
fn existing_table_is_not_replaced() {
    let mut s = Schema::new();
    s.create_table_if_not_exists(small_table("notes"));
    let other_shape = Table {
        name: "notes".to_owned(),
        columns: vec![Column {
            name: "body".to_owned(),
            column_type: ColumnType::Text,
            primary_key: false,
        }],
    };
    s.create_table_if_not_exists(other_shape);
    assert_eq!(s.tables.len(), 1);
    assert_eq!(s.tables[0].columns[0].name, "id");
}

#[test]
fn distinct_tables_are_kept_in_creation_order() {
    let mut s = Schema::new();
    s.create_table_if_not_exists(small_table("notes"));
    s.create_table_if_not_exists(small_table("folders"));
    assert_eq!(s.tables.len(), 2);
    assert_eq!(s.tables[0].name, "notes");
    assert_eq!(s.tables[1].name, "folders");
    assert!(s.has_table(&"folders".to_owned()));
}
