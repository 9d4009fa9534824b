use kronosphere::migrations::{check_versions_strictly_increasing_from_one, MigrationKind};
use kronosphere::schema::ColumnType;
use kronosphere::startup::{
    database_url, declared_migrations, declared_migrations_are_ordered, initial_schema,
    notes_create_sql, notes_table, startup_config,
};

#[test]
fn database_url_addresses_local_file() {
    assert_eq!(database_url(), "sqlite:kronoshpere.db");
}

#[test]
fn declared_migration_is_version_one_up() {
    let ms = declared_migrations();
    assert_eq!(ms.len(), 1);
    assert_eq!(ms[0].version, 1);
    assert_eq!(ms[0].description, "create notes table");
    assert_eq!(ms[0].kind, MigrationKind::Up);
    assert_eq!(ms[0].sql, notes_create_sql());
}

#[test]
fn declared_migration_sql_creates_notes_conditionally() {
    let sql = notes_create_sql();
    assert!(sql.starts_with("CREATE TABLE IF NOT EXISTS notes ("));
    assert!(sql.contains("id TEXT PRIMARY KEY"));
    assert!(sql.contains("content TEXT"));
    assert!(sql.contains("created_at INTEGER"));
    assert!(sql.contains("modified_at INTEGER"));
    assert!(sql.contains("type TEXT"));
    assert!(sql.contains("tags TEXT"));
    assert!(sql.contains("properties JSON"));
    assert!(sql.ends_with(")"));
}

#[test]
fn declared_list_is_ordered() {
    let ms = declared_migrations();
    assert!(check_versions_strictly_increasing_from_one(&ms));
    assert!(declared_migrations_are_ordered());
}

#[test]
fn startup_config_carries_url_and_migrations() {
    let c = startup_config();
    assert_eq!(c.database_url, "sqlite:kronoshpere.db");
    assert_eq!(c.migrations, declared_migrations());
}

#[test]
fn initial_schema_is_exactly_the_notes_table() {
    let s = initial_schema();
    assert_eq!(s.tables.len(), 1);
    let t = &s.tables[0];
    assert_eq!(t.name, "notes");
    assert_eq!(t.columns.len(), 7);
    let names: Vec<&str> = t.columns.iter().map(|c| c.name.as_str()).collect();
    assert_eq!(
        names,
        vec!["id", "content", "created_at", "modified_at", "type", "tags", "properties"]
    );
    assert!(t.columns[0].primary_key);
    assert!(t.columns.iter().skip(1).all(|c| !c.primary_key));
    assert_eq!(t.columns[0].column_type, ColumnType::Text);
    assert_eq!(t.columns[1].column_type, ColumnType::Text);
    assert_eq!(t.columns[2].column_type, ColumnType::Integer);
    assert_eq!(t.columns[3].column_type, ColumnType::Integer);
    assert_eq!(t.columns[4].column_type, ColumnType::Text);
    assert_eq!(t.columns[5].column_type, ColumnType::Text);
    assert_eq!(t.columns[6].column_type, ColumnType::Json);
}

#[test]
fn applying_declared_migration_again_changes_nothing() {
    let mut s = initial_schema();
    let before = s.clone();
    s.create_table_if_not_exists(notes_table());
    assert_eq!(s, before);
}
