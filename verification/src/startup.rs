//! The application's declared startup configuration: the connection target,
//! the migration list, and the schema that the list establishes.
//!
//! The shell declares exactly one migration, which creates the `notes` table.
//! [`lemma_notes_schema_exactness`] pins down the schema after that migration:
//! one table named `notes`, whose primary key is `id` and whose remaining six
//! declared columns follow with no additions.

use vstd::prelude::*;
use crate::migrations::{Migration, MigrationKind, SpecMigration, versions_strictly_increasing_from_one, check_versions_strictly_increasing_from_one};
use crate::schema::{Column, ColumnType, Schema, SpecColumn, SpecSchema, SpecTable, Table};

verus! {

/// The connection string addressing the local database file.
pub open spec fn spec_database_url() -> Seq<char> {
    "sqlite:kronoshpere.db"@
}

/// The connection string that the database plugin is configured with.
pub fn database_url() -> (url: &'static str)
    ensures
        url@ == spec_database_url(),
{
    "sqlite:kronoshpere.db"
}

/// The SQL text of the first migration: create the `notes` table unless it
/// already exists.
pub open spec fn spec_notes_create_sql() -> Seq<char> {
    "CREATE TABLE IF NOT EXISTS notes (
                id TEXT PRIMARY KEY,
                content TEXT,
                created_at INTEGER,
                modified_at INTEGER,
                type TEXT,
                tags TEXT,
                properties JSON
            )"@
}

/// The SQL text of the first migration, as handed to the database plugin.
pub fn notes_create_sql() -> (sql: &'static str)
    ensures
        sql@ == spec_notes_create_sql(),
{
    "CREATE TABLE IF NOT EXISTS notes (
                id TEXT PRIMARY KEY,
                content TEXT,
                created_at INTEGER,
                modified_at INTEGER,
                type TEXT,
                tags TEXT,
                properties JSON
            )"
}

/// The first (and only) declared migration: version 1, an `Up` script that
/// creates the `notes` table.
pub open spec fn spec_migration_one() -> SpecMigration {
    SpecMigration {
        version: 1,
        description: "create notes table"@,
        sql: spec_notes_create_sql(),
        kind: MigrationKind::Up,
    }
}

/// The structural shape that the first migration's SQL declares: the `notes`
/// table with its seven columns, `id` being the primary key.
pub open spec fn notes_table_spec() -> SpecTable {
    SpecTable {
        name: "notes"@,
        columns: seq![
            SpecColumn { name: "id"@, column_type: ColumnType::Text, primary_key: true },
            SpecColumn { name: "content"@, column_type: ColumnType::Text, primary_key: false },
            SpecColumn { name: "created_at"@, column_type: ColumnType::Integer, primary_key: false },
            SpecColumn { name: "modified_at"@, column_type: ColumnType::Integer, primary_key: false },
            SpecColumn { name: "type"@, column_type: ColumnType::Text, primary_key: false },
            SpecColumn { name: "tags"@, column_type: ColumnType::Text, primary_key: false },
            SpecColumn { name: "properties"@, column_type: ColumnType::Json, primary_key: false },
        ],
    }
}

/// The `notes` table as a value, shaped exactly as [`notes_table_spec`].
pub fn notes_table() -> (t: Table)
    ensures
        t@ == notes_table_spec(),
{
    let mut columns: Vec<Column> = Vec::new();
    columns.push(Column { name: "id".to_owned(), column_type: ColumnType::Text, primary_key: true });
    columns.push(Column { name: "content".to_owned(), column_type: ColumnType::Text, primary_key: false });
    columns.push(Column { name: "created_at".to_owned(), column_type: ColumnType::Integer, primary_key: false });
    columns.push(Column { name: "modified_at".to_owned(), column_type: ColumnType::Integer, primary_key: false });
    columns.push(Column { name: "type".to_owned(), column_type: ColumnType::Text, primary_key: false });
    columns.push(Column { name: "tags".to_owned(), column_type: ColumnType::Text, primary_key: false });
    columns.push(Column { name: "properties".to_owned(), column_type: ColumnType::Json, primary_key: false });
    let t = Table { name: "notes".to_owned(), columns };
    proof {
        assert(t@.columns =~= notes_table_spec().columns);
    }
    t
}

/// The declared migration list: exactly the one `notes` migration, its
/// version numbers strictly increasing from 1.
pub fn declared_migrations() -> (ms: Vec<Migration>)
    ensures
        ms.deep_view() == seq![spec_migration_one()],
        versions_strictly_increasing_from_one(ms.deep_view()),
{
    let m = Migration {
        version: 1,
        description: "create notes table",
        sql: notes_create_sql(),
        kind: MigrationKind::Up,
    };
    let mut ms: Vec<Migration> = Vec::new();
    ms.push(m);
    proof {
        assert(ms.deep_view() =~= seq![spec_migration_one()]);
    }
    ms
}

/// Everything the database plugin is configured with at startup.
pub struct StartupConfig {
    pub database_url: &'static str,
    pub migrations: Vec<Migration>,
}

/// The startup configuration of the shell: the local database file and the
/// declared migration list.
pub fn startup_config() -> (c: StartupConfig)
    ensures
        c.database_url@ == spec_database_url(),
        c.migrations.deep_view() == seq![spec_migration_one()],
        versions_strictly_increasing_from_one(c.migrations.deep_view()),
{
    StartupConfig { database_url: database_url(), migrations: declared_migrations() }
}

/// The schema that a fresh database has once the declared migrations ran:
/// the empty schema with the `notes` table created.
pub fn initial_schema() -> (s: Schema)
    ensures
        s@ == SpecSchema::empty().create_table_if_not_exists(notes_table_spec()),
        s@.wf(),
{
    let mut s = Schema::new();
    s.create_table_if_not_exists(notes_table());
    s
}

/// Checks the declared migration list the way a consumer of the list would:
/// the version numbers must be strictly increasing and start at 1.
pub fn declared_migrations_are_ordered() -> (r: bool)
    ensures
        r,
{
    let ms = declared_migrations();
    check_versions_strictly_increasing_from_one(&ms)
}

/// Schema exactness: after the declared migration ran on a fresh database,
/// the schema holds exactly one table, `notes`; its primary key is `id`, its
/// other six declared columns follow, and no further column or table exists.
pub proof fn lemma_notes_schema_exactness()
    ensures
        ({
            let s = SpecSchema::empty().create_table_if_not_exists(notes_table_spec());
            &&& s.tables.len() == 1
            &&& s.tables[0] == notes_table_spec()
            &&& s.wf()
        }),
        notes_table_spec().name == "notes"@,
        notes_table_spec().columns.len() == 7,
        notes_table_spec().columns[0]
            == (SpecColumn { name: "id"@, column_type: ColumnType::Text, primary_key: true }),
        notes_table_spec().columns[1]
            == (SpecColumn { name: "content"@, column_type: ColumnType::Text, primary_key: false }),
        notes_table_spec().columns[2]
            == (SpecColumn { name: "created_at"@, column_type: ColumnType::Integer, primary_key: false }),
        notes_table_spec().columns[3]
            == (SpecColumn { name: "modified_at"@, column_type: ColumnType::Integer, primary_key: false }),
        notes_table_spec().columns[4]
            == (SpecColumn { name: "type"@, column_type: ColumnType::Text, primary_key: false }),
        notes_table_spec().columns[5]
            == (SpecColumn { name: "tags"@, column_type: ColumnType::Text, primary_key: false }),
        notes_table_spec().columns[6]
            == (SpecColumn { name: "properties"@, column_type: ColumnType::Json, primary_key: false }),
        forall|i: int| 0 < i < 7 ==> !(#[trigger] notes_table_spec().columns[i]).primary_key,
{
    let s = SpecSchema::empty().create_table_if_not_exists(notes_table_spec());
    assert(!SpecSchema::empty().contains_table(notes_table_spec().name));
    assert(s.tables =~= Seq::empty().push(notes_table_spec()));
    assert(s.tables[0] == notes_table_spec());
}

} // verus!
