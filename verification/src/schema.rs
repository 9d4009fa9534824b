//! The shape of the database schema and the effect of a
//! `CREATE TABLE IF NOT EXISTS` step on it.
//!
//! The schema is modelled structurally: a list of declared tables, each a
//! name together with its columns.  Creating a table that already exists
//! leaves the schema unchanged, so repeated application of the same creation
//! step is idempotent; [`lemma_create_table_if_not_exists_idempotent`] states
//! that for every schema and table.

use vstd::prelude::*;

verus! {

/// Storage class of a column, as declared in a migration script.
#[derive(Clone, Copy, Debug, PartialEq, Eq, Structural)]
pub enum ColumnType {
    Text,
    Integer,
    Json,
}

/// One declared column of a table.
#[derive(Clone, Debug, PartialEq, Eq)]
pub struct Column {
    pub name: String,
    pub column_type: ColumnType,
    pub primary_key: bool,
}

/// Mathematical model of a [`Column`].
#[verifier::ext_equal]
pub struct SpecColumn {
    pub name: Seq<char>,
    pub column_type: ColumnType,
    pub primary_key: bool,
}

impl View for Column {
    type V = SpecColumn;

    open spec fn view(&self) -> SpecColumn {
        SpecColumn {
            name: self.name@,
            column_type: self.column_type,
            primary_key: self.primary_key,
        }
    }
}

impl DeepView for Column {
    type V = SpecColumn;

    open spec fn deep_view(&self) -> SpecColumn {
        self@
    }
}

/// One declared table: a name and its columns, in declaration order.
#[derive(Clone, Debug, PartialEq, Eq)]
pub struct Table {
    pub name: String,
    pub columns: Vec<Column>,
}

/// Mathematical model of a [`Table`].
#[verifier::ext_equal]
pub struct SpecTable {
    pub name: Seq<char>,
    pub columns: Seq<SpecColumn>,
}

impl View for Table {
    type V = SpecTable;

    open spec fn view(&self) -> SpecTable {
        SpecTable { name: self.name@, columns: self.columns.deep_view() }
    }
}

impl DeepView for Table {
    type V = SpecTable;

    open spec fn deep_view(&self) -> SpecTable {
        self@
    }
}

/// The declared tables of a database, in order of creation.
#[derive(Clone, Debug, PartialEq, Eq)]
pub struct Schema {
    pub tables: Vec<Table>,
}

/// Mathematical model of a [`Schema`].
#[verifier::ext_equal]
pub struct SpecSchema {
    pub tables: Seq<SpecTable>,
}

impl View for Schema {
    type V = SpecSchema;

    open spec fn view(&self) -> SpecSchema {
        SpecSchema { tables: self.tables.deep_view() }
    }
}

impl SpecSchema {
    /// The schema of a fresh database: no tables.
    pub open spec fn empty() -> SpecSchema {
        SpecSchema { tables: Seq::empty() }
    }

    /// Whether a table of the given name is declared.
    pub open spec fn contains_table(self, name: Seq<char>) -> bool {
        exists|i: int| 0 <= i < self.tables.len() && #[trigger] self.tables[i].name == name
    }

    /// The effect of `CREATE TABLE IF NOT EXISTS` on a schema: when a table
    /// of that name already exists the schema is unchanged, otherwise the
    /// table is appended.
    pub open spec fn create_table_if_not_exists(self, table: SpecTable) -> SpecSchema {
        if self.contains_table(table.name) {
            self
        } else {
            SpecSchema { tables: self.tables.push(table) }
        }
    }

    /// Well-formed: no two declared tables share a name.  `CREATE TABLE IF
    /// NOT EXISTS` preserves this, so every schema grown from the empty one
    /// by that step alone is well-formed.
    pub open spec fn wf(self) -> bool {
        forall|i: int, j: int|
            0 <= i < j < self.tables.len() ==> self.tables[i].name != self.tables[j].name
    }
}

impl Schema {
    /// A schema with no tables, as a fresh database has.
    pub fn new() -> (s: Schema)
        ensures
            s@ == SpecSchema::empty(),
    {
        let s = Schema { tables: Vec::new() };
        proof {
            assert(s@.tables =~= Seq::<SpecTable>::empty());
        }
        s
    }

    /// Whether a table of the given name is declared.
    pub fn has_table(&self, name: &String) -> (r: bool)
        ensures
            r == self@.contains_table(name@),
    {
        let mut i: usize = 0;
        while i < self.tables.len()
            invariant
                0 <= i <= self.tables.len(),
                forall|k: int| 0 <= k < i ==> #[trigger] self@.tables[k].name != name@,
            decreases self.tables.len() - i,
        {
            if self.tables[i].name == *name {
                assert(self@.tables[i as int].name == name@);
                return true;
            }
            i += 1;
        }
        false
    }

    /// Declare a table unless one of the same name already exists.
    pub fn create_table_if_not_exists(&mut self, table: Table)
        ensures
            final(self)@ == old(self)@.create_table_if_not_exists(table@),
            old(self)@.wf() ==> final(self)@.wf(),
    {
        let present = self.has_table(&table.name);
        if !present {
            proof {
                let ghost before = self@;
                let ghost t = table@;
                assert forall|i: int, j: int|
                    before.wf() && 0 <= i < j < before.tables.len() + 1 implies
                    before.tables.push(t)[i].name != before.tables.push(t)[j].name by {
                    if j < before.tables.len() {
                        assert(before.tables[i].name != before.tables[j].name);
                    } else {
                        assert(before.tables.push(t)[j] == t);
                        assert(before.tables.push(t)[i] == before.tables[i]);
                        assert(before.tables[i].name != t.name);
                    }
                }
            }
            self.tables.push(table);
            proof {
                assert(self@.tables =~= old(self)@.tables.push(table@));
            }
        }
    }
}

/// Idempotence of table creation: applying the same `CREATE TABLE IF NOT
/// EXISTS` step twice gives the same schema as applying it once, for every
/// schema and every table.
pub proof fn lemma_create_table_if_not_exists_idempotent(s: SpecSchema, t: SpecTable)
    ensures
        s.create_table_if_not_exists(t).create_table_if_not_exists(t)
            == s.create_table_if_not_exists(t),
{
    let s1 = s.create_table_if_not_exists(t);
    if !s.contains_table(t.name) {
        assert(s1.tables[s.tables.len() as int] == t);
        assert(s1.contains_table(t.name));
    }
}

} // verus!
