//! Versioned schema migrations and the ordering that makes a migration list
//! applicable.
//!
//! A migration is applied at most once to bring the database from one
//! structural version to the next.  Consumers apply versions monotonically,
//! so a list is usable only when its version numbers are strictly increasing
//! and start at 1.

use vstd::prelude::*;

verus! {

/// Direction of a migration script: `Up` applies a schema change, `Down`
/// would revert one.  The application declares only `Up` migrations.
#[derive(Clone, Copy, Debug, PartialEq, Eq, Structural)]
pub enum MigrationKind {
    Up,
    Down,
}

/// One versioned, ordered schema-change script.
#[derive(Clone, Copy, Debug, PartialEq, Eq)]
pub struct Migration {
    /// Position of this script in the monotone version sequence.
    pub version: i64,
    /// Human-readable summary of the change.
    pub description: &'static str,
    /// The SQL text that performs the change.
    pub sql: &'static str,
    /// Whether the script applies or reverts a change.
    pub kind: MigrationKind,
}

/// Mathematical model of a [`Migration`].
#[verifier::ext_equal]
pub struct SpecMigration {
    pub version: int,
    pub description: Seq<char>,
    pub sql: Seq<char>,
    pub kind: MigrationKind,
}

impl View for Migration {
    type V = SpecMigration;

    open spec fn view(&self) -> SpecMigration {
        SpecMigration {
            version: self.version as int,
            description: self.description@,
            sql: self.sql@,
            kind: self.kind,
        }
    }
}

impl DeepView for Migration {
    type V = SpecMigration;

    open spec fn deep_view(&self) -> SpecMigration {
        self@
    }
}

/// A migration list is applicable when its version numbers are strictly
/// increasing and, if the list is not empty, start at 1.
pub open spec fn versions_strictly_increasing_from_one(ms: Seq<SpecMigration>) -> bool {
    &&& ms.len() > 0 ==> ms[0].version == 1
    &&& forall|i: int| 0 <= i && i + 1 < ms.len() ==> #[trigger] ms[i].version < ms[i + 1].version
}

/// Decides whether a migration list carries version numbers in strictly
/// increasing order starting at 1.
pub fn check_versions_strictly_increasing_from_one(ms: &Vec<Migration>) -> (r: bool)
    ensures
        r == versions_strictly_increasing_from_one(ms.deep_view()),
{
    let n = ms.len();
    if n == 0 {
        return true;
    }
    if ms[0].version != 1 {
        return false;
    }
    let mut i: usize = 1;
    while i < n
        invariant
            1 <= i <= n,
            n == ms@.len(),
            ms.deep_view()[0].version == 1,
            forall|k: int| 0 <= k && k + 1 < i ==> #[trigger] ms.deep_view()[k].version < ms.deep_view()[k + 1].version,
        decreases n - i,
    {
        if ms[i].version <= ms[i - 1].version {
            assert(ms.deep_view()[i - 1].version >= ms.deep_view()[i as int].version);
            return false;
        }
        i += 1;
    }
    true
}

} // verus!
