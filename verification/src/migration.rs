//! One migration step, and the properties of a list of steps.
use vstd::prelude::*;

verus! {

/// The direction in which a step changes the schema.
#[derive(Clone, Copy, Debug, PartialEq, Eq, Structural)]
pub enum MigrationKind {
    /// The step moves the schema forward.
    Up,
    /// The step takes an earlier step back.
    Down,
}

/// One step in the history of a database schema.
#[derive(Clone, Copy, Debug, PartialEq, Eq)]
pub struct Migration {
    /// The step's place in the history. A database records the versions it
    /// has run, so a version, once released, names the same script for good.
    pub version: i64,
    /// A short name for what the step does.
    pub description: &'static str,
    /// The script that makes the change.
    pub sql: &'static str,
    /// The direction of the change.
    pub kind: MigrationKind,
}

/// A migration step as a mathematical value.
pub struct MigrationView {
    /// The step's place in the history.
    pub version: int,
    /// The step's name, as a sequence of characters.
    pub description: Seq<char>,
    /// The step's script, as a sequence of characters.
    pub sql: Seq<char>,
    /// The direction of the change.
    pub kind: MigrationKind,
}

impl View for Migration {
    type V = MigrationView;

    open spec fn view(&self) -> MigrationView {
        MigrationView {
            version: self.version as int,
            description: self.description@,
            sql: self.sql@,
            kind: self.kind,
        }
    }
}

/// The views of the steps of a list, in the list's order.
pub open spec fn views(list: Seq<Migration>) -> Seq<MigrationView> {
    list.map_values(|m: Migration| m@)
}

/// The versions of the steps of a list, in the list's order.
pub open spec fn versions(list: Seq<MigrationView>) -> Seq<int> {
    list.map_values(|m: MigrationView| m.version)
}

/// Every step has a greater version than all the steps before it.
pub open spec fn strictly_ascending(list: Seq<MigrationView>) -> bool {
    forall|i: int, j: int|
        0 <= i < j < list.len() ==> (#[trigger] list[i]).version < (#[trigger] list[j]).version
}

/// Every step moves the schema forward.
pub open spec fn forward_only(list: Seq<MigrationView>) -> bool {
    forall|i: int| 0 <= i < list.len() ==> (#[trigger] list[i]).kind == MigrationKind::Up
}

/// In a list whose versions rise strictly no version occurs twice, so a
/// recorded version names one step of the list and no other.
pub proof fn lemma_ascending_versions_are_distinct(list: Seq<MigrationView>)
    requires
        strictly_ascending(list),
    ensures
        versions(list).no_duplicates(),
{
    assert forall|i: int, j: int|
        0 <= i < versions(list).len() && 0 <= j < versions(list).len() && i != j implies versions(
        list,
    )[i] != versions(list)[j] by {
        if i < j {
            assert(list[i].version < list[j].version);
        } else {
            assert(list[j].version < list[i].version);
        }
    }
}

} // verus!
