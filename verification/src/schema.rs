//! The declared history of the inventory database's schema.
use crate::migration::{
    forward_only, lemma_ascending_versions_are_distinct, strictly_ascending, versions, views,
    Migration, MigrationKind, MigrationView,
};
use vstd::prelude::*;

verus! {

/// The identifier of the database that the steps belong to.
pub const DATABASE_URL: &'static str = "sqlite:inventory.db";

/// The identifier names the SQLite dialect and, after it, the local file
/// `inventory.db`.
pub proof fn lemma_database_is_a_local_sqlite_file()
    ensures
        DATABASE_URL@ == "sqlite:"@ + "inventory.db"@,
{
    reveal_strlit("sqlite:inventory.db");
    reveal_strlit("sqlite:");
    reveal_strlit("inventory.db");
    assert(DATABASE_URL@ =~= "sqlite:"@ + "inventory.db"@);
}

/// The script of version 1. It creates the seven tables, each only if it is
/// not there yet.
///
/// The text is kept letter for letter, indentation and line breaks included:
/// the database layer stores a checksum of every script it has run and
/// refuses a database whose recorded checksum differs from the script's.
pub const CREATE_INITIAL_TABLES: &'static str = "
                CREATE TABLE IF NOT EXISTS sites (
                    id INTEGER PRIMARY KEY AUTOINCREMENT,
                    name TEXT NOT NULL UNIQUE,
                    location TEXT,
                    is_active BOOLEAN NOT NULL DEFAULT 1,
                    created_at DATETIME DEFAULT CURRENT_TIMESTAMP,
                    updated_at DATETIME DEFAULT CURRENT_TIMESTAMP
                );

                CREATE TABLE IF NOT EXISTS reagents (
                    id INTEGER PRIMARY KEY AUTOINCREMENT,
                    name TEXT NOT NULL UNIQUE,
                    description TEXT
                );

                CREATE TABLE IF NOT EXISTS lots (
                    id INTEGER PRIMARY KEY AUTOINCREMENT,
                    lot_number TEXT NOT NULL UNIQUE,
                    reagent_id INTEGER NOT NULL,
                    expiration_date DATE NOT NULL,
                    total_quantity INTEGER NOT NULL,
                    created_at DATETIME DEFAULT CURRENT_TIMESTAMP,
                    updated_at DATETIME DEFAULT CURRENT_TIMESTAMP,
                    FOREIGN KEY (reagent_id) REFERENCES reagents (id)
                );

                CREATE TABLE IF NOT EXISTS shipments (
                    id INTEGER PRIMARY KEY AUTOINCREMENT,
                    lot_id INTEGER NOT NULL,
                    site_id INTEGER NOT NULL,
                    quantity INTEGER NOT NULL,
                    shipped_date DATE NOT NULL,
                    received_date DATE,
                    created_at DATETIME DEFAULT CURRENT_TIMESTAMP,
                    updated_at DATETIME DEFAULT CURRENT_TIMESTAMP,
                    FOREIGN KEY (lot_id) REFERENCES lots (id),
                    FOREIGN KEY (site_id) REFERENCES sites (id)
                );

                CREATE TABLE IF NOT EXISTS transfers (
                    id INTEGER PRIMARY KEY AUTOINCREMENT,
                    lot_id INTEGER NOT NULL,
                    from_site_id INTEGER NOT NULL,
                    to_site_id INTEGER NOT NULL,
                    quantity INTEGER NOT NULL,
                    transfer_date DATE NOT NULL,
                    created_at DATETIME DEFAULT CURRENT_TIMESTAMP,
                    updated_at DATETIME DEFAULT CURRENT_TIMESTAMP,
                    FOREIGN KEY (lot_id) REFERENCES lots (id),
                    FOREIGN KEY (from_site_id) REFERENCES sites (id),
                    FOREIGN KEY (to_site_id) REFERENCES sites (id)
                );

                CREATE TABLE IF NOT EXISTS inventory_records (
                    id INTEGER PRIMARY KEY AUTOINCREMENT,
                    lot_id INTEGER NOT NULL,
                    site_id INTEGER NOT NULL,
                    quantity_on_hand INTEGER NOT NULL,
                    recorded_date DATE NOT NULL,
                    recorded_by TEXT NOT NULL,
                    created_at DATETIME DEFAULT CURRENT_TIMESTAMP,
                    FOREIGN KEY (lot_id) REFERENCES lots (id),
                    FOREIGN KEY (site_id) REFERENCES sites (id)
                );

                CREATE TABLE IF NOT EXISTS users (
                    id INTEGER PRIMARY KEY AUTOINCREMENT,
                    username TEXT NOT NULL UNIQUE,
                    email TEXT NOT NULL UNIQUE,
                    name TEXT NOT NULL,
                    role TEXT NOT NULL DEFAULT 'USER',
                    is_active BOOLEAN NOT NULL DEFAULT 1,
                    created_at DATETIME DEFAULT CURRENT_TIMESTAMP,
                    updated_at DATETIME DEFAULT CURRENT_TIMESTAMP
                );
            ";

/// The script of version 2. It drops the stored quantity from `lots`; a lot's
/// quantity is from then on the sum of its inventory records. The script
/// fails on a table that lacks the column, so it must run exactly once.
pub const REMOVE_TOTAL_QUANTITY_FROM_LOTS: &'static str = "ALTER TABLE lots DROP COLUMN total_quantity;";

/// The declared steps, oldest first.
pub open spec fn migration_set() -> Seq<MigrationView> {
    seq![
        MigrationView {
            version: 1,
            description: "create_initial_tables"@,
            sql: CREATE_INITIAL_TABLES@,
            kind: MigrationKind::Up,
        },
        MigrationView {
            version: 2,
            description: "remove_total_quantity_from_lots"@,
            sql: REMOVE_TOTAL_QUANTITY_FROM_LOTS@,
            kind: MigrationKind::Up,
        },
    ]
}

/// The declared versions rise strictly, and none occurs twice: a database
/// layer that runs the steps in the order of the list runs them in the order
/// of their versions, and one that records the versions it has run can tell
/// every step from every other.
pub proof fn lemma_versions_rise()
    ensures
        strictly_ascending(migration_set()),
        versions(migration_set()).no_duplicates(),
{
    lemma_ascending_versions_are_distinct(migration_set());
}

/// Only forward steps are declared: a database layer that passes over the
/// steps that take a change back passes over none of these.
pub proof fn lemma_forward_only()
    ensures
        forward_only(migration_set()),
{
}

/// The declared versions count from 1 without a gap: the first step is
/// version 1, and every further step is one version above the step before it.
pub proof fn lemma_versions_count_from_one()
    ensures
        forall|i: int|
            0 <= i < migration_set().len() ==> (#[trigger] migration_set()[i]).version == i + 1,
{
}

/// The declared steps, oldest first, as the database layer takes them.
pub fn migrations() -> (list: Vec<Migration>)
    ensures
        views(list@) == migration_set(),
        strictly_ascending(views(list@)),
        forward_only(views(list@)),
{
    let mut list: Vec<Migration> = Vec::new();
    list.push(
        Migration {
            version: 1,
            description: "create_initial_tables",
            sql: CREATE_INITIAL_TABLES,
            kind: MigrationKind::Up,
        },
    );
    list.push(
        Migration {
            version: 2,
            description: "remove_total_quantity_from_lots",
            sql: REMOVE_TOTAL_QUANTITY_FROM_LOTS,
            kind: MigrationKind::Up,
        },
    );
    assert(views(list@) =~= migration_set());
    list
}

} // verus!
