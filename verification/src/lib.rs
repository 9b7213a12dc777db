//! The schema history of the reagent inventory database.
//!
//! The inventory of reagents held at laboratory sites lives in one embedded
//! SQLite file. This crate declares how that file's schema came to be: an
//! ordered list of versioned, forward-only migration steps, together with the
//! identifier of the database they belong to. The list is handed as it stands
//! to the database layer of the desktop shell, which runs each step at most
//! once and in the order of the list.
//!
//! * [`migration`] holds the shape of one step and the properties a list of
//!   steps may have.
//! * [`schema`] holds the declared steps and proves what the database layer
//!   relies on: versions that rise strictly, and forward steps only.
pub mod migration;
pub mod schema;

pub use migration::{Migration, MigrationKind};
