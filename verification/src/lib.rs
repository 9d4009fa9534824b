//! Core model of a small notes-application shell.
//!
//! The shell's observable behaviour is: declare one schema migration that
//! creates a `notes` table, hand it together with a connection string to a
//! database plugin, and start the application's event loop.  This crate holds
//! the part of that behaviour that can be stated and proved: the declared
//! migration list and its version ordering, the shape of the schema that the
//! migration establishes, and the idempotent `CREATE TABLE IF NOT EXISTS`
//! step that the migration performs.  The event loop and the plugins
//! themselves live outside the library.

pub mod migrations;
pub mod schema;
pub mod startup;
