//! Persistence core of a desktop manager for Node.js versions: where the
//! state files live, how their on-disk layout is brought up to date, and how
//! configuration is exported and imported.
//!
//! Nothing here touches a file or a window, and the one thing asked of the
//! platform is the home directory of the user. A caller reads and writes,
//! and asks the library what to do next:
//!
//! - [`paths`] names the locations of the persisted state.
//! - [`migrate`] reads the schema version off the marker file and lays out
//!   the file operations of each upgrade step; [`migrator`] runs a migration
//!   move by move; [`disk`] and [`progress`] say what that makes of the
//!   persisted state, whether every operation succeeds or one fails.
//! - [`settings`] and [`config`] hold the live configuration.
//! - [`version`] resolves the version that a project runs with.
//! - [`configuration`] takes snapshots for export, and runs an import move
//!   by move.

pub mod config;
pub mod configuration;
pub mod disk;
pub mod migrate;
pub mod migrator;
pub mod paths;
pub mod progress;
pub mod settings;
pub mod version;
