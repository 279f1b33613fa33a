//! Change tracking and transactional backup/undo for a section-based
//! configuration file edited through a form-like interface.
//!
//! - `changes`: the pending edits, one value per `(category, key)`.
//! - `registry`: the catalog of known options and the kind of value each takes.
//! - `apply`: merging pending edits into a parsed configuration.
//! - `paths`: where a file's backup lives.
//! - `txn`: plans of file operations, run one step at a time by the caller.
//! - `session`: save and undo as such plans, and the laws they obey.
//! - `monitors`, `inventory`: the list-style monitor and workspace entries,
//!   and the live monitor inventory.
//! - `parser`, `text`: what is relied on of the configuration parser and of
//!   `str`, and character-level helpers.

pub mod apply;
pub mod changes;
pub mod inventory;
pub mod monitors;
pub mod parser;
pub mod paths;
pub mod registry;
pub mod session;
pub mod text;
pub mod txn;
