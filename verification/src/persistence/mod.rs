//! Mapping between domain values and the column values stored in SQLite.
//! UUIDs are stored as canonical text, timestamps as UTC RFC 3339 text with
//! nanoseconds, enums as stable upper-case names.

pub mod error;
pub mod mapping;
pub mod rows;
