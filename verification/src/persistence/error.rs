//! Errors raised by persistence and by SQL/domain mapping.

use vstd::prelude::*;

use crate::error::DomainError;

verus! {

/// Errors raised by persistence and SQL/domain mapping code.
#[derive(Debug)]
pub enum PersistenceError {
    /// The database reported an error; the text is its message.
    Database(String),
    /// Applying migrations failed; the text is the migrator's message.
    Migration(String),
    /// A stored UUID could not be parsed.
    InvalidUuid { field: &'static str, value: String, source: uuid::Error },
    /// A stored timestamp could not be parsed as RFC 3339.
    InvalidTimestamp { field: &'static str, value: String, source: chrono::ParseError },
    /// A stored enum value is not one of the known names.
    InvalidEnum { kind: &'static str, value: String },
    /// A numeric value does not fit the range of its column or field.
    NumericOutOfRange { field: &'static str, value: i64 },
    /// A timestamp lies outside what chrono can represent, so it has no RFC 3339 text.
    UnrepresentableTimestamp { field: &'static str, seconds: i64, nanos: u32 },
    /// Stored values violate a domain invariant.
    InvalidDomain(DomainError),
}

} // verus!
