//! Validation errors raised while constructing domain values.

use vstd::prelude::*;

verus! {

/// Validation errors raised while constructing domain values.
#[derive(Debug, Clone, PartialEq, Eq)]
#[non_exhaustive]
pub enum DomainError {
    /// A project or service name was empty after trimming whitespace.
    EmptyName { entity: &'static str },
    /// An HTTP check URL was empty after trimming whitespace.
    EmptyHttpUrl,
    /// Check intervals must be positive.
    ZeroInterval,
    /// Check timeouts must be positive.
    ZeroTimeout,
    /// HTTP status codes are limited to the standard 100-599 range.
    InvalidHttpStatus { status: u16 },
}

} // verus!
