//! Results of completed check executions.

use vstd::prelude::*;

use crate::ids::{is_random_uuid, random_uuid};
use crate::status::HealthStatus;
use crate::time::{current_time, Timestamp};

verus! {

/// Result of one completed check execution.
#[derive(Debug, PartialEq, Eq)]
#[non_exhaustive]
pub struct CheckResult {
    pub id: u128,
    pub check_id: u128,
    pub checked_at: Timestamp,
    pub status: HealthStatus,
    pub duration_ms: u64,
    pub error: Option<String>,
}

/// The value of a check result, with the error text as a character sequence.
pub struct CheckResultView {
    pub id: u128,
    pub check_id: u128,
    pub checked_at: Timestamp,
    pub status: HealthStatus,
    pub duration_ms: u64,
    pub error: Option<Seq<char>>,
}

/// The character sequence of an optional text.
pub open spec fn optional_text(text: Option<String>) -> Option<Seq<char>> {
    match text {
        Some(t) => Some(t@),
        None => None,
    }
}

impl View for CheckResult {
    type V = CheckResultView;

    open spec fn view(&self) -> CheckResultView {
        CheckResultView {
            id: self.id,
            check_id: self.check_id,
            checked_at: self.checked_at,
            status: self.status,
            duration_ms: self.duration_ms,
            error: optional_text(self.error),
        }
    }
}

impl Clone for CheckResult {
    fn clone(&self) -> (copy: Self)
        ensures
            copy == *self,
    {
        let error = match &self.error {
            Some(text) => Some(text.clone()),
            None => None,
        };
        CheckResult {
            id: self.id,
            check_id: self.check_id,
            checked_at: self.checked_at,
            status: self.status,
            duration_ms: self.duration_ms,
            error,
        }
    }
}

impl CheckResult {
    /// Creates a check result with a generated id and completion timestamp.
    pub fn new(check_id: u128, status: HealthStatus, duration_ms: u64, error: Option<String>) -> (result: Self)
        ensures
            is_random_uuid(result.id),
            result.check_id == check_id,
            result.status == status,
            result.duration_ms == duration_ms,
            result.error == error,
    {
        CheckResult::from_persisted(random_uuid(), check_id, current_time(), status, duration_ms, error)
    }

    /// Reconstructs a check result from previously persisted domain fields.
    pub fn from_persisted(
        id: u128,
        check_id: u128,
        checked_at: Timestamp,
        status: HealthStatus,
        duration_ms: u64,
        error: Option<String>,
    ) -> (result: Self)
        ensures
            result == (CheckResult { id, check_id, checked_at, status, duration_ms, error }),
    {
        CheckResult { id, check_id, checked_at, status, duration_ms, error }
    }
}

} // verus!
