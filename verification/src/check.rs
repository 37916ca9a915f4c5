//! Configured health checks and their type-specific configuration.

use vstd::prelude::*;

use crate::error::DomainError;
use crate::ids::{is_random_uuid, random_uuid};
use crate::text::{trim_text, trimmed};
use crate::time::{current_time, Timestamp};

verus! {

/// Type-specific configuration for a health check.
#[derive(Debug, PartialEq, Eq)]
#[non_exhaustive]
pub enum CheckKind {
    /// HTTP status check against a configured URL.
    Http { url: String, expected_status: u16 },
}

/// The value of a check kind, with the URL as a character sequence.
pub enum CheckKindView {
    Http { url: Seq<char>, expected_status: u16 },
}

impl View for CheckKind {
    type V = CheckKindView;

    open spec fn view(&self) -> CheckKindView {
        match self {
            CheckKind::Http { url, expected_status } => CheckKindView::Http { url: url@, expected_status: *expected_status },
        }
    }
}

impl Clone for CheckKind {
    fn clone(&self) -> (copy: Self)
        ensures
            copy == *self,
    {
        match self {
            CheckKind::Http { url, expected_status } => CheckKind::Http { url: url.clone(), expected_status: *expected_status },
        }
    }
}

/// HTTP status codes accepted as an expected status.
pub open spec fn valid_http_status(status: u16) -> bool {
    100 <= status <= 599
}

impl CheckKind {
    /// Creates an HTTP check kind with light domain validation: the URL is
    /// trimmed and must not be empty, the status must lie in 100..=599.
    pub fn http(url: &str, expected_status: u16) -> (kind: Result<Self, DomainError>)
        ensures
            match kind {
                Ok(k) => trimmed(url@).len() > 0 && valid_http_status(expected_status)
                    && k@ == (CheckKindView::Http { url: trimmed(url@), expected_status }) && k.well_formed(),
                Err(e) => if trimmed(url@).len() == 0 {
                    e == DomainError::EmptyHttpUrl
                } else {
                    !valid_http_status(expected_status) && e == (DomainError::InvalidHttpStatus { status: expected_status })
                },
            },
    {
        let url = trim_text(url);
        if url.unicode_len() == 0 {
            return Err(DomainError::EmptyHttpUrl);
        }
        if !(100 <= expected_status && expected_status <= 599) {
            return Err(DomainError::InvalidHttpStatus { status: expected_status });
        }
        Ok(CheckKind::Http { url, expected_status })
    }

    /// A kind as `CheckKind::http` builds it: trimmed, non-empty URL and a
    /// status in 100..=599.
    pub open spec fn well_formed(&self) -> bool {
        match self@ {
            CheckKindView::Http { url, expected_status } => trimmed(url) == url && url.len() > 0
                && valid_http_status(expected_status),
        }
    }
}

/// Configured health check for a monitored service.
#[derive(Debug, PartialEq, Eq)]
#[non_exhaustive]
pub struct Check {
    pub id: u128,
    pub service_id: u128,
    pub kind: CheckKind,
    pub interval_seconds: u64,
    pub timeout_ms: u64,
    pub enabled: bool,
    pub created_at: Timestamp,
}

/// The value of a check.
pub struct CheckView {
    pub id: u128,
    pub service_id: u128,
    pub kind: CheckKindView,
    pub interval_seconds: u64,
    pub timeout_ms: u64,
    pub enabled: bool,
    pub created_at: Timestamp,
}

impl View for Check {
    type V = CheckView;

    open spec fn view(&self) -> CheckView {
        CheckView {
            id: self.id,
            service_id: self.service_id,
            kind: self.kind@,
            interval_seconds: self.interval_seconds,
            timeout_ms: self.timeout_ms,
            enabled: self.enabled,
            created_at: self.created_at,
        }
    }
}

impl Clone for Check {
    fn clone(&self) -> (copy: Self)
        ensures
            copy == *self,
    {
        Check {
            id: self.id,
            service_id: self.service_id,
            kind: self.kind.clone(),
            interval_seconds: self.interval_seconds,
            timeout_ms: self.timeout_ms,
            enabled: self.enabled,
            created_at: self.created_at,
        }
    }
}

impl Check {
    /// Creates an enabled check with a generated id and creation timestamp.
    pub fn new(service_id: u128, kind: CheckKind, interval_seconds: u64, timeout_ms: u64) -> (check: Result<Self, DomainError>)
        ensures
            match check {
                Ok(c) => interval_seconds > 0 && timeout_ms > 0 && is_random_uuid(c.id)
                    && c.service_id == service_id && c.kind == kind && c.interval_seconds == interval_seconds
                    && c.timeout_ms == timeout_ms && c.enabled && (kind.well_formed() ==> c.well_formed()),
                Err(e) => if interval_seconds == 0 {
                    e == DomainError::ZeroInterval
                } else {
                    timeout_ms == 0 && e == DomainError::ZeroTimeout
                },
            },
    {
        Check::from_persisted(random_uuid(), service_id, kind, interval_seconds, timeout_ms, true, current_time())
    }

    /// Reconstructs a check from previously persisted domain fields.
    pub fn from_persisted(
        id: u128,
        service_id: u128,
        kind: CheckKind,
        interval_seconds: u64,
        timeout_ms: u64,
        enabled: bool,
        created_at: Timestamp,
    ) -> (check: Result<Self, DomainError>)
        ensures
            match check {
                Ok(c) => interval_seconds > 0 && timeout_ms > 0 && c == (Check {
                    id,
                    service_id,
                    kind,
                    interval_seconds,
                    timeout_ms,
                    enabled,
                    created_at,
                }) && (kind.well_formed() ==> c.well_formed()),
                Err(e) => if interval_seconds == 0 {
                    e == DomainError::ZeroInterval
                } else {
                    timeout_ms == 0 && e == DomainError::ZeroTimeout
                },
            },
    {
        if interval_seconds == 0 {
            return Err(DomainError::ZeroInterval);
        }
        if timeout_ms == 0 {
            return Err(DomainError::ZeroTimeout);
        }
        Ok(Check { id, service_id, kind, interval_seconds, timeout_ms, enabled, created_at })
    }

    /// A check as the constructors build it: positive interval and timeout,
    /// and a well-formed kind.
    pub open spec fn well_formed(&self) -> bool {
        self.interval_seconds > 0 && self.timeout_ms > 0 && self.kind.well_formed()
    }
}

} // verus!
