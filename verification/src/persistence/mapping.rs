//! Conversions between domain values and stored column values.

use vstd::prelude::*;

use crate::check::{CheckKind, CheckKindView};
use crate::error::DomainError;
use crate::ids::{format_uuid, parse_uuid, uuid_parse, uuid_text};
use crate::persistence::error::PersistenceError;
use crate::status::HealthStatus;
use crate::text::trimmed;
use crate::time::{format_rfc3339_nanos, in_rfc3339_range, parse_rfc3339, rfc3339_nanos_text, rfc3339_parse, Timestamp};

verus! {

broadcast use crate::time::group_timestamp;

/// The stored text of a UUID.
pub fn uuid_to_db(id: u128) -> (text: String)
    ensures
        text@ == uuid_text(id),
        uuid_parse(text@) == Some(id),
{
    format_uuid(id)
}

/// Reads a stored UUID; `field` names the column for the error.
pub fn uuid_from_db(field: &'static str, value: String) -> (id: Result<u128, PersistenceError>)
    ensures
        match id {
            Ok(v) => uuid_parse(value@) == Some(v),
            Err(e) => uuid_parse(value@) is None && (e matches PersistenceError::InvalidUuid { field: f, value: v, .. }
                && f == field && v@ == value@),
        },
{
    match parse_uuid(value.as_str()) {
        Ok(id) => Ok(id),
        Err(source) => Err(PersistenceError::InvalidUuid { field, value, source }),
    }
}

/// The instant a parsed RFC 3339 text denotes.
pub open spec fn parsed_instant(text: Seq<char>) -> Timestamp {
    match rfc3339_parse(text) {
        Some((seconds, nanos)) => Timestamp::at(seconds, nanos),
        None => Timestamp::at(0, 0),
    }
}

/// The stored text of a timestamp: UTC RFC 3339 with nanoseconds and `Z`.
pub fn timestamp_to_db(timestamp: Timestamp) -> (text: String)
    ensures
        text@ == rfc3339_nanos_text(timestamp.secs(), timestamp.subsec()),
        in_rfc3339_range(timestamp) ==> rfc3339_parse(text@) == Some((timestamp.secs(), timestamp.subsec())),
{
    proof {
        use_type_invariant(&timestamp);
        crate::time::lemma_representable(timestamp);
    }
    format_rfc3339_nanos(timestamp)
}

/// Reads a stored RFC 3339 timestamp as a UTC instant.
pub fn timestamp_from_db(field: &'static str, value: String) -> (timestamp: Result<Timestamp, PersistenceError>)
    ensures
        match timestamp {
            Ok(t) => rfc3339_parse(value@) is Some && t == parsed_instant(value@),
            Err(e) => rfc3339_parse(value@) is None && (e matches PersistenceError::InvalidTimestamp { field: f, value: v, .. }
                && f == field && v@ == value@),
        },
{
    match parse_rfc3339(value.as_str()) {
        Ok(t) => Ok(t),
        Err(source) => Err(PersistenceError::InvalidTimestamp { field, value, source }),
    }
}

/// Stores an unsigned value in a signed 64-bit column; values above
/// `i64::MAX` are rejected (the error reports `i64::MAX`, the column's limit).
pub fn u64_to_db(value: u64, field: &'static str) -> (stored: Result<i64, PersistenceError>)
    ensures
        match stored {
            Ok(v) => value <= i64::MAX && v == value,
            Err(e) => value > i64::MAX && e == (PersistenceError::NumericOutOfRange { field, value: i64::MAX }),
        },
{
    if value > 9_223_372_036_854_775_807u64 {
        Err(PersistenceError::NumericOutOfRange { field, value: 9_223_372_036_854_775_807i64 })
    } else {
        Ok(value as i64)
    }
}

/// Reads an unsigned value from a signed 64-bit column; negative values are rejected.
pub fn u64_from_db(field: &'static str, value: i64) -> (read: Result<u64, PersistenceError>)
    ensures
        match read {
            Ok(v) => value >= 0 && v == value,
            Err(e) => value < 0 && e == (PersistenceError::NumericOutOfRange { field, value }),
        },
{
    if value < 0 {
        Err(PersistenceError::NumericOutOfRange { field, value })
    } else {
        Ok(value as u64)
    }
}

/// The stored name of a health status.
pub open spec fn status_text(status: HealthStatus) -> Seq<char> {
    match status {
        HealthStatus::Healthy => "HEALTHY"@,
        HealthStatus::Degraded => "DEGRADED"@,
        HealthStatus::Unhealthy => "UNHEALTHY"@,
        HealthStatus::Unknown => "UNKNOWN"@,
    }
}

/// The health status a stored name denotes (meaningful when `is_status_text`).
pub open spec fn status_named(text: Seq<char>) -> HealthStatus {
    choose|s: HealthStatus| status_text(s) == text
}

/// Whether a text is the stored name of some health status.
pub open spec fn is_status_text(text: Seq<char>) -> bool {
    exists|s: HealthStatus| status_text(s) == text
}

/// The stored name of a health status.
pub fn status_to_db(status: HealthStatus) -> (text: &'static str)
    ensures
        text@ == status_text(status),
{
    match status {
        HealthStatus::Healthy => "HEALTHY",
        HealthStatus::Degraded => "DEGRADED",
        HealthStatus::Unhealthy => "UNHEALTHY",
        HealthStatus::Unknown => "UNKNOWN",
    }
}

/// Whether a string holds exactly the characters of `literal`.
fn text_is(value: &String, literal: &str) -> (same: bool)
    ensures
        same == (value@ == literal@),
{
    *value == String::from_str(literal)
}

/// Reads a stored health status name.
pub fn status_from_db(value: String) -> (status: Result<HealthStatus, PersistenceError>)
    ensures
        match status {
            Ok(s) => status_text(s) == value@,
            Err(e) => !is_status_text(value@) && (e matches PersistenceError::InvalidEnum { kind: k, value: v }
                && k == "health_status" && v@ == value@),
        },
{
    if text_is(&value, "HEALTHY") {
        Ok(HealthStatus::Healthy)
    } else if text_is(&value, "DEGRADED") {
        Ok(HealthStatus::Degraded)
    } else if text_is(&value, "UNHEALTHY") {
        Ok(HealthStatus::Unhealthy)
    } else if text_is(&value, "UNKNOWN") {
        Ok(HealthStatus::Unknown)
    } else {
        proof {
            assert forall|s: HealthStatus| status_text(s) != value@ by {
                match s {
                    HealthStatus::Healthy => {},
                    HealthStatus::Degraded => {},
                    HealthStatus::Unhealthy => {},
                    HealthStatus::Unknown => {},
                }
            }
        }
        Err(PersistenceError::InvalidEnum { kind: "health_status", value })
    }
}

/// The stored name of the HTTP check kind.
pub open spec fn http_kind_text() -> Seq<char> {
    "HTTP"@
}

/// The stored columns of a check kind: its kind name, URL and expected status.
pub fn check_kind_to_db(kind: &CheckKind) -> (columns: (&'static str, &str, u16))
    ensures
        columns.0@ == http_kind_text(),
        kind@ == (CheckKindView::Http { url: columns.1@, expected_status: columns.2 }),
{
    match kind {
        CheckKind::Http { url, expected_status } => ("HTTP", url.as_str(), *expected_status),
    }
}

/// The error `check_kind_from_db` reports for columns that are not a valid kind.
pub open spec fn check_kind_error(e: PersistenceError, kind: Seq<char>, url: Seq<char>, expected_status: i64) -> bool {
    if kind != http_kind_text() {
        e matches PersistenceError::InvalidEnum { kind: k, value: v } && k == "check_kind" && v@ == kind
    } else if !(0 <= expected_status <= u16::MAX) {
        e == (PersistenceError::NumericOutOfRange { field: "checks.expected_status", value: expected_status })
    } else if trimmed(url).len() == 0 {
        e == PersistenceError::InvalidDomain(DomainError::EmptyHttpUrl)
    } else {
        e == PersistenceError::InvalidDomain(DomainError::InvalidHttpStatus { status: expected_status as u16 })
    }
}

/// Whether stored check-kind columns describe a valid kind.
pub open spec fn check_kind_columns_valid(kind: Seq<char>, url: Seq<char>, expected_status: i64) -> bool {
    &&& kind == http_kind_text()
    &&& 0 <= expected_status <= u16::MAX
    &&& trimmed(url).len() > 0
    &&& 100 <= expected_status <= 599
}

/// Reads stored check-kind columns: the kind name must be `HTTP`, the status
/// must fit a `u16`, and the values must pass `CheckKind::http`.
pub fn check_kind_from_db(kind: String, url: String, expected_status: i64) -> (read: Result<CheckKind, PersistenceError>)
    ensures
        match read {
            Ok(k) => check_kind_columns_valid(kind@, url@, expected_status)
                && k@ == (CheckKindView::Http { url: trimmed(url@), expected_status: expected_status as u16 }),
            Err(e) => !check_kind_columns_valid(kind@, url@, expected_status)
                && check_kind_error(e, kind@, url@, expected_status),
        },
{
    if text_is(&kind, "HTTP") {
        if expected_status < 0 || expected_status > 65535 {
            return Err(PersistenceError::NumericOutOfRange { field: "checks.expected_status", value: expected_status });
        }
        match CheckKind::http(url.as_str(), expected_status as u16) {
            Ok(k) => Ok(k),
            Err(e) => Err(PersistenceError::InvalidDomain(e)),
        }
    } else {
        Err(PersistenceError::InvalidEnum { kind: "check_kind", value: kind })
    }
}

/// Law: every health status is read back from its stored name, and distinct
/// statuses have distinct names.
pub proof fn law_status_round_trip(status: HealthStatus, other: HealthStatus)
    ensures
        is_status_text(status_text(status)),
        status_text(status) == status_text(other) ==> status == other,
{
    reveal_strlit("HEALTHY");
    reveal_strlit("DEGRADED");
    reveal_strlit("UNHEALTHY");
    reveal_strlit("UNKNOWN");
    assert("HEALTHY"@[0] == 'H');
    assert("DEGRADED"@[0] == 'D');
    assert("UNHEALTHY"@[2] == 'H');
    assert("UNKNOWN"@[2] == 'K');
}

} // verus!
