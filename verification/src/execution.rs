//! Interpreting the outcome of one HTTP check execution. Sending the request
//! is the runtime's; what the outcome means is decided here:
//!
//! - `Healthy`: the request completed with the configured expected status;
//! - `Unhealthy`: an unexpected status, a failed request or a timeout;
//! - `Unknown`: the executor cannot run the check's kind at all.

use vstd::prelude::*;

use crate::check::Check;
use crate::result::{optional_text, CheckResult};
use crate::status::HealthStatus;
use crate::text::{decimal, push_decimal};

verus! {

/// What happened to one HTTP request.
#[derive(Debug, Clone, PartialEq, Eq)]
pub enum HttpOutcome {
    /// The request completed with this HTTP status.
    Response { status: u16 },
    /// The request did not complete within the check's timeout.
    TimedOut,
    /// The request failed (connection, DNS, TLS, ...); the text describes why.
    Failed { message: String },
}

/// The error text for an unexpected HTTP status.
pub open spec fn unexpected_status_text(expected: u16, received: u16) -> Seq<char> {
    "expected HTTP "@ + decimal(expected as nat) + ", received HTTP "@ + decimal(received as nat)
}

/// The error text for a timed-out request.
pub open spec fn timeout_text(timeout_ms: u64) -> Seq<char> {
    "HTTP request timed out after "@ + decimal(timeout_ms as nat) + " ms"@
}

/// The error text for a failed request.
pub open spec fn failure_text(message: Seq<char>) -> Seq<char> {
    "HTTP request failed: "@ + message
}

/// The status an outcome means for a check expecting `expected_status`.
pub open spec fn outcome_status(expected_status: u16, outcome: HttpOutcome) -> HealthStatus {
    match outcome {
        HttpOutcome::Response { status } => if status == expected_status {
            HealthStatus::Healthy
        } else {
            HealthStatus::Unhealthy
        },
        _ => HealthStatus::Unhealthy,
    }
}

/// The error text an outcome carries, if any.
pub open spec fn outcome_error(expected_status: u16, timeout_ms: u64, outcome: HttpOutcome) -> Option<Seq<char>> {
    match outcome {
        HttpOutcome::Response { status } => if status == expected_status {
            None
        } else {
            Some(unexpected_status_text(expected_status, status))
        },
        HttpOutcome::TimedOut => Some(timeout_text(timeout_ms)),
        HttpOutcome::Failed { message } => Some(failure_text(message@)),
    }
}

/// Interprets an HTTP outcome: the expected status is healthy; another
/// status, a timeout or a failure is unhealthy, with an error text.
pub fn interpret_http_outcome(expected_status: u16, timeout_ms: u64, outcome: &HttpOutcome) -> (interpreted: (HealthStatus, Option<String>))
    ensures
        interpreted.0 == outcome_status(expected_status, *outcome),
        optional_text(interpreted.1) == outcome_error(expected_status, timeout_ms, *outcome),
{
    match outcome {
        HttpOutcome::Response { status } => {
            if *status == expected_status {
                (HealthStatus::Healthy, None)
            } else {
                let mut text = String::from_str("expected HTTP ");
                push_decimal(&mut text, expected_status as u64);
                text.append(", received HTTP ");
                push_decimal(&mut text, *status as u64);
                (HealthStatus::Unhealthy, Some(text))
            }
        },
        HttpOutcome::TimedOut => {
            let mut text = String::from_str("HTTP request timed out after ");
            push_decimal(&mut text, timeout_ms);
            text.append(" ms");
            (HealthStatus::Unhealthy, Some(text))
        },
        HttpOutcome::Failed { message } => {
            let mut text = String::from_str("HTTP request failed: ");
            text.append(message.as_str());
            (HealthStatus::Unhealthy, Some(text))
        },
    }
}

/// The result of one HTTP execution of `check` (expecting `expected_status`)
/// that took `duration_ms`.
pub fn http_check_result(check: &Check, expected_status: u16, outcome: &HttpOutcome, duration_ms: u64) -> (result: CheckResult)
    ensures
        result.check_id == check.id,
        result.status == outcome_status(expected_status, *outcome),
        optional_text(result.error) == outcome_error(expected_status, check.timeout_ms, *outcome),
        result.duration_ms == duration_ms,
{
    let (status, error) = interpret_http_outcome(expected_status, check.timeout_ms, outcome);
    CheckResult::new(check.id, status, duration_ms, error)
}

/// Law: a completed request is healthy exactly when it returned the expected
/// status, and unhealthy for every other status; a timeout or a failure is
/// unhealthy. No outcome is `Degraded` or `Unknown`, and only an unexpected
/// status, a timeout or a failure carries an error text.
pub proof fn law_http_outcome_meaning(expected_status: u16, timeout_ms: u64, outcome: HttpOutcome)
    ensures
        outcome_status(expected_status, outcome) == HealthStatus::Healthy
            <==> outcome == (HttpOutcome::Response { status: expected_status }),
        outcome_status(expected_status, outcome) == HealthStatus::Healthy
            || outcome_status(expected_status, outcome) == HealthStatus::Unhealthy,
        forall|received: u16| received != expected_status ==>
            #[trigger] outcome_status(expected_status, HttpOutcome::Response { status: received }) == HealthStatus::Unhealthy,
        outcome_error(expected_status, timeout_ms, outcome) is None
            <==> outcome_status(expected_status, outcome) == HealthStatus::Healthy,
{
}

/// The error text for a check kind the HTTP executor cannot run.
pub open spec fn unsupported_text() -> Seq<char> {
    "unsupported check kind for HTTP executor"@
}

/// The result for a check whose kind the HTTP executor cannot run: `Unknown`,
/// zero duration, and an explanatory error text.
pub fn unsupported_check_result(check: &Check) -> (result: CheckResult)
    ensures
        result.check_id == check.id,
        result.status == HealthStatus::Unknown,
        result.duration_ms == 0,
        optional_text(result.error) == Some(unsupported_text()),
{
    CheckResult::new(check.id, HealthStatus::Unknown, 0, Some(String::from_str("unsupported check kind for HTTP executor")))
}

/// Elapsed whole milliseconds as a `u64`, saturating at `u64::MAX`.
pub fn elapsed_millis(millis: u128) -> (clamped: u64)
    ensures
        clamped == if millis > u64::MAX { u64::MAX as int } else { millis as int },
{
    if millis > 18_446_744_073_709_551_615u128 {
        18_446_744_073_709_551_615u64
    } else {
        millis as u64
    }
}

} // verus!
