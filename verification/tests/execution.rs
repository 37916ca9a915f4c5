use healthcheck::check::{Check, CheckKind};
use healthcheck::execution::{elapsed_millis, http_check_result, interpret_http_outcome, unsupported_check_result, HttpOutcome};
use healthcheck::status::HealthStatus;

fn http_check(timeout_ms: u64) -> Check {
    Check::new(1, CheckKind::http("http://127.0.0.1/health", 200).expect("valid"), 30, timeout_ms).expect("valid")
}

#[test]
fn expected_http_status_returns_healthy() {
    let check = http_check(1_000);
    let result = http_check_result(&check, 200, &HttpOutcome::Response { status: 200 }, 3);

    assert_eq!(result.check_id, check.id);
    assert_eq!(result.status, HealthStatus::Healthy);
    assert_eq!(result.error, None);
    assert_eq!(result.duration_ms, 3);
}

#[test]
fn unexpected_http_status_returns_unhealthy() {
    let check = http_check(1_000);
    let result = http_check_result(&check, 200, &HttpOutcome::Response { status: 503 }, 3);

    assert_eq!(result.status, HealthStatus::Unhealthy);
    assert_eq!(result.error.as_deref(), Some("expected HTTP 200, received HTTP 503"));
}

#[test]
fn timeout_returns_unhealthy_without_panic() {
    let check = http_check(25);
    let result = http_check_result(&check, 200, &HttpOutcome::TimedOut, 26);

    assert_eq!(result.status, HealthStatus::Unhealthy);
    assert_eq!(result.error.as_deref(), Some("HTTP request timed out after 25 ms"));
}

#[test]
fn connection_failure_returns_unhealthy_without_panic() {
    let (status, error) =
        interpret_http_outcome(200, 1_000, &HttpOutcome::Failed { message: "connection closed".to_owned() });

    assert_eq!(status, HealthStatus::Unhealthy);
    assert!(error.as_deref().is_some_and(|error| error.starts_with("HTTP request failed:")));
    assert_eq!(error.as_deref(), Some("HTTP request failed: connection closed"));
}

#[test]
fn unsupported_kind_is_unknown() {
    let check = http_check(1_000);
    let result = unsupported_check_result(&check);

    assert_eq!(result.status, HealthStatus::Unknown);
    assert_eq!(result.duration_ms, 0);
    assert_eq!(result.error.as_deref(), Some("unsupported check kind for HTTP executor"));
}

#[test]
fn elapsed_millis_saturates() {
    assert_eq!(elapsed_millis(25), 25);
    assert_eq!(elapsed_millis(u128::MAX), u64::MAX);
}

#[test]
fn large_status_numbers_are_written_in_full() {
    let (_, error) = interpret_http_outcome(599, 0, &HttpOutcome::Response { status: 100 });

    assert_eq!(error.as_deref(), Some("expected HTTP 599, received HTTP 100"));
}
