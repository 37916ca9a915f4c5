use healthcheck::result::CheckResult;
use healthcheck::results::memory::InMemoryResultSink;
use healthcheck::results::sink::ResultSinkError;
use healthcheck::status::HealthStatus;
use uuid::Uuid;

#[test]
fn stores_results_in_insertion_order() {
    let mut sink = InMemoryResultSink::new();
    let check_id = Uuid::new_v4().as_u128();
    let first = CheckResult::new(check_id, HealthStatus::Healthy, 10, None);
    let second = CheckResult::new(check_id, HealthStatus::Unhealthy, 20, Some("failed".to_owned()));

    sink.record(first.clone()).expect("record succeeds");
    sink.record(second.clone()).expect("record succeeds");

    assert_eq!(sink.all_results(), vec![first.clone(), second.clone()]);
    assert_eq!(sink.results_for_check(check_id), vec![first, second]);
}

#[test]
fn returns_latest_result_for_check() {
    let mut sink = InMemoryResultSink::new();
    let check_id = Uuid::new_v4().as_u128();
    let other_check_id = Uuid::new_v4().as_u128();
    let first = CheckResult::new(check_id, HealthStatus::Healthy, 10, None);
    let latest = CheckResult::new(check_id, HealthStatus::Unhealthy, 15, None);
    let other = CheckResult::new(other_check_id, HealthStatus::Healthy, 5, None);

    sink.record(first).expect("record succeeds");
    sink.record(other.clone()).expect("record succeeds");
    sink.record(latest.clone()).expect("record succeeds");

    assert_eq!(sink.latest_for_check(check_id), Some(latest));
    assert_eq!(sink.latest_for_check(other_check_id), Some(other));
}

#[test]
fn clears_results() {
    let mut sink = InMemoryResultSink::new();
    let check_id = Uuid::new_v4().as_u128();

    sink.record(CheckResult::new(check_id, HealthStatus::Healthy, 10, None)).expect("record succeeds");

    sink.clear();

    assert!(sink.all_results().is_empty());
}

#[test]
fn results_for_unknown_check_are_empty() {
    let mut sink = InMemoryResultSink::new();
    sink.record(CheckResult::new(1, HealthStatus::Healthy, 1, None)).expect("record succeeds");

    assert!(sink.results_for_check(2).is_empty());
    assert_eq!(sink.latest_for_check(2), None);
}

#[test]
fn results_for_check_skip_other_checks() {
    let mut sink = InMemoryResultSink::new();
    let a1 = CheckResult::new(1, HealthStatus::Healthy, 1, None);
    let b1 = CheckResult::new(2, HealthStatus::Degraded, 2, None);
    let a2 = CheckResult::new(1, HealthStatus::Unknown, 3, None);
    sink.record(a1.clone()).expect("record succeeds");
    sink.record(b1.clone()).expect("record succeeds");
    sink.record(a2.clone()).expect("record succeeds");

    assert_eq!(sink.results_for_check(1), vec![a1, a2]);
    assert_eq!(sink.results_for_check(2), vec![b1]);
}

#[test]
fn result_sink_error_keeps_message() {
    let error = ResultSinkError::new("disk full".to_owned());

    assert_eq!(error.message(), "disk full");
}
