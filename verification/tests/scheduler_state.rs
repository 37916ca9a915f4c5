use healthcheck::check::{Check, CheckKind};
use healthcheck::scheduler::config::{SchedulerConfig, SchedulerRunStats};
use healthcheck::scheduler::state::{interval_duration, ExecutionCompletion, SchedulerState, TaskOutcome};

const SECOND: u128 = 1_000_000_000;

fn http_check(interval_seconds: u64, enabled: bool) -> Check {
    let mut check = Check::new(
        uuid::Uuid::new_v4().as_u128(),
        CheckKind::http("http://example.test/health", 200).expect("kind is valid"),
        interval_seconds,
        1_000,
    )
    .expect("check is valid");
    check.enabled = enabled;
    check
}

#[test]
fn registered_check_is_due_immediately() {
    let mut state = SchedulerState::new();
    let check = http_check(1, true);
    state.register(check.clone(), 5);

    assert_eq!(state.claim_due_checks(5), vec![check]);
}

#[test]
fn disabled_checks_are_never_claimed() {
    let mut state = SchedulerState::new();
    state.register(http_check(1, false), 0);

    assert!(state.claim_due_checks(0).is_empty());
    assert!(state.claim_due_checks(100 * SECOND).is_empty());
}

#[test]
fn running_check_is_not_claimed_again() {
    let mut state = SchedulerState::new();
    let check = http_check(1, true);
    state.register(check.clone(), 0);

    assert_eq!(state.claim_due_checks(0).len(), 1);
    assert!(state.claim_due_checks(10 * SECOND).is_empty());
}

#[test]
fn completion_uses_fixed_delay() {
    let mut state = SchedulerState::new();
    let check = http_check(3, true);
    state.register(check.clone(), 0);
    state.claim_due_checks(0);
    state.complete(check.id, 2 * SECOND, SECOND);

    assert!(state.claim_due_checks(5 * SECOND - 1).is_empty());
    assert_eq!(state.claim_due_checks(5 * SECOND), vec![check]);
}

#[test]
fn distinct_checks_are_claimed_together_in_registration_order() {
    let mut state = SchedulerState::new();
    let first = http_check(1, true);
    let second = http_check(1, true);
    state.register(first.clone(), 0);
    state.register(second.clone(), 0);

    assert_eq!(state.claim_due_checks(0), vec![first, second]);
}

#[test]
fn re_registering_replaces_the_entry() {
    let mut state = SchedulerState::new();
    let check = http_check(1, true);
    state.register(check.clone(), 0);
    state.claim_due_checks(0);
    state.register(check.clone(), 1);

    assert_eq!(state.claim_due_checks(1), vec![check]);
}

#[test]
fn completing_unknown_check_changes_nothing() {
    let mut state = SchedulerState::new();
    let check = http_check(1, true);
    state.register(check.clone(), 0);
    state.complete(12345, 0, SECOND);

    assert_eq!(state.claim_due_checks(0), vec![check]);
}

#[test]
fn interval_duration_saturates() {
    assert_eq!(interval_duration(3, SECOND), 3 * SECOND);
    assert_eq!(interval_duration(u64::MAX, 1), u32::MAX as u128);
    assert_eq!(interval_duration(10, u128::MAX), 18_446_744_073_709_551_615_999_999_999);
}

#[test]
fn task_completion_updates_stats_and_state() {
    let mut state = SchedulerState::new();
    let mut stats = SchedulerRunStats::default();
    let check = http_check(1, true);
    state.register(check.clone(), 0);
    state.claim_due_checks(0);

    state.handle_task_completion(
        Some(TaskOutcome::Finished(ExecutionCompletion { check_id: check.id, completed_at: SECOND, recorded: false })),
        SECOND,
        &mut stats,
    );
    state.handle_task_completion(Some(TaskOutcome::Failed), SECOND, &mut stats);
    state.handle_task_completion(None, SECOND, &mut stats);

    assert_eq!(stats, SchedulerRunStats { completed_executions: 1, sink_errors: 1, task_failures: 1 });
    assert_eq!(state.claim_due_checks(2 * SECOND), vec![check]);
}

#[test]
fn default_config_ticks_every_quarter_second() {
    let config = SchedulerConfig::default();

    assert_eq!(config.tick_interval, 250_000_000);
    assert_eq!(config.interval_unit, SECOND);
}
