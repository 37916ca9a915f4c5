use healthcheck::check::{Check, CheckKind};
use healthcheck::project::Project;
use healthcheck::report_text::{check_lines, format_check, format_result, project_report, service_report, status_name};
use healthcheck::reporting::{CheckHealth, ProjectSummary, ServiceHealth};
use healthcheck::result::CheckResult;
use healthcheck::service::Service;
use healthcheck::status::HealthStatus;
use healthcheck::time::Timestamp;
use uuid::Uuid;

fn at(seconds: i64) -> Timestamp {
    Timestamp::from_unix(seconds, 0).expect("representable")
}

#[test]
fn status_names_are_upper_case() {
    assert_eq!(status_name(HealthStatus::Healthy), "HEALTHY");
    assert_eq!(status_name(HealthStatus::Unknown), "UNKNOWN");
}

#[test]
fn result_line_shows_status_time_duration_and_error() {
    let result = CheckResult::from_persisted(1, 2, at(1_700_000_000), HealthStatus::Unhealthy, 12, Some("boom".to_owned()));

    assert_eq!(format_result(&result), "UNHEALTHY at 2023-11-14T22:13:20+00:00 (12ms) — boom");
}

#[test]
fn result_line_without_error_has_no_suffix() {
    let result = CheckResult::from_persisted(1, 2, at(0), HealthStatus::Healthy, 0, None);

    assert_eq!(format_result(&result), "HEALTHY at 1970-01-01T00:00:00+00:00 (0ms)");
}

#[test]
fn check_line_describes_configuration() {
    let id = Uuid::new_v4();
    let check = Check::from_persisted(
        id.as_u128(),
        2,
        CheckKind::http("http://x.test/health", 204).expect("valid"),
        30,
        5_000,
        false,
        at(0),
    )
    .expect("valid");

    assert_eq!(
        format_check(&check),
        format!("  HTTP http://x.test/health ({id}) [disabled; every 30s; timeout 5000ms; expects 204]")
    );
    let latest = CheckResult::from_persisted(3, id.as_u128(), at(0), HealthStatus::Healthy, 1, None);
    let lines = check_lines(&check, Some(&latest));
    assert_eq!(lines.len(), 2);
    assert_eq!(lines[1], "    latest: HEALTHY at 1970-01-01T00:00:00+00:00 (1ms)");
}

#[test]
fn project_report_lists_services() {
    let project = Project::new("Platform").expect("valid");
    let service = Service::new(project.id, "API").expect("valid");
    let service_id = Uuid::from_u128(service.id);
    let project_id = Uuid::from_u128(project.id);
    let summary = ProjectSummary::from_services(project, vec![ServiceHealth::from_checks(service, Vec::new())]);

    assert_eq!(
        project_report(&summary),
        vec![format!("Project: Platform ({project_id}) [UNKNOWN]"), format!("  API ({service_id}) [UNKNOWN]")]
    );
}

#[test]
fn service_report_lists_checks_and_history() {
    let service = Service::new(1, "API").expect("valid");
    let service_id = Uuid::from_u128(service.id);
    let check = Check::new(service.id, CheckKind::http("http://x.test", 200).expect("valid"), 30, 500).expect("valid");
    let check_line = format_check(&check);
    let latest = CheckResult::from_persisted(7, check.id, at(60), HealthStatus::Healthy, 2, None);
    let older = CheckResult::from_persisted(8, check.id, at(0), HealthStatus::Unhealthy, 3, Some("x".to_owned()));
    let health = ServiceHealth::from_checks(
        service,
        vec![CheckHealth { check, latest_result: Some(latest.clone()), recent_history: vec![latest, older] }],
    );

    assert_eq!(
        service_report(&health),
        vec![
            format!("Service: API ({service_id}) [HEALTHY]"),
            check_line,
            "    latest: HEALTHY at 1970-01-01T00:01:00+00:00 (2ms)".to_owned(),
            "    HEALTHY at 1970-01-01T00:01:00+00:00 (2ms)".to_owned(),
            "    UNHEALTHY at 1970-01-01T00:00:00+00:00 (3ms) — x".to_owned(),
        ]
    );
}
