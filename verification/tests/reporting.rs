use healthcheck::check::{Check, CheckKind};
use healthcheck::project::Project;
use healthcheck::reporting::{project_status, service_status, CheckHealth, ProjectSummary, ServiceHealth};
use healthcheck::result::CheckResult;
use healthcheck::service::Service;
use healthcheck::status::{aggregate_status, HealthStatus};

fn check_health(enabled: bool, latest: Option<HealthStatus>) -> CheckHealth {
    let mut check = Check::new(1, CheckKind::http("http://x.test", 200).expect("valid"), 30, 500).expect("valid");
    check.enabled = enabled;
    let latest_result = latest.map(|status| CheckResult::new(check.id, status, 1, None));
    CheckHealth { check, latest_result, recent_history: Vec::new() }
}

#[test]
fn aggregate_of_nothing_is_unknown() {
    assert_eq!(aggregate_status(&[]), HealthStatus::Unknown);
}

#[test]
fn aggregate_uses_severity_order() {
    let (healthy, degraded, unhealthy, unknown) =
        (HealthStatus::Healthy, HealthStatus::Degraded, HealthStatus::Unhealthy, HealthStatus::Unknown);
    assert_eq!(aggregate_status(&[healthy, healthy]), healthy);
    assert_eq!(aggregate_status(&[healthy, unknown]), unknown);
    assert_eq!(aggregate_status(&[unknown, degraded, healthy]), degraded);
    assert_eq!(aggregate_status(&[degraded, unhealthy, unknown]), unhealthy);
}

#[test]
fn service_without_enabled_checks_is_unknown() {
    let checks = vec![check_health(false, Some(HealthStatus::Healthy))];

    assert_eq!(service_status(&checks), HealthStatus::Unknown);
    assert_eq!(service_status(&Vec::new()), HealthStatus::Unknown);
}

#[test]
fn enabled_check_without_result_is_unknown() {
    let checks = vec![check_health(true, Some(HealthStatus::Healthy)), check_health(true, None)];

    assert_eq!(service_status(&checks), HealthStatus::Unknown);
}

#[test]
fn unhealthy_enabled_check_makes_service_unhealthy() {
    let checks = vec![
        check_health(true, None),
        check_health(true, Some(HealthStatus::Unhealthy)),
        check_health(false, Some(HealthStatus::Healthy)),
    ];

    assert_eq!(service_status(&checks), HealthStatus::Unhealthy);
}

#[test]
fn disabled_unhealthy_check_does_not_count() {
    let checks = vec![check_health(true, Some(HealthStatus::Healthy)), check_health(false, Some(HealthStatus::Unhealthy))];

    assert_eq!(service_status(&checks), HealthStatus::Healthy);
}

#[test]
fn project_status_aggregates_services() {
    let project = Project::new("Platform").expect("valid");
    let healthy = ServiceHealth::from_checks(
        Service::new(project.id, "API").expect("valid"),
        vec![check_health(true, Some(HealthStatus::Healthy))],
    );
    let degraded = ServiceHealth::from_checks(
        Service::new(project.id, "Web").expect("valid"),
        vec![check_health(true, Some(HealthStatus::Degraded))],
    );

    assert_eq!(healthy.status, HealthStatus::Healthy);
    assert_eq!(degraded.status, HealthStatus::Degraded);
    let summary = ProjectSummary::from_services(project, vec![healthy, degraded]);
    assert_eq!(summary.status, HealthStatus::Degraded);
    assert_eq!(project_status(&summary.services), HealthStatus::Degraded);
}

#[test]
fn project_without_services_is_unknown() {
    let summary = ProjectSummary::from_services(Project::new("Empty").expect("valid"), Vec::new());

    assert_eq!(summary.status, HealthStatus::Unknown);
}
