use chrono::Utc;
use healthcheck::check::{Check, CheckKind};
use healthcheck::error::DomainError;
use healthcheck::project::Project;
use healthcheck::result::CheckResult;
use healthcheck::service::Service;
use healthcheck::status::HealthStatus;
use healthcheck::time::Timestamp;
use uuid::Uuid;

fn now() -> Timestamp {
    let now = Utc::now();
    Timestamp::from_unix(now.timestamp(), now.timestamp_subsec_nanos()).expect("chrono instants are representable")
}

fn new_id() -> u128 {
    Uuid::new_v4().as_u128()
}

#[test]
fn creates_valid_http_check() {
    let service_id = new_id();
    let kind = CheckKind::http("https://example.com/health", 200).expect("kind is valid");
    let check = Check::new(service_id, kind.clone(), 30, 1_000).expect("check is valid");

    assert_eq!(check.service_id, service_id);
    assert_eq!(check.kind, kind);
    assert_eq!(check.interval_seconds, 30);
    assert_eq!(check.timeout_ms, 1_000);
    assert!(check.enabled);
    assert_ne!(check.id, Uuid::nil().as_u128());
}

#[test]
fn rejects_zero_interval() {
    let kind = CheckKind::http("https://example.com/health", 200).expect("kind is valid");
    let error = Check::new(new_id(), kind, 0, 1_000).expect_err("zero interval should fail");

    assert_eq!(error, DomainError::ZeroInterval);
}

#[test]
fn rejects_zero_timeout() {
    let kind = CheckKind::http("https://example.com/health", 200).expect("kind is valid");
    let error = Check::new(new_id(), kind, 30, 0).expect_err("zero timeout should fail");

    assert_eq!(error, DomainError::ZeroTimeout);
}

#[test]
fn accepts_valid_expected_http_status() {
    let kind = CheckKind::http("https://example.com/health", 599).expect("status is valid");

    assert_eq!(
        kind,
        CheckKind::Http {
            url: "https://example.com/health".to_owned(),
            expected_status: 599,
        }
    );
}

#[test]
fn rejects_invalid_expected_http_status() {
    let error = CheckKind::http("https://example.com/health", 99).expect_err("status below 100 should fail");

    assert_eq!(error, DomainError::InvalidHttpStatus { status: 99 });
}

#[test]
fn rejects_empty_http_url() {
    let error = CheckKind::http("  ", 200).expect_err("blank URL should fail");

    assert_eq!(error, DomainError::EmptyHttpUrl);
}

#[test]
fn reconstructs_persisted_check() {
    let id = new_id();
    let service_id = new_id();
    let created_at = now();
    let kind = CheckKind::http("https://example.com/health", 204).expect("kind is valid");
    let check = Check::from_persisted(id, service_id, kind.clone(), 60, 500, false, created_at).expect("check is valid");

    assert_eq!(check.id, id);
    assert_eq!(check.service_id, service_id);
    assert_eq!(check.kind, kind);
    assert_eq!(check.interval_seconds, 60);
    assert_eq!(check.timeout_ms, 500);
    assert!(!check.enabled);
    assert_eq!(check.created_at, created_at);
}

#[test]
fn health_status_supports_equality_and_serde() {
    assert_eq!(HealthStatus::Healthy, HealthStatus::Healthy);
    assert_ne!(HealthStatus::Healthy, HealthStatus::Unhealthy);
    assert_copy_and_eq::<HealthStatus>();
}

fn assert_copy_and_eq<T>()
where
    T: Copy + Eq + std::fmt::Debug,
{
}

#[test]
fn creates_project_with_valid_name() {
    let project = Project::new("Platform").expect("project should be valid");

    assert_eq!(project.name, "Platform");
    assert_ne!(project.id, Uuid::nil().as_u128());
}

#[test]
fn trims_project_name() {
    let project = Project::new(" Platform ").expect("project should be valid");

    assert_eq!(project.name, "Platform");
}

#[test]
fn rejects_empty_project_name() {
    let error = Project::new("   ").expect_err("blank project name should fail");

    assert_eq!(error, DomainError::EmptyName { entity: "project" });
}

#[test]
fn reconstructs_persisted_project() {
    let id = new_id();
    let created_at = now();
    let project = Project::from_persisted(id, "Persisted", created_at).expect("project is valid");

    assert_eq!(project.id, id);
    assert_eq!(project.created_at, created_at);
}

#[test]
fn creates_check_result() {
    let check_id = new_id();
    let result = CheckResult::new(check_id, HealthStatus::Unhealthy, 250, Some("connection refused".to_owned()));

    assert_eq!(result.check_id, check_id);
    assert_eq!(result.status, HealthStatus::Unhealthy);
    assert_eq!(result.duration_ms, 250);
    assert_eq!(result.error.as_deref(), Some("connection refused"));
    assert_ne!(result.id, Uuid::nil().as_u128());
}

#[test]
fn reconstructs_persisted_check_result() {
    let id = new_id();
    let check_id = new_id();
    let checked_at = now();
    let result = CheckResult::from_persisted(id, check_id, checked_at, HealthStatus::Healthy, 12, None);

    assert_eq!(result.id, id);
    assert_eq!(result.check_id, check_id);
    assert_eq!(result.checked_at, checked_at);
}

#[test]
fn creates_service_with_valid_name() {
    let project_id = new_id();
    let service = Service::new(project_id, "API").expect("service should be valid");

    assert_eq!(service.project_id, project_id);
    assert_eq!(service.name, "API");
    assert_ne!(service.id, Uuid::nil().as_u128());
}

#[test]
fn rejects_empty_service_name() {
    let error = Service::new(new_id(), "\t\n").expect_err("blank service name should fail");

    assert_eq!(error, DomainError::EmptyName { entity: "service" });
}

#[test]
fn reconstructs_persisted_service() {
    let id = new_id();
    let project_id = new_id();
    let created_at = now();
    let service = Service::from_persisted(id, project_id, "API", created_at).expect("service is valid");

    assert_eq!(service.id, id);
    assert_eq!(service.project_id, project_id);
    assert_eq!(service.created_at, created_at);
}

#[test]
fn generated_ids_are_random_version_four_uuids() {
    let project = Project::new("Versioned").expect("project is valid");
    let parsed = Uuid::from_u128(project.id);

    assert_eq!(parsed.get_version_num(), 4);
}

#[test]
fn service_name_is_trimmed_and_rejection_keeps_entity() {
    let service = Service::new(new_id(), "  API \n").expect("service is valid");

    assert_eq!(service.name, "API");
}

#[test]
fn rejects_status_above_range_and_accepts_lower_bound() {
    assert_eq!(
        CheckKind::http("http://x.test", 600).expect_err("600 is out of range"),
        DomainError::InvalidHttpStatus { status: 600 }
    );
    assert!(CheckKind::http("http://x.test", 100).is_ok());
}

#[test]
fn empty_url_is_reported_before_bad_status() {
    assert_eq!(CheckKind::http(" ", 42).expect_err("both invalid"), DomainError::EmptyHttpUrl);
}

#[test]
fn zero_interval_is_reported_before_zero_timeout() {
    let kind = CheckKind::http("http://x.test", 200).expect("kind is valid");

    assert_eq!(Check::new(new_id(), kind, 0, 0).expect_err("both zero"), DomainError::ZeroInterval);
}

#[test]
fn http_kind_url_is_trimmed() {
    let kind = CheckKind::http("  http://x.test/health  ", 204).expect("kind is valid");

    assert_eq!(kind, CheckKind::Http { url: "http://x.test/health".to_owned(), expected_status: 204 });
}

#[test]
fn timestamps_outside_chrono_range_are_rejected() {
    assert!(Timestamp::from_unix(i64::MAX, 0).is_none());
    let epoch = Timestamp::from_unix(0, 0).expect("epoch is representable");
    assert_eq!(epoch.seconds(), 0);
    assert_eq!(epoch.nanos(), 0);
}
