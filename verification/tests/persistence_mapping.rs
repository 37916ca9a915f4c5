use healthcheck::check::{Check, CheckKind};
use healthcheck::error::DomainError;
use healthcheck::persistence::error::PersistenceError;
use healthcheck::persistence::mapping::{
    check_kind_from_db, check_kind_to_db, status_from_db, status_to_db, timestamp_from_db, timestamp_to_db,
    u64_from_db, u64_to_db, uuid_from_db, uuid_to_db,
};
use healthcheck::persistence::rows::{
    check_from_row, check_to_row, project_from_row, project_to_row, result_from_row, result_to_row,
    service_from_row, service_to_row, CheckRow, ProjectRow,
};
use healthcheck::project::Project;
use healthcheck::result::CheckResult;
use healthcheck::service::Service;
use healthcheck::status::HealthStatus;
use healthcheck::time::Timestamp;
use uuid::Uuid;

#[test]
fn uuid_text_is_canonical_and_reads_back() {
    let id = Uuid::new_v4();
    let text = uuid_to_db(id.as_u128());

    assert_eq!(text, id.to_string());
    assert_eq!(uuid_from_db("t.id", text).expect("parses"), id.as_u128());
}

#[test]
fn invalid_uuid_reports_field_and_value() {
    match uuid_from_db("projects.id", "not-a-uuid".to_owned()) {
        Err(PersistenceError::InvalidUuid { field, value, .. }) => {
            assert_eq!(field, "projects.id");
            assert_eq!(value, "not-a-uuid");
        }
        other => panic!("unexpected {other:?}"),
    }
}

#[test]
fn timestamp_text_is_rfc3339_nanos_utc() {
    let t = Timestamp::from_unix(1_700_000_000, 123_456_789).expect("representable");
    let text = timestamp_to_db(t);

    assert_eq!(text, "2023-11-14T22:13:20.123456789Z");
    assert_eq!(timestamp_from_db("x.at", text).expect("parses"), t);
}

#[test]
fn timestamp_with_offset_is_read_as_utc() {
    let t = timestamp_from_db("x.at", "2023-11-14T23:13:20+01:00".to_owned()).expect("parses");

    assert_eq!(t.seconds(), 1_700_000_000);
    assert_eq!(t.nanos(), 0);
}

#[test]
fn invalid_timestamp_reports_field_and_value() {
    match timestamp_from_db("checks.created_at", "yesterday".to_owned()) {
        Err(PersistenceError::InvalidTimestamp { field, value, .. }) => {
            assert_eq!(field, "checks.created_at");
            assert_eq!(value, "yesterday");
        }
        other => panic!("unexpected {other:?}"),
    }
}

#[test]
fn u64_columns_fit_i64() {
    assert_eq!(u64_to_db(42, "f").expect("fits"), 42);
    match u64_to_db(u64::MAX, "checks.timeout_ms") {
        Err(PersistenceError::NumericOutOfRange { field, value }) => {
            assert_eq!(field, "checks.timeout_ms");
            assert_eq!(value, i64::MAX);
        }
        other => panic!("unexpected {other:?}"),
    }
    assert_eq!(u64_from_db("f", 7).expect("non-negative"), 7);
    match u64_from_db("check_results.duration_ms", -1) {
        Err(PersistenceError::NumericOutOfRange { field, value }) => {
            assert_eq!(field, "check_results.duration_ms");
            assert_eq!(value, -1);
        }
        other => panic!("unexpected {other:?}"),
    }
}

#[test]
fn status_names_round_trip() {
    for status in [HealthStatus::Healthy, HealthStatus::Degraded, HealthStatus::Unhealthy, HealthStatus::Unknown] {
        assert_eq!(status_from_db(status_to_db(status).to_owned()).expect("known name"), status);
    }
    assert_eq!(status_to_db(HealthStatus::Degraded), "DEGRADED");
}

#[test]
fn invalid_persisted_enum_value_fails_cleanly() {
    match status_from_db("BOUNCY".to_owned()) {
        Err(PersistenceError::InvalidEnum { kind, value }) => {
            assert_eq!(kind, "health_status");
            assert_eq!(value, "BOUNCY");
        }
        other => panic!("unexpected {other:?}"),
    }
}

#[test]
fn check_kind_columns_round_trip() {
    let kind = CheckKind::http("https://example.test/health", 200).expect("valid");
    let (name, url, status) = check_kind_to_db(&kind);

    assert_eq!((name, url, status), ("HTTP", "https://example.test/health", 200));
    assert_eq!(check_kind_from_db(name.to_owned(), url.to_owned(), i64::from(status)).expect("valid"), kind);
}

#[test]
fn check_kind_errors_come_in_order() {
    assert!(matches!(
        check_kind_from_db("TCP".to_owned(), "x".to_owned(), 200),
        Err(PersistenceError::InvalidEnum { kind: "check_kind", .. })
    ));
    assert!(matches!(
        check_kind_from_db("HTTP".to_owned(), "x".to_owned(), 70_000),
        Err(PersistenceError::NumericOutOfRange { field: "checks.expected_status", value: 70_000 })
    ));
    assert!(matches!(
        check_kind_from_db("HTTP".to_owned(), "  ".to_owned(), 200),
        Err(PersistenceError::InvalidDomain(DomainError::EmptyHttpUrl))
    ));
    assert!(matches!(
        check_kind_from_db("HTTP".to_owned(), "x".to_owned(), 42),
        Err(PersistenceError::InvalidDomain(DomainError::InvalidHttpStatus { status: 42 }))
    ));
}

#[test]
fn project_row_round_trip() {
    let project = Project::new("Core").expect("valid");
    let row = project_to_row(&project);

    assert_eq!(row.name, "Core");
    assert_eq!(project_from_row(row).expect("reads back"), project);
}

#[test]
fn project_row_with_blank_name_is_invalid_domain() {
    let project = Project::new("Core").expect("valid");
    let mut row = project_to_row(&project);
    row.name = "   ".to_owned();

    assert!(matches!(
        project_from_row(row),
        Err(PersistenceError::InvalidDomain(DomainError::EmptyName { entity: "project" }))
    ));
}

#[test]
fn project_row_reports_bad_id_first() {
    let row = ProjectRow { id: "x".to_owned(), name: "".to_owned(), created_at: "y".to_owned() };

    assert!(matches!(project_from_row(row), Err(PersistenceError::InvalidUuid { field: "projects.id", .. })));
}

#[test]
fn service_row_round_trip() {
    let project = Project::new("Core").expect("valid");
    let service = Service::new(project.id, "API").expect("valid");
    let row = service_to_row(&service);

    assert_eq!(row.project_id, Uuid::from_u128(project.id).to_string());
    assert_eq!(service_from_row(row).expect("reads back"), service);
}

#[test]
fn http_check_row_round_trip() {
    let mut check = Check::new(
        Uuid::new_v4().as_u128(),
        CheckKind::http("https://example.test/disabled", 204).expect("valid"),
        45,
        750,
    )
    .expect("valid");
    check.enabled = false;
    let row = check_to_row(&check).expect("fits");

    assert_eq!(row.kind, "HTTP");
    assert_eq!(row.expected_status, 204);
    assert_eq!(row.interval_seconds, 45);
    assert_eq!(row.timeout_ms, 750);
    assert_eq!(row.enabled, 0);
    assert_eq!(check_from_row(row).expect("reads back"), check);
}

#[test]
fn check_row_rejects_huge_interval() {
    let mut check = Check::new(1, CheckKind::http("http://x.test", 200).expect("valid"), 30, 500).expect("valid");
    check.interval_seconds = u64::MAX;

    assert!(matches!(
        check_to_row(&check),
        Err(PersistenceError::NumericOutOfRange { field: "checks.interval_seconds", value: i64::MAX })
    ));
}

#[test]
fn check_row_with_zero_interval_is_invalid_domain() {
    let check = Check::new(1, CheckKind::http("http://x.test", 200).expect("valid"), 30, 500).expect("valid");
    let row = CheckRow { interval_seconds: 0, ..check_to_row(&check).expect("fits") };

    assert!(matches!(check_from_row(row), Err(PersistenceError::InvalidDomain(DomainError::ZeroInterval))));
}

#[test]
fn check_row_nonzero_enabled_means_enabled() {
    let mut check = Check::new(1, CheckKind::http("http://x.test", 200).expect("valid"), 30, 500).expect("valid");
    check.enabled = false;
    let row = CheckRow { enabled: 7, ..check_to_row(&check).expect("fits") };

    assert!(check_from_row(row).expect("reads back").enabled);
}

#[test]
fn check_result_row_round_trip() {
    let result = CheckResult::new(
        Uuid::new_v4().as_u128(),
        HealthStatus::Unhealthy,
        15,
        Some("expected HTTP 200, received HTTP 503".to_owned()),
    );
    let row = result_to_row(&result).expect("fits");

    assert_eq!(row.status, "UNHEALTHY");
    assert_eq!(result_from_row(row).expect("reads back"), result);
}

#[test]
fn check_result_row_with_unknown_status_fails() {
    let result = CheckResult::new(1, HealthStatus::Healthy, 1, None);
    let mut row = result_to_row(&result).expect("fits");
    row.status = "BOUNCY".to_owned();

    assert!(matches!(result_from_row(row), Err(PersistenceError::InvalidEnum { kind: "health_status", .. })));
}
