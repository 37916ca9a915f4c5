//! The column values of stored projects, services, checks and check results,
//! and the conversions between them and domain values. A row read back from
//! what a domain value was stored as gives that value again.

use vstd::prelude::*;

use crate::check::{Check, CheckKindView, CheckView};
use crate::error::DomainError;
use crate::ids::{uuid_parse, uuid_text};
use crate::persistence::error::PersistenceError;
use crate::persistence::mapping::{
    check_kind_columns_valid, check_kind_error, check_kind_to_db, http_kind_text, is_status_text,
    law_status_round_trip, parsed_instant, status_named, status_text, status_to_db, timestamp_from_db,
    timestamp_to_db, u64_from_db, u64_to_db, uuid_from_db, uuid_to_db, check_kind_from_db, status_from_db,
};
use crate::project::{valid_name, Project, ProjectView};
use crate::result::{optional_text, CheckResult, CheckResultView};
use crate::service::{Service, ServiceView};
use crate::text::trimmed;
use crate::time::{in_rfc3339_range, rfc3339_nanos_text, rfc3339_parse, Timestamp};

verus! {

broadcast use crate::time::group_timestamp;

/// A column holds the stored text of `id`, which reads back as `id`.
pub open spec fn stores_uuid(text: Seq<char>, id: u128) -> bool {
    text == uuid_text(id) && uuid_parse(text) == Some(id)
}

/// A column holds the stored text of `t`, which reads back as `t` when `t`
/// lies in the years 0000..=9999.
pub open spec fn stores_timestamp(text: Seq<char>, t: Timestamp) -> bool {
    text == rfc3339_nanos_text(t.secs(), t.subsec()) && (in_rfc3339_range(t) ==> rfc3339_parse(text) == Some((t.secs(), t.subsec())))
}

/// The error reported for a UUID column that does not parse.
pub open spec fn uuid_error(e: PersistenceError, field: &'static str, value: Seq<char>) -> bool {
    e matches PersistenceError::InvalidUuid { field: f, value: v, .. } && f == field && v@ == value
}

/// The error reported for a timestamp column that does not parse.
pub open spec fn timestamp_error(e: PersistenceError, field: &'static str, value: Seq<char>) -> bool {
    e matches PersistenceError::InvalidTimestamp { field: f, value: v, .. } && f == field && v@ == value
}

// ---------------------------------------------------------------- projects

/// The columns of a stored project.
#[derive(Debug, Clone, PartialEq, Eq)]
pub struct ProjectRow {
    pub id: String,
    pub name: String,
    pub created_at: String,
}

/// `row` holds what `project` is stored as.
pub open spec fn project_row_of(project: Project, row: ProjectRow) -> bool {
    &&& stores_uuid(row.id@, project.id)
    &&& row.name@ == project.name@
    &&& stores_timestamp(row.created_at@, project.created_at)
}

/// A project row reads back: its id and timestamp parse and its name is valid.
pub open spec fn project_row_readable(row: ProjectRow) -> bool {
    uuid_parse(row.id@) is Some && rfc3339_parse(row.created_at@) is Some && valid_name(row.name@)
}

/// The project a readable row denotes.
pub open spec fn project_read_from(row: ProjectRow) -> ProjectView {
    ProjectView { id: uuid_parse(row.id@).unwrap(), name: trimmed(row.name@), created_at: parsed_instant(row.created_at@) }
}

/// The columns a project is stored as.
pub fn project_to_row(project: &Project) -> (row: ProjectRow)
    ensures
        project_row_of(*project, row),
{
    ProjectRow {
        id: uuid_to_db(project.id),
        name: project.name.clone(),
        created_at: timestamp_to_db(project.created_at),
    }
}

/// Reads a stored project: the id must parse, then the timestamp, then the
/// name must be valid.
pub fn project_from_row(row: ProjectRow) -> (project: Result<Project, PersistenceError>)
    ensures
        match project {
            Ok(p) => project_row_readable(row) && p@ == project_read_from(row),
            Err(e) => !project_row_readable(row) && if uuid_parse(row.id@) is None {
                uuid_error(e, "projects.id", row.id@)
            } else if rfc3339_parse(row.created_at@) is None {
                timestamp_error(e, "projects.created_at", row.created_at@)
            } else {
                e == PersistenceError::InvalidDomain(DomainError::EmptyName { entity: "project" })
            },
        },
{
    let ProjectRow { id, name, created_at } = row;
    let id = uuid_from_db("projects.id", id)?;
    let created_at = timestamp_from_db("projects.created_at", created_at)?;
    match Project::from_persisted(id, name.as_str(), created_at) {
        Ok(p) => Ok(p),
        Err(e) => Err(PersistenceError::InvalidDomain(e)),
    }
}

/// Law: a well-formed project with a timestamp in the years 0000..=9999 is
/// read back from the row it is stored as.
pub proof fn law_project_round_trip(project: Project, row: ProjectRow)
    requires
        project.well_formed(),
        in_rfc3339_range(project.created_at),
        project_row_of(project, row),
    ensures
        project_row_readable(row),
        project_read_from(row) == project@,
{
}

// ---------------------------------------------------------------- services

/// The columns of a stored service.
#[derive(Debug, Clone, PartialEq, Eq)]
pub struct ServiceRow {
    pub id: String,
    pub project_id: String,
    pub name: String,
    pub created_at: String,
}

/// `row` holds what `service` is stored as.
pub open spec fn service_row_of(service: Service, row: ServiceRow) -> bool {
    &&& stores_uuid(row.id@, service.id)
    &&& stores_uuid(row.project_id@, service.project_id)
    &&& row.name@ == service.name@
    &&& stores_timestamp(row.created_at@, service.created_at)
}

/// A service row reads back: its ids and timestamp parse and its name is valid.
pub open spec fn service_row_readable(row: ServiceRow) -> bool {
    uuid_parse(row.id@) is Some && uuid_parse(row.project_id@) is Some && rfc3339_parse(row.created_at@) is Some
        && valid_name(row.name@)
}

/// The service a readable row denotes.
pub open spec fn service_read_from(row: ServiceRow) -> ServiceView {
    ServiceView {
        id: uuid_parse(row.id@).unwrap(),
        project_id: uuid_parse(row.project_id@).unwrap(),
        name: trimmed(row.name@),
        created_at: parsed_instant(row.created_at@),
    }
}

/// The columns a service is stored as.
pub fn service_to_row(service: &Service) -> (row: ServiceRow)
    ensures
        service_row_of(*service, row),
{
    ServiceRow {
        id: uuid_to_db(service.id),
        project_id: uuid_to_db(service.project_id),
        name: service.name.clone(),
        created_at: timestamp_to_db(service.created_at),
    }
}

/// Reads a stored service: the id, then the project id, then the timestamp
/// must parse, then the name must be valid.
pub fn service_from_row(row: ServiceRow) -> (service: Result<Service, PersistenceError>)
    ensures
        match service {
            Ok(s) => service_row_readable(row) && s@ == service_read_from(row),
            Err(e) => !service_row_readable(row) && if uuid_parse(row.id@) is None {
                uuid_error(e, "services.id", row.id@)
            } else if uuid_parse(row.project_id@) is None {
                uuid_error(e, "services.project_id", row.project_id@)
            } else if rfc3339_parse(row.created_at@) is None {
                timestamp_error(e, "services.created_at", row.created_at@)
            } else {
                e == PersistenceError::InvalidDomain(DomainError::EmptyName { entity: "service" })
            },
        },
{
    let ServiceRow { id, project_id, name, created_at } = row;
    let id = uuid_from_db("services.id", id)?;
    let project_id = uuid_from_db("services.project_id", project_id)?;
    let created_at = timestamp_from_db("services.created_at", created_at)?;
    match Service::from_persisted(id, project_id, name.as_str(), created_at) {
        Ok(s) => Ok(s),
        Err(e) => Err(PersistenceError::InvalidDomain(e)),
    }
}

/// Law: a well-formed service with a timestamp in the years 0000..=9999 is
/// read back from the row it is stored as.
pub proof fn law_service_round_trip(service: Service, row: ServiceRow)
    requires
        service.well_formed(),
        in_rfc3339_range(service.created_at),
        service_row_of(service, row),
    ensures
        service_row_readable(row),
        service_read_from(row) == service@,
{
}

// ---------------------------------------------------------------- checks

/// The columns of a stored check.
#[derive(Debug, Clone, PartialEq, Eq)]
pub struct CheckRow {
    pub id: String,
    pub service_id: String,
    pub kind: String,
    pub url: String,
    pub expected_status: i64,
    pub interval_seconds: i64,
    pub timeout_ms: i64,
    pub enabled: i64,
    pub created_at: String,
}

/// `row` holds what `check` is stored as.
pub open spec fn check_row_of(check: Check, row: CheckRow) -> bool {
    &&& stores_uuid(row.id@, check.id)
    &&& stores_uuid(row.service_id@, check.service_id)
    &&& row.kind@ == http_kind_text()
    &&& match check.kind@ {
        CheckKindView::Http { url, expected_status } => row.url@ == url && row.expected_status == expected_status as i64,
    }
    &&& row.interval_seconds == check.interval_seconds
    &&& row.timeout_ms == check.timeout_ms
    &&& row.enabled == if check.enabled { 1i64 } else { 0i64 }
    &&& stores_timestamp(row.created_at@, check.created_at)
}

/// The error `check_to_row` reports.
pub open spec fn check_store_error(e: PersistenceError, check: Check) -> bool {
    if check.interval_seconds > i64::MAX {
        e == (PersistenceError::NumericOutOfRange { field: "checks.interval_seconds", value: i64::MAX })
    } else {
        check.timeout_ms > i64::MAX && e == (PersistenceError::NumericOutOfRange { field: "checks.timeout_ms", value: i64::MAX })
    }
}

/// The columns a check is stored as. Interval and timeout must fit a signed
/// 64-bit column.
pub fn check_to_row(check: &Check) -> (row: Result<CheckRow, PersistenceError>)
    ensures
        match row {
            Ok(r) => check.interval_seconds <= i64::MAX && check.timeout_ms <= i64::MAX && check_row_of(*check, r),
            Err(e) => check_store_error(e, *check),
        },
        check.interval_seconds <= i64::MAX && check.timeout_ms <= i64::MAX ==> row is Ok,
{
    let (kind, url, expected_status) = check_kind_to_db(&check.kind);
    let interval_seconds = u64_to_db(check.interval_seconds, "checks.interval_seconds")?;
    let timeout_ms = u64_to_db(check.timeout_ms, "checks.timeout_ms")?;
    let created_at = timestamp_to_db(check.created_at);
    Ok(CheckRow {
        id: uuid_to_db(check.id),
        service_id: uuid_to_db(check.service_id),
        kind: String::from_str(kind),
        url: String::from_str(url),
        expected_status: expected_status as i64,
        interval_seconds,
        timeout_ms,
        enabled: if check.enabled { 1 } else { 0 },
        created_at,
    })
}

/// A check row reads back: ids, kind columns, numbers and timestamp are
/// valid, and interval and timeout are positive.
pub open spec fn check_row_readable(row: CheckRow) -> bool {
    &&& uuid_parse(row.id@) is Some
    &&& uuid_parse(row.service_id@) is Some
    &&& check_kind_columns_valid(row.kind@, row.url@, row.expected_status)
    &&& row.interval_seconds > 0
    &&& row.timeout_ms > 0
    &&& rfc3339_parse(row.created_at@) is Some
}

/// The check a readable row denotes.
pub open spec fn check_read_from(row: CheckRow) -> CheckView {
    CheckView {
        id: uuid_parse(row.id@).unwrap(),
        service_id: uuid_parse(row.service_id@).unwrap(),
        kind: CheckKindView::Http { url: trimmed(row.url@), expected_status: row.expected_status as u16 },
        interval_seconds: row.interval_seconds as u64,
        timeout_ms: row.timeout_ms as u64,
        enabled: row.enabled != 0,
        created_at: parsed_instant(row.created_at@),
    }
}

/// The error `check_from_row` reports for a row that does not read back, in
/// the order the columns are checked.
pub open spec fn check_read_error(e: PersistenceError, row: CheckRow) -> bool {
    if uuid_parse(row.id@) is None {
        uuid_error(e, "checks.id", row.id@)
    } else if uuid_parse(row.service_id@) is None {
        uuid_error(e, "checks.service_id", row.service_id@)
    } else if !check_kind_columns_valid(row.kind@, row.url@, row.expected_status) {
        check_kind_error(e, row.kind@, row.url@, row.expected_status)
    } else if row.interval_seconds < 0 {
        e == (PersistenceError::NumericOutOfRange { field: "checks.interval_seconds", value: row.interval_seconds })
    } else if row.timeout_ms < 0 {
        e == (PersistenceError::NumericOutOfRange { field: "checks.timeout_ms", value: row.timeout_ms })
    } else if rfc3339_parse(row.created_at@) is None {
        timestamp_error(e, "checks.created_at", row.created_at@)
    } else if row.interval_seconds == 0 {
        e == PersistenceError::InvalidDomain(DomainError::ZeroInterval)
    } else {
        e == PersistenceError::InvalidDomain(DomainError::ZeroTimeout)
    }
}

/// Reads a stored check. A non-zero `enabled` column means enabled.
pub fn check_from_row(row: CheckRow) -> (check: Result<Check, PersistenceError>)
    ensures
        match check {
            Ok(c) => check_row_readable(row) && c@ == check_read_from(row),
            Err(e) => !check_row_readable(row) && check_read_error(e, row),
        },
{
    let ghost original = row;
    let CheckRow { id, service_id, kind, url, expected_status, interval_seconds, timeout_ms, enabled, created_at } = row;
    let id = uuid_from_db("checks.id", id)?;
    let service_id = uuid_from_db("checks.service_id", service_id)?;
    let kind = check_kind_from_db(kind, url, expected_status)?;
    let interval_seconds = u64_from_db("checks.interval_seconds", interval_seconds)?;
    let timeout_ms = u64_from_db("checks.timeout_ms", timeout_ms)?;
    let created_at = timestamp_from_db("checks.created_at", created_at)?;
    match Check::from_persisted(id, service_id, kind, interval_seconds, timeout_ms, enabled != 0, created_at) {
        Ok(c) => Ok(c),
        Err(e) => Err(PersistenceError::InvalidDomain(e)),
    }
}

/// Law: a well-formed check with a timestamp in the years 0000..=9999 is read
/// back from the row it is stored as.
pub proof fn law_check_round_trip(check: Check, row: CheckRow)
    requires
        check.well_formed(),
        in_rfc3339_range(check.created_at),
        check_row_of(check, row),
    ensures
        check_row_readable(row),
        check_read_from(row) == check@,
{
}

// ---------------------------------------------------------------- results

/// The columns of a stored check result.
#[derive(Debug, Clone, PartialEq, Eq)]
pub struct CheckResultRow {
    pub id: String,
    pub check_id: String,
    pub checked_at: String,
    pub status: String,
    pub duration_ms: i64,
    pub error: Option<String>,
}

/// `row` holds what `result` is stored as.
pub open spec fn result_row_of(result: CheckResult, row: CheckResultRow) -> bool {
    &&& stores_uuid(row.id@, result.id)
    &&& stores_uuid(row.check_id@, result.check_id)
    &&& stores_timestamp(row.checked_at@, result.checked_at)
    &&& row.status@ == status_text(result.status)
    &&& row.duration_ms == result.duration_ms
    &&& optional_text(row.error) == optional_text(result.error)
}

/// The error `result_to_row` reports.
pub open spec fn result_store_error(e: PersistenceError, result: CheckResult) -> bool {
    result.duration_ms > i64::MAX && e == (PersistenceError::NumericOutOfRange {
        field: "check_results.duration_ms",
        value: i64::MAX,
    })
}

fn copy_text(text: &Option<String>) -> (copy: Option<String>)
    ensures
        copy == *text,
{
    match text {
        Some(t) => Some(t.clone()),
        None => None,
    }
}

/// The columns a check result is stored as. The duration must fit a signed
/// 64-bit column.
pub fn result_to_row(result: &CheckResult) -> (row: Result<CheckResultRow, PersistenceError>)
    ensures
        match row {
            Ok(r) => result.duration_ms <= i64::MAX && result_row_of(*result, r),
            Err(e) => result_store_error(e, *result),
        },
        result.duration_ms <= i64::MAX ==> row is Ok,
{
    let checked_at = timestamp_to_db(result.checked_at);
    let duration_ms = u64_to_db(result.duration_ms, "check_results.duration_ms")?;
    Ok(CheckResultRow {
        id: uuid_to_db(result.id),
        check_id: uuid_to_db(result.check_id),
        checked_at,
        status: String::from_str(status_to_db(result.status)),
        duration_ms,
        error: copy_text(&result.error),
    })
}

/// A result row reads back: ids, timestamp and status parse and the duration
/// is not negative.
pub open spec fn result_row_readable(row: CheckResultRow) -> bool {
    &&& uuid_parse(row.id@) is Some
    &&& uuid_parse(row.check_id@) is Some
    &&& rfc3339_parse(row.checked_at@) is Some
    &&& is_status_text(row.status@)
    &&& row.duration_ms >= 0
}

/// The check result a readable row denotes.
pub open spec fn result_read_from(row: CheckResultRow) -> CheckResultView {
    CheckResultView {
        id: uuid_parse(row.id@).unwrap(),
        check_id: uuid_parse(row.check_id@).unwrap(),
        checked_at: parsed_instant(row.checked_at@),
        status: status_named(row.status@),
        duration_ms: row.duration_ms as u64,
        error: optional_text(row.error),
    }
}

/// The error `result_from_row` reports for a row that does not read back.
pub open spec fn result_read_error(e: PersistenceError, row: CheckResultRow) -> bool {
    if uuid_parse(row.id@) is None {
        uuid_error(e, "check_results.id", row.id@)
    } else if uuid_parse(row.check_id@) is None {
        uuid_error(e, "check_results.check_id", row.check_id@)
    } else if rfc3339_parse(row.checked_at@) is None {
        timestamp_error(e, "check_results.checked_at", row.checked_at@)
    } else if !is_status_text(row.status@) {
        e matches PersistenceError::InvalidEnum { kind: k, value: v } && k == "health_status" && v@ == row.status@
    } else {
        e == (PersistenceError::NumericOutOfRange { field: "check_results.duration_ms", value: row.duration_ms })
    }
}

/// Reads a stored check result.
pub fn result_from_row(row: CheckResultRow) -> (result: Result<CheckResult, PersistenceError>)
    ensures
        match result {
            Ok(r) => result_row_readable(row) && r@ == result_read_from(row),
            Err(e) => !result_row_readable(row) && result_read_error(e, row),
        },
{
    let CheckResultRow { id, check_id, checked_at, status, duration_ms, error } = row;
    let id = uuid_from_db("check_results.id", id)?;
    let check_id = uuid_from_db("check_results.check_id", check_id)?;
    let checked_at = timestamp_from_db("check_results.checked_at", checked_at)?;
    let status = status_from_db(status)?;
    let duration_ms = u64_from_db("check_results.duration_ms", duration_ms)?;
    proof {
        law_status_round_trip(status, status_named(status_text(status)));
    }
    Ok(CheckResult::from_persisted(id, check_id, checked_at, status, duration_ms, error))
}

/// Law: a check result with a timestamp in the years 0000..=9999 and a
/// duration that fits the column is read back from the row it is stored as.
pub proof fn law_result_round_trip(result: CheckResult, row: CheckResultRow)
    requires
        in_rfc3339_range(result.checked_at),
        result.duration_ms <= i64::MAX,
        result_row_of(result, row),
    ensures
        result_row_readable(row),
        result_read_from(row) == result@,
{
    law_status_round_trip(result.status, status_named(row.status@));
}

} // verus!
