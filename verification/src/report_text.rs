//! The text of the command-line reports: one line per project, service,
//! check and result, as the CLI prints them.

use vstd::prelude::*;

use crate::check::{Check, CheckKind, CheckKindView};
use crate::ids::{format_uuid, uuid_text};
use crate::persistence::mapping::status_text;
use crate::reporting::{CheckHealth, ProjectSummary, ServiceHealth};
use crate::result::CheckResult;
use crate::status::HealthStatus;
use crate::text::{decimal, push_decimal};
use crate::time::{format_rfc3339, rfc3339_text, Timestamp};

verus! {

broadcast use crate::time::group_timestamp;

/// The character sequences of a list of strings.
pub open spec fn texts(lines: Seq<String>) -> Seq<Seq<char>> {
    lines.map_values(|line: String| line@)
}

/// The upper-case name of a status, as reports show it.
pub fn status_name(status: HealthStatus) -> (name: &'static str)
    ensures
        name@ == status_text(status),
{
    match status {
        HealthStatus::Healthy => "HEALTHY",
        HealthStatus::Degraded => "DEGRADED",
        HealthStatus::Unhealthy => "UNHEALTHY",
        HealthStatus::Unknown => "UNKNOWN",
    }
}

/// ` — <error>` when a result carries an error, otherwise nothing.
pub open spec fn error_suffix(error: Option<String>) -> Seq<char> {
    match error {
        Some(e) => " — "@ + e@,
        None => Seq::empty(),
    }
}

/// `<STATUS> at <RFC 3339 time> (<duration>ms)` followed by the error suffix.
pub open spec fn result_text(result: CheckResult) -> Seq<char> {
    status_text(result.status) + " at "@ + rfc3339_text(result.checked_at.secs(), result.checked_at.subsec()) + " ("@
        + decimal(result.duration_ms as nat) + "ms)"@ + error_suffix(result.error)
}

/// One result as a line of text.
pub fn format_result(result: &CheckResult) -> (text: String)
    ensures
        text@ == result_text(*result),
{
    let mut text = String::from_str(status_name(result.status));
    text.append(" at ");
    proof {
        use_type_invariant(&result.checked_at);
        crate::time::lemma_representable(result.checked_at);
    }
    let time = format_rfc3339(result.checked_at);
    text.append(time.as_str());
    text.append(" (");
    push_decimal(&mut text, result.duration_ms);
    text.append("ms)");
    match &result.error {
        Some(error) => {
            text.append(" — ");
            text.append(error.as_str());
        },
        None => {
            proof {
                assert(error_suffix(result.error) =~= Seq::<char>::empty());
            }
        },
    }
    proof {
        assert(text@ =~= result_text(*result));
    }
    text
}

/// `enabled` or `disabled`.
pub open spec fn enabled_text(enabled: bool) -> Seq<char> {
    if enabled { "enabled"@ } else { "disabled"@ }
}

/// `  HTTP <url> (<id>) [<state>; every <n>s; timeout <n>ms; expects <status>]`.
pub open spec fn check_text(check: Check) -> Seq<char> {
    match check.kind@ {
        CheckKindView::Http { url, expected_status } => "  HTTP "@ + url + " ("@ + uuid_text(check.id) + ") ["@
            + enabled_text(check.enabled) + "; every "@ + decimal(check.interval_seconds as nat) + "s; timeout "@
            + decimal(check.timeout_ms as nat) + "ms; expects "@ + decimal(expected_status as nat) + "]"@,
    }
}

/// The lines for one check: its description, then its latest result if any.
pub open spec fn check_lines_text(check: Check, latest: Option<CheckResult>) -> Seq<Seq<char>> {
    match latest {
        Some(result) => seq![check_text(check), "    latest: "@ + result_text(result)],
        None => seq![check_text(check)],
    }
}

/// The description line of a check.
pub fn format_check(check: &Check) -> (text: String)
    ensures
        text@ == check_text(*check),
{
    let (url, expected_status) = match &check.kind {
        CheckKind::Http { url, expected_status } => (url.as_str(), *expected_status),
    };
    let mut text = String::from_str("  HTTP ");
    text.append(url);
    text.append(" (");
    let id = format_uuid(check.id);
    text.append(id.as_str());
    text.append(") [");
    text.append(if check.enabled { "enabled" } else { "disabled" });
    text.append("; every ");
    push_decimal(&mut text, check.interval_seconds);
    text.append("s; timeout ");
    push_decimal(&mut text, check.timeout_ms);
    text.append("ms; expects ");
    push_decimal(&mut text, expected_status as u64);
    text.append("]");
    proof {
        assert(text@ =~= check_text(*check));
    }
    text
}

/// The lines for one check and its latest result, if any.
pub fn check_lines(check: &Check, latest: Option<&CheckResult>) -> (lines: Vec<String>)
    ensures
        texts(lines@) == check_lines_text(*check, match latest {
            Some(r) => Some(*r),
            None => None,
        }),
{
    let mut lines: Vec<String> = Vec::new();
    lines.push(format_check(check));
    match latest {
        Some(result) => {
            let mut line = String::from_str("    latest: ");
            let text = format_result(result);
            line.append(text.as_str());
            lines.push(line);
        },
        None => {},
    }
    proof {
        assert(texts(lines@) =~= check_lines_text(*check, match latest {
            Some(r) => Some(*r),
            None => None,
        }));
    }
    lines
}

/// `<name> (<id>) [<STATUS>]`, after a prefix.
pub open spec fn titled_text(prefix: Seq<char>, name: Seq<char>, id: u128, status: HealthStatus) -> Seq<char> {
    prefix + name + " ("@ + uuid_text(id) + ") ["@ + status_text(status) + "]"@
}

fn titled_line(prefix: &str, name: &str, id: u128, status: HealthStatus) -> (line: String)
    ensures
        line@ == titled_text(prefix@, name@, id, status),
{
    let mut line = String::from_str(prefix);
    line.append(name);
    line.append(" (");
    let id_text = format_uuid(id);
    line.append(id_text.as_str());
    line.append(") [");
    line.append(status_name(status));
    line.append("]");
    proof {
        assert(line@ =~= titled_text(prefix@, name@, id, status));
    }
    line
}

/// The lines of a project summary: the project, then one line per service.
pub open spec fn project_report_text(summary: ProjectSummary) -> Seq<Seq<char>> {
    seq![titled_text("Project: "@, summary.project.name@, summary.project.id, summary.status)]
        + summary.services@.map_values(|s: ServiceHealth| titled_text("  "@, s.service.name@, s.service.id, s.status))
}

/// The lines of a project summary.
pub fn project_report(summary: &ProjectSummary) -> (lines: Vec<String>)
    ensures
        texts(lines@) == project_report_text(*summary),
{
    let mut lines: Vec<String> = Vec::new();
    lines.push(titled_line("Project: ", summary.project.name.as_str(), summary.project.id, summary.status));
    let n = summary.services.len();
    let mut i: usize = 0;
    while i < n
        invariant
            n == summary.services@.len(),
            i <= n,
            texts(lines@) == seq![titled_text("Project: "@, summary.project.name@, summary.project.id, summary.status)]
                + summary.services@.take(i as int).map_values(|s: ServiceHealth| titled_text("  "@, s.service.name@, s.service.id, s.status)),
        decreases n - i,
    {
        let service = &summary.services[i];
        let ghost before = lines@;
        let line = titled_line("  ", service.service.name.as_str(), service.service.id, service.status);
        lines.push(line);
        proof {
            assert(texts(lines@) =~= texts(before).push(line@));
            assert(summary.services@.take(i + 1) =~= summary.services@.take(i as int).push(summary.services@[i as int]));
            assert(summary.services@.take(i + 1).map_values(|s: ServiceHealth| titled_text("  "@, s.service.name@, s.service.id, s.status))
                =~= summary.services@.take(i as int).map_values(|s: ServiceHealth| titled_text("  "@, s.service.name@, s.service.id, s.status)).push(line@));
            assert(texts(lines@) =~= seq![titled_text("Project: "@, summary.project.name@, summary.project.id, summary.status)]
                + summary.services@.take(i + 1).map_values(|s: ServiceHealth| titled_text("  "@, s.service.name@, s.service.id, s.status)));
        }
        i = i + 1;
    }
    proof {
        assert(summary.services@.take(n as int) =~= summary.services@);
    }
    lines
}

/// The lines for one check of a service report: the check, its latest
/// result, then its recent history, one result per line.
pub open spec fn check_health_text(health: CheckHealth) -> Seq<Seq<char>> {
    check_lines_text(health.check, health.latest_result)
        + health.recent_history@.map_values(|r: CheckResult| "    "@ + result_text(r))
}

/// The lines for a list of checks, in order.
pub open spec fn checks_text(checks: Seq<CheckHealth>) -> Seq<Seq<char>>
    decreases checks.len(),
{
    if checks.len() == 0 {
        Seq::empty()
    } else {
        checks_text(checks.drop_last()) + check_health_text(checks.last())
    }
}

/// The lines of a service report: the service, then each check's lines.
pub open spec fn service_report_text(health: ServiceHealth) -> Seq<Seq<char>> {
    seq![titled_text("Service: "@, health.service.name@, health.service.id, health.status)] + checks_text(health.checks@)
}

fn push_check_health(lines: &mut Vec<String>, health: &CheckHealth)
    ensures
        texts(final(lines)@) == texts(old(lines)@) + check_health_text(*health),
{
    let block = check_lines(&health.check, match &health.latest_result {
        Some(r) => Some(r),
        None => None,
    });
    let ghost start = texts(lines@);
    let m = block.len();
    let mut j: usize = 0;
    while j < m
        invariant
            m == block@.len(),
            j <= m,
            texts(lines@) == start + texts(block@).take(j as int),
        decreases m - j,
    {
        let ghost before = lines@;
        let line = block[j].clone();
        lines.push(line);
        proof {
            assert(texts(lines@) =~= texts(before).push(line@));
            assert(texts(block@).take(j + 1) =~= texts(block@).take(j as int).push(block@[j as int]@));
            assert(texts(lines@) =~= start + texts(block@).take(j + 1));
        }
        j = j + 1;
    }
    proof {
        assert(texts(block@).take(m as int) =~= texts(block@));
    }
    let ghost middle = texts(lines@);
    let h = health.recent_history.len();
    let mut k: usize = 0;
    while k < h
        invariant
            h == health.recent_history@.len(),
            k <= h,
            texts(lines@) == middle + health.recent_history@.take(k as int).map_values(|r: CheckResult| "    "@ + result_text(r)),
        decreases h - k,
    {
        let mut line = String::from_str("    ");
        let text = format_result(&health.recent_history[k]);
        line.append(text.as_str());
        let ghost before = lines@;
        lines.push(line);
        proof {
            assert(texts(lines@) =~= texts(before).push(line@));
            assert(health.recent_history@.take(k + 1) =~= health.recent_history@.take(k as int).push(health.recent_history@[k as int]));
            assert(health.recent_history@.take(k + 1).map_values(|r: CheckResult| "    "@ + result_text(r))
                =~= health.recent_history@.take(k as int).map_values(|r: CheckResult| "    "@ + result_text(r)).push(line@));
            assert(texts(lines@) =~= middle + health.recent_history@.take(k + 1).map_values(|r: CheckResult| "    "@ + result_text(r)));
        }
        k = k + 1;
    }
    proof {
        assert(health.recent_history@.take(h as int) =~= health.recent_history@);
        assert(texts(lines@) =~= texts(old(lines)@) + check_health_text(*health));
    }
}

/// The lines of a service report.
pub fn service_report(health: &ServiceHealth) -> (lines: Vec<String>)
    ensures
        texts(lines@) == service_report_text(*health),
{
    let mut lines: Vec<String> = Vec::new();
    lines.push(titled_line("Service: ", health.service.name.as_str(), health.service.id, health.status));
    let ghost header = texts(lines@);
    let n = health.checks.len();
    let mut i: usize = 0;
    while i < n
        invariant
            n == health.checks@.len(),
            i <= n,
            header == seq![titled_text("Service: "@, health.service.name@, health.service.id, health.status)],
            texts(lines@) == header + checks_text(health.checks@.take(i as int)),
        decreases n - i,
    {
        push_check_health(&mut lines, &health.checks[i]);
        proof {
            assert(health.checks@.take(i + 1).drop_last() =~= health.checks@.take(i as int));
            assert(health.checks@.take(i + 1).last() == health.checks@[i as int]);
            assert(texts(lines@) =~= header + checks_text(health.checks@.take(i + 1)));
        }
        i = i + 1;
    }
    proof {
        assert(health.checks@.take(n as int) =~= health.checks@);
    }
    lines
}

/// A report line ends with the bracketed upper-case name of `status`.
pub open spec fn ends_with_status(line: Seq<char>, status: HealthStatus) -> bool {
    let tail = "["@ + status_text(status) + "]"@;
    line.len() >= tail.len() && line.subrange(line.len() - tail.len(), line.len() as int) == tail
}

/// A report line starts with `prefix` followed by `name`.
pub open spec fn starts_with_name(line: Seq<char>, prefix: Seq<char>, name: Seq<char>) -> bool {
    let head = prefix + name;
    line.len() >= head.len() && line.subrange(0, head.len() as int) == head
}

proof fn lemma_titled_text_shape(prefix: Seq<char>, name: Seq<char>, id: u128, status: HealthStatus)
    ensures
        ends_with_status(titled_text(prefix, name, id, status), status),
        starts_with_name(titled_text(prefix, name, id, status), prefix, name),
{
    reveal_strlit(") [");
    reveal_strlit("[");
    reveal_strlit("]");
    let line = titled_text(prefix, name, id, status);
    let head = prefix + name;
    let middle = " ("@ + uuid_text(id) + ")"@;
    let tail = "["@ + status_text(status) + "]"@;
    reveal_strlit(")");
    assert(") ["@ =~= ")"@ + " "@ + "["@) by {
        reveal_strlit(" ");
    }
    assert(line =~= head + (middle + " "@) + tail);
    assert(line.subrange(line.len() - tail.len(), line.len() as int) =~= tail);
    assert(line.subrange(0, head.len() as int) =~= head);
}

/// Law: the project report has one line for the project and one per
/// service, in order; the project line shows the project's name and status,
/// and each service line shows that service's own name and status.
pub proof fn law_project_report_lines(summary: ProjectSummary)
    ensures
        project_report_text(summary).len() == summary.services@.len() + 1,
        starts_with_name(project_report_text(summary)[0], "Project: "@, summary.project.name@),
        ends_with_status(project_report_text(summary)[0], summary.status),
        forall|k: int| 0 <= k < summary.services@.len() ==> {
            &&& starts_with_name(#[trigger] project_report_text(summary)[k + 1], "  "@, summary.services@[k].service.name@)
            &&& ends_with_status(project_report_text(summary)[k + 1], summary.services@[k].status)
        },
{
    lemma_titled_text_shape("Project: "@, summary.project.name@, summary.project.id, summary.status);
    assert forall|k: int| 0 <= k < summary.services@.len() implies {
        &&& starts_with_name(#[trigger] project_report_text(summary)[k + 1], "  "@, summary.services@[k].service.name@)
        &&& ends_with_status(project_report_text(summary)[k + 1], summary.services@[k].status)
    } by {
        let s = summary.services@[k];
        lemma_titled_text_shape("  "@, s.service.name@, s.service.id, s.status);
        assert(project_report_text(summary)[k + 1] == titled_text("  "@, s.service.name@, s.service.id, s.status));
    }
}

/// The number of report lines for one check: its description, its latest
/// result if any, and one line per history entry.
pub open spec fn check_line_count(health: CheckHealth) -> nat {
    1 + (if health.latest_result is Some { 1nat } else { 0nat }) + health.recent_history@.len()
}

/// The number of report lines for a list of checks.
pub open spec fn line_count(checks: Seq<CheckHealth>) -> nat
    decreases checks.len(),
{
    if checks.len() == 0 {
        0
    } else {
        line_count(checks.drop_last()) + check_line_count(checks.last())
    }
}

proof fn lemma_checks_text_len(checks: Seq<CheckHealth>)
    ensures
        checks_text(checks).len() == line_count(checks),
    decreases checks.len(),
{
    if checks.len() > 0 {
        lemma_checks_text_len(checks.drop_last());
        let h = checks.last();
        assert(check_health_text(h).len() == check_line_count(h));
    }
}

proof fn lemma_line_count_prefix(checks: Seq<CheckHealth>, k: int)
    requires
        0 <= k < checks.len(),
    ensures
        line_count(checks.take(k)) + check_line_count(checks[k]) <= line_count(checks),
    decreases checks.len(),
{
    let init = checks.drop_last();
    if k == checks.len() - 1 {
        assert(checks.take(k) =~= init);
    } else {
        lemma_line_count_prefix(init, k);
        assert(init.take(k) =~= checks.take(k));
        assert(init[k] == checks[k]);
    }
}

proof fn lemma_checks_text_at(checks: Seq<CheckHealth>, k: int)
    requires
        0 <= k < checks.len(),
    ensures
        line_count(checks.take(k)) < checks_text(checks).len(),
        checks_text(checks)[line_count(checks.take(k)) as int] == check_text(checks[k].check),
    decreases checks.len(),
{
    let init = checks.drop_last();
    lemma_checks_text_len(checks);
    lemma_checks_text_len(init);
    lemma_line_count_prefix(checks, k);
    if k == checks.len() - 1 {
        assert(checks.take(k) =~= init);
        let block = check_health_text(checks.last());
        assert(block[0] == check_text(checks.last().check));
    } else {
        lemma_checks_text_at(init, k);
        lemma_line_count_prefix(init, k);
        assert(init.take(k) =~= checks.take(k));
        assert(init[k] == checks[k]);
    }
}

/// Law: the service report has the service line, then for every check of
/// the service — enabled or disabled, in order — its description line, its
/// latest result if any and its history; so it has one line plus, per
/// check, one line, one more with a latest result, and one per history
/// entry. The service line shows the service's name and status.
pub proof fn law_service_report_lines(health: ServiceHealth)
    ensures
        service_report_text(health).len() == 1 + line_count(health.checks@),
        starts_with_name(service_report_text(health)[0], "Service: "@, health.service.name@),
        ends_with_status(service_report_text(health)[0], health.status),
        forall|k: int| 0 <= k < health.checks@.len() ==> #[trigger] service_report_text(health)[1 + line_count(health.checks@.take(k)) as int]
            == check_text(health.checks@[k].check),
{
    lemma_checks_text_len(health.checks@);
    lemma_titled_text_shape("Service: "@, health.service.name@, health.service.id, health.status);
    assert forall|k: int| 0 <= k < health.checks@.len() implies #[trigger] service_report_text(health)[1 + line_count(health.checks@.take(k)) as int]
        == check_text(health.checks@[k].check) by {
        lemma_checks_text_at(health.checks@, k);
    }
}

} // verus!
