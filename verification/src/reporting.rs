//! Read models for human-facing monitoring reports, and how service and
//! project statuses are derived from the latest check results.
//!
//! A service is `Unknown` when it has no enabled checks or an enabled check
//! has no result yet; an unhealthy enabled check makes it unhealthy. A
//! project's status combines its services' statuses by the same severity
//! ordering. Disabled checks do not count.

use vstd::prelude::*;

use crate::check::Check;
use crate::persistence::error::PersistenceError;
use crate::project::Project;
use crate::result::CheckResult;
use crate::service::Service;
use crate::status::{aggregate_status, combined_status, HealthStatus};

verus! {

/// Errors from report queries.
#[derive(Debug)]
pub enum ReportingError {
    Persistence(PersistenceError),
    ProjectNotFound(u128),
    ServiceNotFound(u128),
}

/// One check with its latest result and recent history (newest first).
#[derive(Debug)]
pub struct CheckHealth {
    pub check: Check,
    pub latest_result: Option<CheckResult>,
    pub recent_history: Vec<CheckResult>,
}

/// One service with its derived status and its checks.
#[derive(Debug)]
pub struct ServiceHealth {
    pub service: Service,
    pub status: HealthStatus,
    pub checks: Vec<CheckHealth>,
}

/// One project with its derived status and its services.
#[derive(Debug)]
pub struct ProjectSummary {
    pub project: Project,
    pub status: HealthStatus,
    pub services: Vec<ServiceHealth>,
}

/// The status a check contributes: its latest result's status, or `Unknown`
/// when it has none.
pub open spec fn check_status(health: CheckHealth) -> HealthStatus {
    match health.latest_result {
        Some(result) => result.status,
        None => HealthStatus::Unknown,
    }
}

/// The statuses of the enabled checks, in order.
pub open spec fn enabled_check_statuses(checks: Seq<CheckHealth>) -> Seq<HealthStatus>
    decreases checks.len(),
{
    if checks.len() == 0 {
        Seq::empty()
    } else {
        let rest = enabled_check_statuses(checks.drop_last());
        if checks.last().check.enabled {
            rest.push(check_status(checks.last()))
        } else {
            rest
        }
    }
}

/// The status of a service with these checks.
pub open spec fn service_status_of(checks: Seq<CheckHealth>) -> HealthStatus {
    combined_status(enabled_check_statuses(checks))
}

/// The statuses of services, in order.
pub open spec fn service_statuses(services: Seq<ServiceHealth>) -> Seq<HealthStatus> {
    services.map_values(|s: ServiceHealth| s.status)
}

/// Derives a service's status from its checks: the most severe status among
/// enabled checks (a check without a result counts as `Unknown`), or
/// `Unknown` when no check is enabled.
pub fn service_status(checks: &Vec<CheckHealth>) -> (status: HealthStatus)
    ensures
        status == service_status_of(checks@),
{
    let mut statuses: Vec<HealthStatus> = Vec::new();
    let n = checks.len();
    let mut i: usize = 0;
    while i < n
        invariant
            n == checks@.len(),
            i <= n,
            statuses@ == enabled_check_statuses(checks@.take(i as int)),
        decreases n - i,
    {
        proof {
            assert(checks@.take(i + 1).drop_last() =~= checks@.take(i as int));
            assert(checks@.take(i + 1).last() == checks@[i as int]);
        }
        let health = &checks[i];
        if health.check.enabled {
            let status = match &health.latest_result {
                Some(result) => result.status,
                None => HealthStatus::Unknown,
            };
            statuses.push(status);
        }
        i = i + 1;
    }
    proof {
        assert(checks@.take(n as int) =~= checks@);
    }
    aggregate_status(statuses.as_slice())
}

/// Derives a project's status from its services' statuses.
pub fn project_status(services: &Vec<ServiceHealth>) -> (status: HealthStatus)
    ensures
        status == combined_status(service_statuses(services@)),
{
    let mut statuses: Vec<HealthStatus> = Vec::new();
    let n = services.len();
    let mut i: usize = 0;
    while i < n
        invariant
            n == services@.len(),
            i <= n,
            statuses@ == service_statuses(services@.take(i as int)),
        decreases n - i,
    {
        statuses.push(services[i].status);
        proof {
            assert(service_statuses(services@.take(i + 1)) =~= service_statuses(services@.take(i as int)).push(services@[i as int].status));
        }
        i = i + 1;
    }
    proof {
        assert(services@.take(n as int) =~= services@);
    }
    aggregate_status(statuses.as_slice())
}

impl ServiceHealth {
    /// A service's report: its checks and the status derived from them.
    pub fn from_checks(service: Service, checks: Vec<CheckHealth>) -> (health: Self)
        ensures
            health.service == service,
            health.checks == checks,
            health.status == service_status_of(checks@),
    {
        let status = service_status(&checks);
        ServiceHealth { service, status, checks }
    }
}

impl ProjectSummary {
    /// A project's summary: its services and the status derived from them.
    pub fn from_services(project: Project, services: Vec<ServiceHealth>) -> (summary: Self)
        ensures
            summary.project == project,
            summary.services == services,
            summary.status == combined_status(service_statuses(services@)),
    {
        let status = project_status(&services);
        ProjectSummary { project, status, services }
    }
}

/// Some enabled check reports status `s`.
pub open spec fn some_enabled_check_reports(checks: Seq<CheckHealth>, s: HealthStatus) -> bool {
    exists|i: int| 0 <= i < checks.len() && (#[trigger] checks[i]).check.enabled && check_status(checks[i]) == s
}

/// Every status in the enabled-check statuses comes from an enabled check,
/// and every enabled check contributes its status.
proof fn lemma_enabled_statuses_members(checks: Seq<CheckHealth>)
    ensures
        forall|s: HealthStatus| enabled_check_statuses(checks).contains(s) <==> #[trigger] some_enabled_check_reports(checks, s),
    decreases checks.len(),
{
    if checks.len() > 0 {
        let init = checks.drop_last();
        lemma_enabled_statuses_members(init);
        let rest = enabled_check_statuses(init);
        let all = enabled_check_statuses(checks);
        assert forall|s: HealthStatus| all.contains(s) <==> #[trigger] some_enabled_check_reports(checks, s) by {
            if all.contains(s) {
                let k = choose|k: int| 0 <= k < all.len() && all[k] == s;
                if k < rest.len() {
                    assert(rest[k] == s);
                    assert(rest.contains(s));
                    assert(some_enabled_check_reports(init, s));
                    let i = choose|i: int| 0 <= i < init.len() && (#[trigger] init[i]).check.enabled && check_status(init[i]) == s;
                    assert(checks[i] == init[i]);
                } else {
                    assert(checks[checks.len() - 1] == checks.last());
                }
            }
            if some_enabled_check_reports(checks, s) {
                let i = choose|i: int| 0 <= i < checks.len() && (#[trigger] checks[i]).check.enabled && check_status(checks[i]) == s;
                if i < checks.len() - 1 {
                    assert(init[i] == checks[i]);
                    assert(some_enabled_check_reports(init, s));
                    assert(rest.contains(s));
                    let k = choose|k: int| 0 <= k < rest.len() && rest[k] == s;
                    assert(all[k] == rest[k]);
                } else {
                    assert(all[all.len() - 1] == s);
                }
            }
        }
    }
}

/// Law: a service with no enabled check is `Unknown`.
pub proof fn law_no_enabled_checks_is_unknown(checks: Seq<CheckHealth>)
    requires
        forall|i: int| 0 <= i < checks.len() ==> !(#[trigger] checks[i]).check.enabled,
    ensures
        service_status_of(checks) == HealthStatus::Unknown,
{
    lemma_enabled_statuses_members(checks);
    let statuses = enabled_check_statuses(checks);
    if statuses.len() > 0 {
        assert(statuses.contains(statuses[0]));
        assert(some_enabled_check_reports(checks, statuses[0]));
    }
}

/// Law: an enabled check whose latest result is unhealthy makes the service
/// unhealthy.
pub proof fn law_unhealthy_check_makes_service_unhealthy(checks: Seq<CheckHealth>, i: int)
    requires
        0 <= i < checks.len(),
        checks[i].check.enabled,
        check_status(checks[i]) == HealthStatus::Unhealthy,
    ensures
        service_status_of(checks) == HealthStatus::Unhealthy,
{
    lemma_enabled_statuses_members(checks);
    assert(some_enabled_check_reports(checks, HealthStatus::Unhealthy));
    assert(enabled_check_statuses(checks).contains(HealthStatus::Unhealthy));
}

/// Law: an enabled check without a result makes the service `Unknown`
/// unless some enabled check is degraded or unhealthy.
pub proof fn law_check_without_result_is_unknown(checks: Seq<CheckHealth>, i: int)
    requires
        0 <= i < checks.len(),
        checks[i].check.enabled,
        checks[i].latest_result is None,
        forall|j: int| 0 <= j < checks.len() && (#[trigger] checks[j]).check.enabled ==>
            check_status(checks[j]) != HealthStatus::Unhealthy && check_status(checks[j]) != HealthStatus::Degraded,
    ensures
        service_status_of(checks) == HealthStatus::Unknown,
{
    lemma_enabled_statuses_members(checks);
    assert(some_enabled_check_reports(checks, HealthStatus::Unknown));
    assert(enabled_check_statuses(checks).contains(HealthStatus::Unknown));
    assert(!some_enabled_check_reports(checks, HealthStatus::Unhealthy));
    assert(!some_enabled_check_reports(checks, HealthStatus::Degraded));
}

/// Law: only enabled checks count — two check lists whose enabled checks
/// report the same set of statuses give the same service status, however
/// many disabled checks they hold and in whatever order.
pub proof fn law_service_status_ignores_disabled_and_order(a: Seq<CheckHealth>, b: Seq<CheckHealth>)
    requires
        forall|s: HealthStatus| some_enabled_check_reports(a, s) <==> some_enabled_check_reports(b, s),
    ensures
        service_status_of(a) == service_status_of(b),
{
    lemma_enabled_statuses_members(a);
    lemma_enabled_statuses_members(b);
    assert forall|s: HealthStatus| enabled_check_statuses(a).contains(s) <==> enabled_check_statuses(b).contains(s) by {
        assert(some_enabled_check_reports(a, s) <==> some_enabled_check_reports(b, s));
    }
    crate::status::law_combined_depends_only_on_members(enabled_check_statuses(a), enabled_check_statuses(b));
}

/// Law: a project's status is the status of one of its services, and no
/// service is more severe than it; an unhealthy service makes the project
/// unhealthy. A project without services is `Unknown`.
pub proof fn law_project_status_is_most_severe_service(services: Seq<ServiceHealth>)
    ensures
        services.len() == 0 ==> combined_status(service_statuses(services)) == HealthStatus::Unknown,
        services.len() > 0 ==> exists|k: int| 0 <= k < services.len()
            && (#[trigger] services[k]).status == combined_status(service_statuses(services)),
        forall|k: int| 0 <= k < services.len() ==>
            crate::status::severity((#[trigger] services[k]).status) <= crate::status::severity(combined_status(service_statuses(services))),
        forall|k: int| 0 <= k < services.len() && (#[trigger] services[k]).status == HealthStatus::Unhealthy ==>
            combined_status(service_statuses(services)) == HealthStatus::Unhealthy,
{
    let statuses = service_statuses(services);
    if services.len() > 0 {
        assert(statuses.len() == services.len());
        crate::status::law_combined_is_most_severe(statuses);
        let c = combined_status(statuses);
        let k = choose|k: int| 0 <= k < statuses.len() && statuses[k] == c;
        assert(services[k].status == statuses[k]);
        assert forall|k: int| 0 <= k < services.len() implies
            crate::status::severity((#[trigger] services[k]).status) <= crate::status::severity(c) by {
            assert(statuses[k] == services[k].status);
        }
        assert forall|k: int| 0 <= k < services.len() && (#[trigger] services[k]).status == HealthStatus::Unhealthy implies
            c == HealthStatus::Unhealthy by {
            assert(statuses[k] == services[k].status);
            assert(statuses.contains(HealthStatus::Unhealthy));
        }
    }
}

} // verus!
