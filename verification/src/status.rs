//! Interpreted health states and the severity ordering used to aggregate them.

use vstd::prelude::*;

verus! {

/// Interpreted health state for a service or check result.
#[derive(Debug, Clone, Copy, PartialEq, Eq, Structural)]
#[non_exhaustive]
pub enum HealthStatus {
    Healthy,
    Degraded,
    Unhealthy,
    Unknown,
}

/// Severity rank used when several statuses are combined:
/// `Healthy < Unknown < Degraded < Unhealthy`.
pub open spec fn severity(status: HealthStatus) -> nat {
    match status {
        HealthStatus::Healthy => 0,
        HealthStatus::Unknown => 1,
        HealthStatus::Degraded => 2,
        HealthStatus::Unhealthy => 3,
    }
}

/// The combined status of a collection of statuses: `Unknown` when there is
/// nothing to combine, otherwise the most severe status present.
pub open spec fn combined_status(statuses: Seq<HealthStatus>) -> HealthStatus {
    if statuses.len() == 0 {
        HealthStatus::Unknown
    } else if statuses.contains(HealthStatus::Unhealthy) {
        HealthStatus::Unhealthy
    } else if statuses.contains(HealthStatus::Degraded) {
        HealthStatus::Degraded
    } else if statuses.contains(HealthStatus::Unknown) {
        HealthStatus::Unknown
    } else {
        HealthStatus::Healthy
    }
}

/// Combines statuses by severity; an empty collection is `Unknown`.
pub fn aggregate_status(statuses: &[HealthStatus]) -> (combined: HealthStatus)
    ensures
        combined == combined_status(statuses@),
{
    if statuses.len() == 0 {
        return HealthStatus::Unknown;
    }
    let mut has_unhealthy = false;
    let mut has_degraded = false;
    let mut has_unknown = false;
    let n = statuses.len();
    let mut i: usize = 0;
    while i < n
        invariant
            n == statuses@.len(),
            i <= n,
            has_unhealthy <==> exists|j: int| 0 <= j < i && statuses@[j] == HealthStatus::Unhealthy,
            has_degraded <==> exists|j: int| 0 <= j < i && statuses@[j] == HealthStatus::Degraded,
            has_unknown <==> exists|j: int| 0 <= j < i && statuses@[j] == HealthStatus::Unknown,
        decreases n - i,
    {
        match statuses[i] {
            HealthStatus::Unhealthy => {
                has_unhealthy = true;
            },
            HealthStatus::Degraded => {
                has_degraded = true;
            },
            HealthStatus::Unknown => {
                has_unknown = true;
            },
            HealthStatus::Healthy => {},
        }
        i = i + 1;
    }
    if has_unhealthy {
        HealthStatus::Unhealthy
    } else if has_degraded {
        HealthStatus::Degraded
    } else if has_unknown {
        HealthStatus::Unknown
    } else {
        proof {
            assert forall|j: int| 0 <= j < n implies statuses@[j] == HealthStatus::Healthy by {
                match statuses@[j] {
                    HealthStatus::Healthy => {},
                    _ => {},
                }
            }
        }
        HealthStatus::Healthy
    }
}

/// The combined status of a non-empty collection is one of its members, and
/// no member is more severe than it.
pub proof fn law_combined_is_most_severe(statuses: Seq<HealthStatus>)
    requires
        statuses.len() > 0,
    ensures
        statuses.contains(combined_status(statuses)),
        forall|i: int| 0 <= i < statuses.len() ==> severity(#[trigger] statuses[i]) <= severity(combined_status(statuses)),
{
    if !statuses.contains(HealthStatus::Unhealthy) && !statuses.contains(HealthStatus::Degraded)
        && !statuses.contains(HealthStatus::Unknown) {
        assert(statuses[0] == HealthStatus::Healthy || statuses.contains(statuses[0]));
        match statuses[0] {
            HealthStatus::Healthy => {},
            _ => { assert(statuses.contains(statuses[0])); },
        }
    }
    assert forall|i: int| 0 <= i < statuses.len() implies severity(#[trigger] statuses[i]) <= severity(combined_status(statuses)) by {
        assert(statuses.contains(statuses[i]));
    }
}

/// Combining depends only on which statuses occur, not on their order or
/// multiplicity.
pub proof fn law_combined_depends_only_on_members(a: Seq<HealthStatus>, b: Seq<HealthStatus>)
    requires
        forall|s: HealthStatus| a.contains(s) <==> b.contains(s),
    ensures
        combined_status(a) == combined_status(b),
{
    if a.len() > 0 {
        assert(a.contains(a[0]));
        assert(b.len() > 0);
    }
    if b.len() > 0 {
        assert(b.contains(b[0]));
        assert(a.len() > 0);
    }
}

/// Adding a status to a non-empty collection never makes the combination
/// less severe.
pub proof fn law_combined_monotone(statuses: Seq<HealthStatus>, extra: HealthStatus)
    requires
        statuses.len() > 0,
    ensures
        severity(combined_status(statuses)) <= severity(combined_status(statuses.push(extra))),
        severity(extra) <= severity(combined_status(statuses.push(extra))),
{
    let bigger = statuses.push(extra);
    law_combined_is_most_severe(statuses);
    law_combined_is_most_severe(bigger);
    let c = combined_status(statuses);
    let k = choose|k: int| 0 <= k < statuses.len() && statuses[k] == c;
    assert(bigger[k] == c);
    assert(bigger[statuses.len() as int] == extra);
}

} // verus!
