//! In-memory scheduling state: registered checks, when each is next due, and
//! whether it is running. A check is handed out only when it is enabled, not
//! running and due; it becomes due again one interval after it completes.

use vstd::prelude::*;

use crate::check::Check;
use crate::scheduler::config::SchedulerRunStats;

verus! {

/// The longest `std::time::Duration`, in nanoseconds.
pub const DURATION_MAX_NANOS: u128 = 18_446_744_073_709_551_615_999_999_999u128;

/// The largest time value a completion may carry (about 584 years of
/// nanoseconds after the origin); it keeps `completed_at + interval` in range.
pub const MAX_INSTANT_NANOS: u128 = 18_446_744_073_709_551_615u128;

/// The delay after a completion: `interval_seconds` units (at most
/// `u32::MAX` of them), saturating at the longest duration.
pub open spec fn interval_nanos(interval_seconds: u64, interval_unit: u128) -> int {
    let units: int = if interval_seconds > u32::MAX { u32::MAX as int } else { interval_seconds as int };
    let product = interval_unit * units;
    if product > DURATION_MAX_NANOS { DURATION_MAX_NANOS as int } else { product }
}

/// The delay after a completion, computed as `Duration::checked_mul` with
/// saturation would: `interval_seconds` (capped at `u32::MAX`) times the unit,
/// or the longest duration when that overflows.
pub fn interval_duration(interval_seconds: u64, interval_unit: u128) -> (delay: u128)
    ensures
        delay == interval_nanos(interval_seconds, interval_unit),
        delay <= DURATION_MAX_NANOS,
{
    let units: u128 = if interval_seconds > 4_294_967_295u64 { 4_294_967_295u128 } else { interval_seconds as u128 };
    match interval_unit.checked_mul(units) {
        Some(product) => {
            if product > DURATION_MAX_NANOS {
                DURATION_MAX_NANOS
            } else {
                product
            }
        },
        None => DURATION_MAX_NANOS,
    }
}

/// One registered check and its scheduling state.
#[derive(Debug)]
pub struct ScheduledCheck {
    pub check: Check,
    pub next_due: u128,
    pub running: bool,
    pub last_started: Option<u128>,
    pub last_completed: Option<u128>,
}

impl Clone for ScheduledCheck {
    fn clone(&self) -> (copy: Self)
        ensures
            copy == *self,
    {
        ScheduledCheck {
            check: self.check.clone(),
            next_due: self.next_due,
            running: self.running,
            last_started: self.last_started,
            last_completed: self.last_completed,
        }
    }
}

/// A freshly registered check: idle and due at once.
pub open spec fn fresh_entry(check: Check, now: u128) -> ScheduledCheck {
    ScheduledCheck { check, next_due: now, running: false, last_started: None, last_completed: None }
}

/// An entry is handed out at `now` when it is enabled, idle and due.
pub open spec fn is_due(entry: ScheduledCheck, now: u128) -> bool {
    entry.check.enabled && !entry.running && entry.next_due <= now
}

/// An entry after a claim at `now`: marked running if it was due.
pub open spec fn claimed_entry(entry: ScheduledCheck, now: u128) -> ScheduledCheck {
    if is_due(entry, now) {
        ScheduledCheck { running: true, last_started: Some(now), ..entry }
    } else {
        entry
    }
}

/// All entries after a claim at `now`.
pub open spec fn claimed_entries(entries: Seq<ScheduledCheck>, now: u128) -> Seq<ScheduledCheck> {
    entries.map_values(|e: ScheduledCheck| claimed_entry(e, now))
}

/// The checks a claim at `now` hands out, in registration order.
pub open spec fn due_checks(entries: Seq<ScheduledCheck>, now: u128) -> Seq<Check>
    decreases entries.len(),
{
    if entries.len() == 0 {
        Seq::empty()
    } else {
        let rest = due_checks(entries.drop_last(), now);
        if is_due(entries.last(), now) {
            rest.push(entries.last().check)
        } else {
            rest
        }
    }
}

/// An entry after its execution completed at `completed_at`: idle, and due
/// again one interval later.
pub open spec fn completed_entry(entry: ScheduledCheck, completed_at: u128, interval_unit: u128) -> ScheduledCheck {
    ScheduledCheck {
        running: false,
        last_completed: Some(completed_at),
        next_due: (completed_at + interval_nanos(entry.check.interval_seconds, interval_unit)) as u128,
        ..entry
    }
}

/// No two entries share a check id.
pub open spec fn distinct_ids(entries: Seq<ScheduledCheck>) -> bool {
    forall|i: int, j: int|
        0 <= i < entries.len() && 0 <= j < entries.len() && i != j ==> entries[i].check.id != entries[j].check.id
}

/// Some entry has the check id.
pub open spec fn has_id(entries: Seq<ScheduledCheck>, id: u128) -> bool {
    exists|i: int| 0 <= i < entries.len() && entries[i].check.id == id
}

/// The position of the entry with the check id (meaningful when `has_id`).
pub open spec fn index_of(entries: Seq<ScheduledCheck>, id: u128) -> int {
    choose|i: int| 0 <= i < entries.len() && entries[i].check.id == id
}

/// Entries after registering `check` at `now`: an entry with the same id is
/// replaced by a fresh one, otherwise a fresh entry is appended.
pub open spec fn registered_entries(entries: Seq<ScheduledCheck>, check: Check, now: u128) -> Seq<ScheduledCheck> {
    if has_id(entries, check.id) {
        entries.update(index_of(entries, check.id), fresh_entry(check, now))
    } else {
        entries.push(fresh_entry(check, now))
    }
}

/// Entries after the execution of check `id` completed; an unknown id changes nothing.
pub open spec fn completed_entries(entries: Seq<ScheduledCheck>, id: u128, completed_at: u128, interval_unit: u128) -> Seq<ScheduledCheck> {
    if has_id(entries, id) {
        let i = index_of(entries, id);
        entries.update(i, completed_entry(entries[i], completed_at, interval_unit))
    } else {
        entries
    }
}

/// The runtime's report of one finished execution task.
#[derive(Debug, Clone, Copy, PartialEq, Eq, Structural)]
pub struct ExecutionCompletion {
    pub check_id: u128,
    pub completed_at: u128,
    /// Whether the result sink accepted the result.
    pub recorded: bool,
}

/// How an execution task ended.
#[derive(Debug, Clone, Copy, PartialEq, Eq, Structural)]
pub enum TaskOutcome {
    /// The task ran to the end.
    Finished(ExecutionCompletion),
    /// The task panicked or was cancelled.
    Failed,
}

/// Registered checks and their scheduling state.
#[derive(Debug)]
pub struct SchedulerState {
    checks: Vec<ScheduledCheck>,
}

impl View for SchedulerState {
    type V = Seq<ScheduledCheck>;

    closed spec fn view(&self) -> Seq<ScheduledCheck> {
        self.checks@
    }
}

impl SchedulerState {
    /// The state invariant: one entry per check id.
    pub open spec fn well_formed(&self) -> bool {
        distinct_ids(self@)
    }

    /// An empty state.
    pub fn new() -> (state: Self)
        ensures
            state@ == Seq::<ScheduledCheck>::empty(),
            state.well_formed(),
    {
        SchedulerState { checks: Vec::new() }
    }

    /// The position of the entry for `id`, if any.
    fn find(&self, id: u128) -> (position: Option<usize>)
        requires
            self.well_formed(),
        ensures
            match position {
                Some(i) => has_id(self@, id) && i as int == index_of(self@, id) && i < self@.len(),
                None => !has_id(self@, id),
            },
    {
        let n = self.checks.len();
        let mut i: usize = 0;
        while i < n
            invariant
                n == self.checks@.len(),
                i <= n,
                distinct_ids(self@),
                forall|j: int| 0 <= j < i ==> self.checks@[j].check.id != id,
            decreases n - i,
        {
            if self.checks[i].check.id == id {
                proof {
                    assert(self@[i as int].check.id == id);
                    let k = index_of(self@, id);
                    assert(0 <= k < self@.len() && self@[k].check.id == id);
                    assert(k == i as int);
                }
                return Some(i);
            }
            i = i + 1;
        }
        None
    }

    /// Registers a check at `now`, replacing any entry with the same id; the
    /// check is due at once.
    pub fn register(&mut self, check: Check, now: u128)
        requires
            old(self).well_formed(),
        ensures
            final(self)@ == registered_entries(old(self)@, check, now),
            final(self).well_formed(),
    {
        let entry = ScheduledCheck { check, next_due: now, running: false, last_started: None, last_completed: None };
        match self.find(entry.check.id) {
            Some(i) => {
                self.checks.set(i, entry);
            },
            None => {
                self.checks.push(entry);
            },
        }
    }

    /// Marks every enabled, idle, due check as running (started at `now`)
    /// and returns copies of those checks, in registration order.
    pub fn claim_due_checks(&mut self, now: u128) -> (due: Vec<Check>)
        requires
            old(self).well_formed(),
        ensures
            final(self)@ == claimed_entries(old(self)@, now),
            due@ == due_checks(old(self)@, now),
            final(self).well_formed(),
    {
        let ghost original = self.checks@;
        let mut due: Vec<Check> = Vec::new();
        let n = self.checks.len();
        let mut i: usize = 0;
        while i < n
            invariant
                n == original.len(),
                i <= n,
                self.checks@.len() == n,
                forall|j: int| 0 <= j < i ==> self.checks@[j] == claimed_entry(original[j], now),
                forall|j: int| i <= j < n ==> self.checks@[j] == original[j],
                due@ == due_checks(original.take(i as int), now),
            decreases n - i,
        {
            proof {
                assert(original.take(i + 1).drop_last() =~= original.take(i as int));
                assert(original.take(i + 1).last() == original[i as int]);
            }
            let entry = &self.checks[i];
            if entry.check.enabled && !entry.running && entry.next_due <= now {
                let mut updated = entry.clone();
                updated.running = true;
                updated.last_started = Some(now);
                due.push(updated.check.clone());
                self.checks.set(i, updated);
            }
            i = i + 1;
        }
        proof {
            assert(original.take(n as int) =~= original);
            assert(self.checks@ =~= claimed_entries(original, now));
        }
        due
    }

    /// Records that the execution of check `check_id` completed at
    /// `completed_at`: the check is idle again and next due one interval
    /// later. An unknown id changes nothing.
    pub fn complete(&mut self, check_id: u128, completed_at: u128, interval_unit: u128)
        requires
            old(self).well_formed(),
            completed_at <= MAX_INSTANT_NANOS,
        ensures
            final(self)@ == completed_entries(old(self)@, check_id, completed_at, interval_unit),
            final(self).well_formed(),
    {
        match self.find(check_id) {
            Some(i) => {
                let mut updated = self.checks[i].clone();
                let delay = interval_duration(updated.check.interval_seconds, interval_unit);
                updated.running = false;
                updated.last_completed = Some(completed_at);
                updated.next_due = completed_at + delay;
                self.checks.set(i, updated);
            },
            None => {},
        }
    }

    /// Applies the end of one execution task: a finished task completes its
    /// check and counts as a completed execution (and as a sink error when its
    /// result was not recorded); a failed task only counts as a task failure.
    pub fn handle_task_completion(
        &mut self,
        completed: Option<TaskOutcome>,
        interval_unit: u128,
        stats: &mut SchedulerRunStats,
    )
        requires
            old(self).well_formed(),
            old(stats).completed_executions < u64::MAX,
            old(stats).sink_errors < u64::MAX,
            old(stats).task_failures < u64::MAX,
            completed matches Some(TaskOutcome::Finished(c)) ==> c.completed_at <= MAX_INSTANT_NANOS,
        ensures
            final(self).well_formed(),
            match completed {
                Some(TaskOutcome::Finished(c)) => {
                    &&& final(self)@ == completed_entries(old(self)@, c.check_id, c.completed_at, interval_unit)
                    &&& final(stats).completed_executions == old(stats).completed_executions + 1
                    &&& final(stats).sink_errors == old(stats).sink_errors + if c.recorded { 0int } else { 1int }
                    &&& final(stats).task_failures == old(stats).task_failures
                },
                Some(TaskOutcome::Failed) => {
                    &&& final(self)@ == old(self)@
                    &&& final(stats).completed_executions == old(stats).completed_executions
                    &&& final(stats).sink_errors == old(stats).sink_errors
                    &&& final(stats).task_failures == old(stats).task_failures + 1
                },
                None => {
                    &&& final(self)@ == old(self)@
                    &&& *final(stats) == *old(stats)
                },
            },
    {
        match completed {
            Some(TaskOutcome::Finished(completion)) => {
                self.complete(completion.check_id, completion.completed_at, interval_unit);
                stats.completed_executions = stats.completed_executions + 1;
                if !completion.recorded {
                    stats.sink_errors = stats.sink_errors + 1;
                }
            },
            Some(TaskOutcome::Failed) => {
                stats.task_failures = stats.task_failures + 1;
            },
            None => {},
        }
    }
}

/// Some entry of `entries` is due at `now` and holds `check`.
pub open spec fn from_due_entry(entries: Seq<ScheduledCheck>, now: u128, check: Check) -> bool {
    exists|i: int| 0 <= i < entries.len() && is_due(entries[i], now) && entries[i].check == check
}

/// The checks a claim hands out are exactly the checks of the due entries:
/// each handed-out check belongs to a due entry, and each due entry's check
/// is handed out.
pub proof fn lemma_due_checks_members(entries: Seq<ScheduledCheck>, now: u128)
    ensures
        forall|k: int| 0 <= k < due_checks(entries, now).len() ==> from_due_entry(entries, now, #[trigger] due_checks(entries, now)[k]),
        forall|i: int| 0 <= i < entries.len() && is_due(#[trigger] entries[i], now) ==>
            due_checks(entries, now).contains(entries[i].check),
    decreases entries.len(),
{
    if entries.len() > 0 {
        let init = entries.drop_last();
        lemma_due_checks_members(init, now);
        let rest = due_checks(init, now);
        let due = due_checks(entries, now);
        assert forall|k: int| 0 <= k < due.len() implies from_due_entry(entries, now, #[trigger] due[k]) by {
            if k < rest.len() {
                assert(due[k] == rest[k]);
                assert(from_due_entry(init, now, rest[k]));
                let i = choose|i: int| 0 <= i < init.len() && is_due(init[i], now) && init[i].check == rest[k];
                assert(entries[i] == init[i]);
            } else {
                assert(entries[entries.len() - 1] == entries.last());
            }
        }
        assert forall|i: int| 0 <= i < entries.len() && is_due(#[trigger] entries[i], now) implies due.contains(entries[i].check) by {
            if i < entries.len() - 1 {
                assert(init[i] == entries[i]);
                assert(rest.contains(entries[i].check));
                let k = choose|k: int| 0 <= k < rest.len() && rest[k] == entries[i].check;
                assert(due[k] == rest[k]);
            } else {
                assert(due[due.len() - 1] == entries.last().check);
            }
        }
    } else {
        assert(due_checks(entries, now).len() == 0);
    }
}

/// Law: a claim hands out only enabled checks that were idle and due.
pub proof fn law_claims_only_enabled_idle_due(entries: Seq<ScheduledCheck>, now: u128)
    ensures
        forall|k: int| 0 <= k < due_checks(entries, now).len() ==> (#[trigger] due_checks(entries, now)[k]).enabled,
{
    lemma_due_checks_members(entries, now);
    assert forall|k: int| 0 <= k < due_checks(entries, now).len() implies (#[trigger] due_checks(entries, now)[k]).enabled by {
        assert(from_due_entry(entries, now, due_checks(entries, now)[k]));
    }
}

/// Law: a check never overlaps with itself. After a claim at `first`, no
/// later claim (at any time, with no completion in between) hands out a
/// check that the first claim handed out.
pub proof fn law_no_overlapping_claims(entries: Seq<ScheduledCheck>, first: u128, second: u128)
    requires
        distinct_ids(entries),
    ensures
        forall|k: int, m: int|
            0 <= k < due_checks(claimed_entries(entries, first), second).len() && 0 <= m < due_checks(entries, first).len()
            ==> (#[trigger] due_checks(claimed_entries(entries, first), second)[k]).id != (#[trigger] due_checks(entries, first)[m]).id,
{
    let after = claimed_entries(entries, first);
    lemma_due_checks_members(entries, first);
    lemma_due_checks_members(after, second);
    assert forall|k: int, m: int|
        0 <= k < due_checks(after, second).len() && 0 <= m < due_checks(entries, first).len()
        implies (#[trigger] due_checks(after, second)[k]).id != (#[trigger] due_checks(entries, first)[m]).id by {
        assert(from_due_entry(after, second, due_checks(after, second)[k]));
        assert(from_due_entry(entries, first, due_checks(entries, first)[m]));
        let i = choose|i: int| 0 <= i < after.len() && is_due(after[i], second) && after[i].check == due_checks(after, second)[k];
        let j = choose|j: int| 0 <= j < entries.len() && is_due(entries[j], first) && entries[j].check == due_checks(entries, first)[m];
        assert(after[i] == claimed_entry(entries[i], first));
        assert(after[i].check == entries[i].check);
        if i == j {
            assert(after[i].running);
        }
    }
}

/// Law: a registered, enabled check is handed out by a claim at the time it
/// was registered.
pub proof fn law_registered_check_is_due(entries: Seq<ScheduledCheck>, check: Check, now: u128)
    requires
        distinct_ids(entries),
        check.enabled,
    ensures
        due_checks(registered_entries(entries, check, now), now).contains(check),
{
    let after = registered_entries(entries, check, now);
    lemma_due_checks_members(after, now);
    if has_id(entries, check.id) {
        let i = index_of(entries, check.id);
        assert(after[i] == fresh_entry(check, now));
        assert(is_due(after[i], now));
    } else {
        assert(after[entries.len() as int] == fresh_entry(check, now));
        assert(is_due(after[entries.len() as int], now));
    }
}

/// Law (fixed delay): after check `id` completes at `completed_at`, it is
/// idle, keeps its check, and is due at `now` exactly when it is enabled and
/// one interval has passed since the completion.
pub proof fn law_fixed_delay(entries: Seq<ScheduledCheck>, id: u128, completed_at: u128, interval_unit: u128, now: u128)
    requires
        distinct_ids(entries),
        has_id(entries, id),
        completed_at <= MAX_INSTANT_NANOS,
    ensures
        ({
            let i = index_of(entries, id);
            let after = completed_entries(entries, id, completed_at, interval_unit);
            &&& !after[i].running
            &&& after[i].check == entries[i].check
            &&& after[i].next_due == completed_at + interval_nanos(entries[i].check.interval_seconds, interval_unit)
            &&& (is_due(after[i], now) <==> (entries[i].check.enabled
                && completed_at + interval_nanos(entries[i].check.interval_seconds, interval_unit) <= now))
        }),
{
    let i = index_of(entries, id);
    let delay = interval_nanos(entries[i].check.interval_seconds, interval_unit);
    assert(0 <= delay <= DURATION_MAX_NANOS) by (nonlinear_arith)
        requires
            delay == interval_nanos(entries[i].check.interval_seconds, interval_unit),
    {
    }
}

/// Law: a claim at `now` changes only the entries it hands out. An entry
/// that is disabled, running or not yet due comes out exactly as it went in
/// (a running entry stays running); an enabled, idle, due entry keeps its
/// check and due time and becomes running, started at `now`.
pub proof fn law_claim_changes_only_handed_out(entries: Seq<ScheduledCheck>, now: u128)
    ensures
        claimed_entries(entries, now).len() == entries.len(),
        forall|i: int| 0 <= i < entries.len() ==> {
            let before = entries[i];
            let after = #[trigger] claimed_entries(entries, now)[i];
            if before.check.enabled && !before.running && before.next_due <= now {
                &&& after.running
                &&& after.last_started == Some(now)
                &&& after.check == before.check
                &&& after.next_due == before.next_due
                &&& after.last_completed == before.last_completed
            } else {
                after == before
            }
        },
        forall|i: int| 0 <= i < entries.len() && entries[i].running ==> (#[trigger] claimed_entries(entries, now)[i]).running,
{
}

/// The state after a sequence of claims at `times`, with no registration or
/// completion in between.
pub open spec fn after_claims(entries: Seq<ScheduledCheck>, times: Seq<u128>) -> Seq<ScheduledCheck>
    decreases times.len(),
{
    if times.len() == 0 {
        entries
    } else {
        claimed_entries(after_claims(entries, times.drop_last()), times.last())
    }
}

/// Claims keep every entry's check and position.
proof fn lemma_claims_keep_checks(entries: Seq<ScheduledCheck>, times: Seq<u128>)
    ensures
        after_claims(entries, times).len() == entries.len(),
        forall|i: int| 0 <= i < entries.len() ==> (#[trigger] after_claims(entries, times)[i]).check == entries[i].check,
    decreases times.len(),
{
    if times.len() > 0 {
        lemma_claims_keep_checks(entries, times.drop_last());
        law_claim_changes_only_handed_out(after_claims(entries, times.drop_last()), times.last());
        assert forall|i: int| 0 <= i < entries.len() implies (#[trigger] after_claims(entries, times)[i]).check == entries[i].check by {
            assert(after_claims(entries, times.drop_last())[i].check == entries[i].check);
        }
    }
}

/// A running entry stays running through any later claims.
proof fn lemma_running_persists(entries: Seq<ScheduledCheck>, times: Seq<u128>, from: int, to: int, i: int)
    requires
        0 <= from <= to <= times.len(),
        0 <= i < entries.len(),
        after_claims(entries, times.take(from))[i].running,
    ensures
        after_claims(entries, times.take(to))[i].running,
    decreases to - from,
{
    if from < to {
        lemma_running_persists(entries, times, from, to - 1, i);
        let prefix = times.take(to);
        assert(prefix.drop_last() =~= times.take(to - 1));
        lemma_claims_keep_checks(entries, times.take(to - 1));
        law_claim_changes_only_handed_out(after_claims(entries, times.take(to - 1)), prefix.last());
    }
}

/// Law: with no completion in between, no check is handed out twice. For
/// any sequence of claims, a check handed out by one claim is not handed
/// out by any later claim.
pub proof fn law_no_check_handed_out_twice(entries: Seq<ScheduledCheck>, times: Seq<u128>, j: int, k: int)
    requires
        distinct_ids(entries),
        0 <= j < k < times.len(),
    ensures
        forall|a: int, b: int|
            0 <= a < due_checks(after_claims(entries, times.take(k)), times[k]).len()
            && 0 <= b < due_checks(after_claims(entries, times.take(j)), times[j]).len()
            ==> (#[trigger] due_checks(after_claims(entries, times.take(k)), times[k])[a]).id
                != (#[trigger] due_checks(after_claims(entries, times.take(j)), times[j])[b]).id,
{
    let sj = after_claims(entries, times.take(j));
    let sk = after_claims(entries, times.take(k));
    lemma_claims_keep_checks(entries, times.take(j));
    lemma_claims_keep_checks(entries, times.take(k));
    lemma_claims_keep_checks(entries, times.take(j + 1));
    lemma_due_checks_members(sj, times[j]);
    lemma_due_checks_members(sk, times[k]);
    assert(times.take(j + 1).drop_last() =~= times.take(j));
    assert(times.take(j + 1).last() == times[j]);
    assert(after_claims(entries, times.take(j + 1)) == claimed_entries(sj, times[j]));
    law_claim_changes_only_handed_out(sj, times[j]);
    assert forall|a: int, b: int|
        0 <= a < due_checks(sk, times[k]).len() && 0 <= b < due_checks(sj, times[j]).len()
        implies (#[trigger] due_checks(sk, times[k])[a]).id != (#[trigger] due_checks(sj, times[j])[b]).id by {
        assert(from_due_entry(sk, times[k], due_checks(sk, times[k])[a]));
        assert(from_due_entry(sj, times[j], due_checks(sj, times[j])[b]));
        let ia = choose|i: int| 0 <= i < sk.len() && is_due(sk[i], times[k]) && sk[i].check == due_checks(sk, times[k])[a];
        let ib = choose|i: int| 0 <= i < sj.len() && is_due(sj[i], times[j]) && sj[i].check == due_checks(sj, times[j])[b];
        assert(claimed_entries(sj, times[j])[ib].running);
        lemma_running_persists(entries, times, j + 1, k, ib);
        assert(sk[ib].running);
        assert(ia != ib);
        assert(sk[ia].check == entries[ia].check);
        assert(sj[ib].check == entries[ib].check);
    }
}

/// Law: a completion changes only the entry of the completed check; every
/// other entry, running or not, is left exactly as it was.
pub proof fn law_complete_changes_only_its_check(entries: Seq<ScheduledCheck>, id: u128, completed_at: u128, interval_unit: u128)
    requires
        distinct_ids(entries),
    ensures
        completed_entries(entries, id, completed_at, interval_unit).len() == entries.len(),
        forall|i: int| 0 <= i < entries.len() && entries[i].check.id != id ==>
            #[trigger] completed_entries(entries, id, completed_at, interval_unit)[i] == entries[i],
{
}

/// Law: registering a check changes no entry of another check, keeps every
/// entry's position, and adds an entry only when the check was not registered.
pub proof fn law_register_changes_only_its_check(entries: Seq<ScheduledCheck>, check: Check, now: u128)
    requires
        distinct_ids(entries),
    ensures
        registered_entries(entries, check, now).len() == entries.len() + if has_id(entries, check.id) { 0int } else { 1int },
        forall|i: int| 0 <= i < entries.len() && entries[i].check.id != check.id ==>
            #[trigger] registered_entries(entries, check, now)[i] == entries[i],
        distinct_ids(registered_entries(entries, check, now)),
{
    let after = registered_entries(entries, check, now);
    if has_id(entries, check.id) {
        let k = index_of(entries, check.id);
        assert forall|i: int, j: int| 0 <= i < after.len() && 0 <= j < after.len() && i != j
            implies after[i].check.id != after[j].check.id by {
            if i == k {
                assert(entries[j].check.id != entries[k].check.id);
            } else if j == k {
                assert(entries[i].check.id != entries[k].check.id);
            }
        }
    } else {
        assert forall|i: int, j: int| 0 <= i < after.len() && 0 <= j < after.len() && i != j
            implies after[i].check.id != after[j].check.id by {
            if i == entries.len() {
                assert(!(0 <= j < entries.len() && entries[j].check.id == check.id));
            } else if j == entries.len() {
                assert(!(0 <= i < entries.len() && entries[i].check.id == check.id));
            }
        }
    }
}

/// Law: completing a check that is not registered changes nothing.
pub proof fn law_complete_unknown_is_noop(entries: Seq<ScheduledCheck>, id: u128, completed_at: u128, interval_unit: u128)
    requires
        !has_id(entries, id),
    ensures
        completed_entries(entries, id, completed_at, interval_unit) == entries,
{
}

} // verus!
