//! An in-memory result sink for tests and early runtime validation: results
//! are kept in the order they were recorded.

use vstd::prelude::*;

use crate::result::CheckResult;
use crate::results::sink::ResultSinkError;

verus! {

/// The results recorded for one check, in recording order.
pub open spec fn results_for(results: Seq<CheckResult>, check_id: u128) -> Seq<CheckResult>
    decreases results.len(),
{
    if results.len() == 0 {
        Seq::empty()
    } else {
        let rest = results_for(results.drop_last(), check_id);
        if results.last().check_id == check_id {
            rest.push(results.last())
        } else {
            rest
        }
    }
}

/// The most recently recorded result for one check, if any.
pub open spec fn latest_for(results: Seq<CheckResult>, check_id: u128) -> Option<CheckResult>
    decreases results.len(),
{
    if results.len() == 0 {
        None
    } else if results.last().check_id == check_id {
        Some(results.last())
    } else {
        latest_for(results.drop_last(), check_id)
    }
}

/// In-memory result sink; its view is the recorded results in order.
#[derive(Debug)]
pub struct InMemoryResultSink {
    results: Vec<CheckResult>,
}

impl View for InMemoryResultSink {
    type V = Seq<CheckResult>;

    closed spec fn view(&self) -> Seq<CheckResult> {
        self.results@
    }
}

impl Default for InMemoryResultSink {
    /// An empty sink.
    fn default() -> (sink: Self)
        ensures
            sink@ == Seq::<CheckResult>::empty(),
    {
        InMemoryResultSink::new()
    }
}

impl InMemoryResultSink {
    /// An empty sink.
    pub fn new() -> (sink: Self)
        ensures
            sink@ == Seq::<CheckResult>::empty(),
    {
        InMemoryResultSink { results: Vec::new() }
    }

    /// Records a result after those already recorded; recording never fails.
    pub fn record(&mut self, result: CheckResult) -> (outcome: Result<(), ResultSinkError>)
        ensures
            outcome is Ok,
            final(self)@ == old(self)@.push(result),
    {
        self.results.push(result);
        Ok(())
    }

    /// Copies of all recorded results, in recording order.
    pub fn all_results(&self) -> (all: Vec<CheckResult>)
        ensures
            all@ == self@,
    {
        let mut all: Vec<CheckResult> = Vec::new();
        let n = self.results.len();
        let mut i: usize = 0;
        while i < n
            invariant
                n == self.results@.len(),
                i <= n,
                all@ == self.results@.take(i as int),
            decreases n - i,
        {
            all.push(self.results[i].clone());
            proof {
                assert(self.results@.take(i + 1) =~= self.results@.take(i as int).push(self.results@[i as int]));
            }
            i = i + 1;
        }
        proof {
            assert(self.results@.take(n as int) =~= self.results@);
        }
        all
    }

    /// Copies of the results recorded for one check, in recording order.
    pub fn results_for_check(&self, check_id: u128) -> (selected: Vec<CheckResult>)
        ensures
            selected@ == results_for(self@, check_id),
    {
        let mut selected: Vec<CheckResult> = Vec::new();
        let n = self.results.len();
        let mut i: usize = 0;
        while i < n
            invariant
                n == self.results@.len(),
                i <= n,
                selected@ == results_for(self.results@.take(i as int), check_id),
            decreases n - i,
        {
            proof {
                assert(self.results@.take(i + 1).drop_last() =~= self.results@.take(i as int));
                assert(self.results@.take(i + 1).last() == self.results@[i as int]);
            }
            if self.results[i].check_id == check_id {
                selected.push(self.results[i].clone());
            }
            i = i + 1;
        }
        proof {
            assert(self.results@.take(n as int) =~= self.results@);
        }
        selected
    }

    /// A copy of the most recently recorded result for one check, if any.
    pub fn latest_for_check(&self, check_id: u128) -> (latest: Option<CheckResult>)
        ensures
            latest == latest_for(self@, check_id),
    {
        let n = self.results.len();
        let mut i: usize = n;
        proof {
            assert(self.results@ =~= self.results@.take(n as int));
        }
        while i > 0
            invariant
                n == self.results@.len(),
                i <= n,
                latest_for(self.results@, check_id) == latest_for(self.results@.take(i as int), check_id),
            decreases i,
        {
            let j = i - 1;
            proof {
                assert(self.results@.take(i as int).drop_last() =~= self.results@.take(j as int));
                assert(self.results@.take(i as int).last() == self.results@[j as int]);
            }
            if self.results[j].check_id == check_id {
                return Some(self.results[j].clone());
            }
            i = j;
        }
        None
    }

    /// Forgets every recorded result.
    pub fn clear(&mut self)
        ensures
            final(self)@ == Seq::<CheckResult>::empty(),
    {
        self.results.clear();
    }
}

/// Law: results recorded for a check come back in recording order — the
/// result recorded last for a check is appended to that check's results, and
/// other checks' results are unchanged.
pub proof fn law_record_appends_in_order(results: Seq<CheckResult>, recorded: CheckResult, check_id: u128)
    ensures
        results_for(results.push(recorded), check_id) == if recorded.check_id == check_id {
            results_for(results, check_id).push(recorded)
        } else {
            results_for(results, check_id)
        },
{
    assert(results.push(recorded).drop_last() =~= results);
}

/// Law: after recording a result, it is the latest result of its check, and
/// the latest result of every other check is unchanged.
pub proof fn law_record_then_latest(results: Seq<CheckResult>, recorded: CheckResult, check_id: u128)
    ensures
        latest_for(results.push(recorded), recorded.check_id) == Some(recorded),
        check_id != recorded.check_id ==> latest_for(results.push(recorded), check_id) == latest_for(results, check_id),
{
    assert(results.push(recorded).drop_last() =~= results);
}

/// Law: the latest result of a check is the last of its results in
/// recording order, and every result selected for a check belongs to it.
pub proof fn law_latest_is_last_selected(results: Seq<CheckResult>, check_id: u128)
    ensures
        latest_for(results, check_id) == if results_for(results, check_id).len() == 0 {
            None::<CheckResult>
        } else {
            Some(results_for(results, check_id).last())
        },
        forall|k: int| 0 <= k < results_for(results, check_id).len() ==> (#[trigger] results_for(results, check_id)[k]).check_id == check_id,
    decreases results.len(),
{
    if results.len() > 0 {
        law_latest_is_last_selected(results.drop_last(), check_id);
        let rest = results_for(results.drop_last(), check_id);
        let all = results_for(results, check_id);
        assert forall|k: int| 0 <= k < all.len() implies (#[trigger] all[k]).check_id == check_id by {
            if k < rest.len() {
                assert(all[k] == rest[k]);
            }
        }
    }
}

} // verus!
