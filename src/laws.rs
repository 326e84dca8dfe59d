//! Laws of the decision engine over runs of arrivals.
use vstd::prelude::*;

use crate::schedule::{lemma_next_wait_bounds, next_wait, run, step, wait_view, Scheduler};
use crate::time::Timestamp;

verus! {

/// Whether the scheduler holds a record whose emission waits at least `d`.
pub open spec fn waits_at_least(s: Scheduler, d: int) -> bool {
    match s.last {
        Some(rec) => match wait_view(rec.wait) {
            Some(w) => w >= d,
            None => false,
        },
        None => false,
    }
}

/// Coalescing: after each arrival of a run, the one live record is that of
/// the arrival itself, so every arrival but the first replaces, and cancels,
/// the emission of the one just before it. Of a burst of values only the
/// emission of the last is left uncancelled.
pub proof fn lemma_coalescing(s: Scheduler, arrivals: Seq<(Timestamp, bool)>)
    ensures
        forall|i: int|
            0 < i <= arrivals.len() ==> {
                let t = #[trigger] run(s, arrivals.take(i));
                &&& t.last.is_some()
                &&& t.last.unwrap().scheduled_at == arrivals[i - 1].0
                &&& t.min_interval == s.min_interval
            },
{
    assert forall|i: int| 0 < i <= arrivals.len() implies {
        let t = #[trigger] run(s, arrivals.take(i));
        &&& t.last.is_some()
        &&& t.last.unwrap().scheduled_at == arrivals[i - 1].0
        &&& t.min_interval == s.min_interval
    } by {
        let p = arrivals.take(i);
        assert(p.last() == arrivals[i - 1]);
        lemma_min_interval_kept(s, p.drop_last());
    }
}

/// A run of arrivals leaves the minimum interval as it was.
pub proof fn lemma_min_interval_kept(s: Scheduler, arrivals: Seq<(Timestamp, bool)>)
    ensures
        run(s, arrivals).min_interval == s.min_interval,
    decreases arrivals.len(),
{
    if arrivals.len() > 0 {
        lemma_min_interval_kept(s, arrivals.drop_last());
    }
}

/// Immediate emission: the first value that a scheduler with no record takes
/// is emitted at once, whatever the time.
pub proof fn lemma_first_immediate(s: Scheduler, now: Timestamp, prev_finished: bool)
    requires
        s.last.is_none(),
    ensures
        step(s, now, prev_finished).last.unwrap().wait.is_none(),
        next_wait(s.last, prev_finished, now@, s.min_interval@).is_none(),
{
}

/// Rate floor: once the live record carries a wait, every later emission
/// is told to wait at least the minimum interval after its value arrived, so
/// an idle period never brings back emission at once.
pub proof fn lemma_rate_floor(s: Scheduler, arrivals: Seq<(Timestamp, bool)>)
    requires
        s.last.is_some(),
        s.last.unwrap().wait.is_some(),
        arrivals.len() > 0,
    ensures
        waits_at_least(run(s, arrivals), s.min_interval@),
    decreases arrivals.len(),
{
    let prefix = arrivals.drop_last();
    let before = run(s, prefix);
    let a = arrivals.last();
    lemma_min_interval_kept(s, prefix);
    if prefix.len() > 0 {
        lemma_rate_floor(s, prefix);
    }
    assert(before.last.unwrap().wait.is_some());
    lemma_next_wait_bounds(before.last, a.1, a.0, before.min_interval);
}

/// Idle reset: when the previous emission waited for nothing and its task has
/// finished, a value arriving more than the minimum interval after it was
/// scheduled is emitted at once.
pub proof fn lemma_idle_reset(s: Scheduler, now: Timestamp)
    requires
        s.last.is_some(),
        s.last.unwrap().wait.is_none(),
        now@ - s.last.unwrap().scheduled_at@ > s.min_interval@,
    ensures
        step(s, now, true).last.unwrap().wait.is_none(),
{
}

} // verus!
