//! The decision engine: on every new value, how long its emission must wait,
//! given the record of the previous emission.
use vstd::prelude::*;

use crate::time::{Span, Timestamp};

verus! {

/// The record of the most recently scheduled emission.
#[derive(Clone, Copy, Debug, PartialEq, Eq, Structural)]
pub struct ScheduleRecord {
    /// When the value of this emission arrived.
    pub scheduled_at: Timestamp,
    /// How long its emission was told to wait; `None` means at once.
    pub wait: Option<Span>,
}

/// What the engine asks for on a new value.
#[derive(Clone, Copy, Debug, PartialEq, Eq, Structural)]
pub struct Decision {
    /// Whether a previous emission exists and must be cancelled.
    pub cancel_previous: bool,
    /// How long the new emission waits before it delivers; `None` means at once.
    pub wait: Option<Span>,
}

/// The deterministic part of a debouncer: the minimum interval and the
/// record of the last scheduled emission, if any.
#[derive(Clone, Copy, Debug, PartialEq, Eq, Structural)]
pub struct Scheduler {
    pub min_interval: Span,
    pub last: Option<ScheduleRecord>,
}

/// A wait as an optional number of microseconds.
pub open spec fn wait_view(w: Option<Span>) -> Option<int> {
    match w {
        Some(s) => Some(s@),
        None => None,
    }
}

/// An optional number of microseconds as a wait.
pub open spec fn to_span(w: Option<int>) -> Option<Span> {
    match w {
        Some(x) => Some(Span { micros: x as u64 }),
        None => None,
    }
}

/// The decision table. `prev` is the previous record, `prev_finished` tells
/// whether its task has completed, `now` and `d` are the current time and the
/// minimum interval in microseconds.
///
/// - no previous record: emit at once;
/// - previous wait present, finished or not: wait `max(d, elapsed - d)`;
/// - no previous wait, task finished: at once if more than `d` has elapsed
///   since it was scheduled, else wait `d`;
/// - no previous wait, task not finished: at once.
///
/// A zero interval does not make every emission immediate: once the record
/// carries a wait, the next wait equals the time elapsed since that record
/// was scheduled (and zero when the clock went backwards).
pub open spec fn next_wait(prev: Option<ScheduleRecord>, prev_finished: bool, now: int, d: int) -> Option<int> {
    match prev {
        None => None,
        Some(rec) => {
            let elapsed = now - rec.scheduled_at@;
            match rec.wait {
                Some(_) => Some(if elapsed - d > d { elapsed - d } else { d }),
                None => if !prev_finished {
                    None
                } else if elapsed > d {
                    None
                } else {
                    Some(d)
                },
            }
        }
    }
}

/// Every wait of the table is at least the minimum interval and fits a `Span`.
pub proof fn lemma_next_wait_bounds(prev: Option<ScheduleRecord>, prev_finished: bool, now: Timestamp, d: Span)
    ensures
        match next_wait(prev, prev_finished, now@, d@) {
            Some(w) => d@ <= w <= u64::MAX,
            None => true,
        },
        wait_view(to_span(next_wait(prev, prev_finished, now@, d@))) == next_wait(prev, prev_finished, now@, d@),
{
}

/// How long the emission of a value arriving at `now` must wait, by the
/// decision table, where `prev_finished` tells whether the task of `prev`
/// has completed. With a zero interval, once the record carries a wait, the
/// next wait is the time elapsed since it was scheduled.
pub fn decide_wait(prev: Option<ScheduleRecord>, prev_finished: bool, now: Timestamp, min_interval: Span) -> (r: Option<Span>)
    ensures
        wait_view(r) == next_wait(prev, prev_finished, now@, min_interval@),
        r == to_span(next_wait(prev, prev_finished, now@, min_interval@)),
{
    match prev {
        None => None,
        Some(rec) => {
            let elapsed: i128 = now.micros as i128 - rec.scheduled_at.micros as i128;
            let d: i128 = min_interval.micros as i128;
            match rec.wait {
                Some(_) => {
                    let over: i128 = elapsed - d;
                    if over > d {
                        Some(Span { micros: over as u64 })
                    } else {
                        Some(min_interval)
                    }
                },
                None => {
                    if !prev_finished {
                        None
                    } else if elapsed > d {
                        None
                    } else {
                        Some(min_interval)
                    }
                },
            }
        },
    }
}

/// The record that a value arriving at `now` leaves behind.
pub open spec fn next_record(prev: Option<ScheduleRecord>, prev_finished: bool, now: Timestamp, d: Span) -> ScheduleRecord {
    ScheduleRecord { scheduled_at: now, wait: to_span(next_wait(prev, prev_finished, now@, d@)) }
}

/// The scheduler after a value arrives at `now`.
pub open spec fn step(s: Scheduler, now: Timestamp, prev_finished: bool) -> Scheduler {
    Scheduler {
        min_interval: s.min_interval,
        last: Some(next_record(s.last, prev_finished, now, s.min_interval)),
    }
}

/// The scheduler after a run of arrivals, each given by its time and by
/// whether the task of the one before it had finished when it came.
pub open spec fn run(s: Scheduler, arrivals: Seq<(Timestamp, bool)>) -> Scheduler
    decreases arrivals.len(),
{
    if arrivals.len() == 0 {
        s
    } else {
        let a = arrivals.last();
        step(run(s, arrivals.drop_last()), a.0, a.1)
    }
}

impl Scheduler {
    /// A scheduler with no emission yet.
    pub fn new(min_interval: Span) -> (r: Scheduler)
        ensures
            r.min_interval == min_interval,
            r.last.is_none(),
    {
        Scheduler { min_interval, last: None }
    }

    /// Takes a value arriving at `now`. `prev_finished` tells whether the task
    /// of the previous emission has completed. The previous emission, if any,
    /// is to be cancelled, and the new one waits as the decision table says;
    /// its record replaces the previous one.
    pub fn on_new_value(&mut self, now: Timestamp, prev_finished: bool) -> (r: Decision)
        ensures
            r.cancel_previous == old(self).last.is_some(),
            wait_view(r.wait) == next_wait(old(self).last, prev_finished, now@, old(self).min_interval@),
            *final(self) == step(*old(self), now, prev_finished),
            final(self).last == Some(ScheduleRecord { scheduled_at: now, wait: r.wait }),
    {
        let wait = decide_wait(self.last, prev_finished, now, self.min_interval);
        let cancel_previous = self.last.is_some();
        self.last = Some(ScheduleRecord { scheduled_at: now, wait });
        Decision { cancel_previous, wait }
    }

    /// The record of the last scheduled emission, if any.
    pub fn last_record(&self) -> (r: Option<ScheduleRecord>)
        ensures
            r == self.last,
    {
        self.last
    }
}

} // verus!
