//! The decision engine together with the handle of the emission task it
//! scheduled last.
use vstd::prelude::*;

use crate::schedule::{next_wait, step, wait_view, Decision, ScheduleRecord, Scheduler};
use crate::time::{Span, Timestamp};

verus! {

/// A scheduler that also holds the handle of the last emission task, so that
/// it can ask whether that task has finished and cancel it when a newer value
/// arrives. At most one task is held, and a task is cancelled before it is
/// let go.
pub struct DebounceEngine {
    scheduler: Scheduler,
    task: Option<tokio::task::JoinHandle<()>>,
}

impl View for DebounceEngine {
    type V = Scheduler;

    closed spec fn view(&self) -> Scheduler {
        self.scheduler
    }
}

impl DebounceEngine {
    /// Whether the engine holds the handle of an emission task.
    pub closed spec fn holds_task(&self) -> bool {
        self.task.is_some()
    }

    /// An engine with no emission yet.
    pub fn new(min_interval: Span) -> (r: DebounceEngine)
        ensures
            r@ == (Scheduler { min_interval, last: None }),
            !r.holds_task(),
    {
        DebounceEngine { scheduler: Scheduler::new(min_interval), task: None }
    }

    /// Takes a value arriving at `now`: asks whether the task of the previous
    /// emission has finished (one that was never attached counts as
    /// finished), decides the wait of the new emission by the decision table,
    /// records it, and cancels the previous task. The caller spawns the new
    /// task with the returned wait and attaches it. The previous handle is
    /// let go after its task was asked to cancel, so none is held afterwards.
    pub fn on_new_value(&mut self, now: Timestamp) -> (r: Decision)
        ensures
            r.cancel_previous == old(self)@.last.is_some(),
            final(self)@.last == Some(ScheduleRecord { scheduled_at: now, wait: r.wait }),
            exists|prev_finished: bool|
                {
                    &&& #[trigger] step(old(self)@, now, prev_finished) == final(self)@
                    &&& wait_view(r.wait) == next_wait(old(self)@.last, prev_finished, now@, old(self)@.min_interval@)
                },
            !old(self).holds_task() ==> final(self)@ == step(old(self)@, now, true),
            !old(self).holds_task() ==> wait_view(r.wait) == next_wait(old(self)@.last, true, now@, old(self)@.min_interval@),
            !final(self).holds_task(),
    {
        let prev_finished = match &self.task {
            Some(t) => t.is_finished(),
            None => true,
        };
        let decision = self.scheduler.on_new_value(now, prev_finished);
        if let Some(t) = self.task.take() {
            t.abort();
        }
        assert(step(old(self)@, now, prev_finished) == self@);
        decision
    }

    /// Holds `task` as the task of the last emission; a task held before is
    /// cancelled first.
    pub fn attach(&mut self, task: tokio::task::JoinHandle<()>)
        ensures
            final(self)@ == old(self)@,
            final(self).holds_task(),
    {
        if let Some(t) = self.task.take() {
            t.abort();
        }
        self.task = Some(task);
    }

    /// The scheduler state: the minimum interval and the last record.
    pub fn scheduler(&self) -> (r: Scheduler)
        ensures
            r == self@,
    {
        self.scheduler
    }

    /// The minimum interval between emissions.
    pub fn min_interval(&self) -> (r: Span)
        ensures
            r == self@.min_interval,
    {
        self.scheduler.min_interval
    }
}

} // verus!
