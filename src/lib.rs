//! Debouncing with a rate cap: a rapid stream of values is coalesced into a
//! sparser one whose emissions are spaced by at least a minimum interval, and
//! which always surfaces the most recent value.
//!
//! The library holds the decision logic: given the record of the previous
//! emission, the current time and whether the previous emission task has
//! finished, how long the next emission must wait. Clocks, channels and the
//! spawning of tasks are left to the embedding program.
pub mod engine;
pub mod laws;
pub mod schedule;
pub mod task;
pub mod time;

pub use engine::DebounceEngine;
pub use schedule::{Decision, ScheduleRecord, Scheduler};
pub use time::{Span, Timestamp};
