//! Instants and durations as plain integers of microseconds.
use vstd::prelude::*;

verus! {

/// A wall-clock instant, in microseconds since the Unix epoch.
#[derive(Clone, Copy, Debug, PartialEq, Eq, Structural)]
pub struct Timestamp {
    pub micros: i64,
}

/// A non-negative length of time, in microseconds.
#[derive(Clone, Copy, Debug, PartialEq, Eq, Structural)]
pub struct Span {
    pub micros: u64,
}

impl View for Timestamp {
    type V = int;

    open spec fn view(&self) -> int {
        self.micros as int
    }
}

impl View for Span {
    type V = int;

    open spec fn view(&self) -> int {
        self.micros as int
    }
}

impl Timestamp {
    pub fn from_micros(micros: i64) -> (r: Timestamp)
        ensures
            r@ == micros as int,
    {
        Timestamp { micros }
    }

    pub fn as_micros(&self) -> (r: i64)
        ensures
            r as int == self@,
    {
        self.micros
    }
}

impl Span {
    pub fn from_micros(micros: u64) -> (r: Span)
        ensures
            r@ == micros as int,
    {
        Span { micros }
    }

    pub fn as_micros(&self) -> (r: u64)
        ensures
            r as int == self@,
    {
        self.micros
    }
}

} // verus!
