//! A duration value with nanosecond precision.

use vstd::prelude::*;

verus! {

/// Nanoseconds per millisecond.
pub const NANOS_PER_MILLI: u64 = 1000000;

/// A span of time, counted in nanoseconds.
///
/// This is the value type behind the double-click-interval preference.
/// Platform sources report the interval as integer milliseconds or as
/// fractional seconds; both fit a nanosecond count exactly far beyond any
/// plausible interval.
#[derive(Debug, Clone, Copy, PartialEq, Eq, Structural)]
pub struct Duration {
    pub nanos: u128,
}

impl Duration {
    /// Builds a duration from whole milliseconds.
    pub fn from_millis(millis: u64) -> (r: Duration)
        ensures
            r.nanos == millis * NANOS_PER_MILLI,
    {
        proof {
            assert((millis as u128) * (NANOS_PER_MILLI as u128) <= 18446744073709551615u128
                * 1000000u128) by (nonlinear_arith)
                requires
                    (millis as u128) <= 18446744073709551615u128,
            ;
        }
        Duration { nanos: (millis as u128) * (NANOS_PER_MILLI as u128) }
    }

    /// Builds a duration from a nanosecond count.
    pub fn from_nanos(nanos: u128) -> (r: Duration)
        ensures
            r.nanos == nanos,
    {
        Duration { nanos }
    }

    /// The whole milliseconds this duration spans, rounded down.
    pub fn as_millis(self) -> (r: u128)
        ensures
            r == self.nanos / (NANOS_PER_MILLI as u128),
    {
        self.nanos / (NANOS_PER_MILLI as u128)
    }

    /// The exact nanosecond count.
    pub fn as_nanos(self) -> (r: u128)
        ensures
            r == self.nanos,
    {
        self.nanos
    }
}

} // verus!
