//! A plain millisecond duration, the time unit used throughout the crate.

use vstd::prelude::*;

verus! {

/// A span of time measured in whole milliseconds.
#[derive(Clone, Copy, Debug, PartialEq, Eq, Structural)]
pub struct DurationMs {
    pub millis: u64,
}

impl DurationMs {
    /// The zero-length span.
    pub fn zero() -> (r: DurationMs)
        ensures
            r.millis == 0,
    {
        DurationMs { millis: 0 }
    }

    /// A span of `ms` milliseconds.
    pub fn from_millis(ms: u64) -> (r: DurationMs)
        ensures
            r.millis == ms,
    {
        DurationMs { millis: ms }
    }

    /// A span of `secs` whole seconds.
    pub fn from_secs(secs: u64) -> (r: DurationMs)
        requires
            secs <= u64::MAX / 1000,
        ensures
            r.millis == secs * 1000,
    {
        DurationMs { millis: secs * 1000 }
    }

    /// The span rounded down to whole seconds.
    pub fn as_secs(&self) -> (r: u64)
        ensures
            r == self.millis / 1000,
    {
        self.millis / 1000
    }

    /// The span in whole milliseconds.
    pub fn as_millis(&self) -> (r: u64)
        ensures
            r == self.millis,
    {
        self.millis
    }

    /// Whether the span is zero.
    pub fn is_zero(&self) -> (r: bool)
        ensures
            r == (self.millis == 0),
    {
        self.millis == 0
    }

    /// The sum of two spans, saturating at the largest representable span.
    pub fn saturating_add(&self, other: DurationMs) -> (r: DurationMs)
        ensures
            r.millis == if self.millis + other.millis <= u64::MAX {
                self.millis + other.millis
            } else {
                u64::MAX as int
            },
    {
        DurationMs { millis: if self.millis <= u64::MAX - other.millis {
            self.millis + other.millis
        } else {
            u64::MAX
        } }
    }
}

} // verus!
