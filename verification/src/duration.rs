//! Spans of time.

use vstd::prelude::*;

verus! {

/// A span of time: whole seconds, and less than a second in nanoseconds.
#[derive(Clone, Copy, Debug, PartialEq, Eq, Structural)]
pub struct Duration {
    pub secs: u64,
    pub nanos: u32,
}

impl Duration {
    /// Whether the nanoseconds are less than a second.
    pub open spec fn is_valid(self) -> bool {
        self.nanos < 1_000_000_000
    }

    /// The span in whole milliseconds.
    pub open spec fn millis(self) -> int {
        self.secs * 1000 + (self.nanos / 1_000_000) as int
    }

    /// The span of this many milliseconds.
    pub fn from_millis(millis: u64) -> (r: Duration)
        ensures
            r.is_valid(),
            r.millis() == millis,
            r.nanos % 1_000_000 == 0,
    {
        let secs: u64 = millis / 1000;
        let nanos: u32 = ((millis % 1000) as u32) * 1_000_000;
        Duration { secs, nanos }
    }

    /// The span in whole milliseconds.
    pub fn as_millis(self) -> (r: u128)
        ensures
            r == self.millis(),
    {
        (self.secs as u128) * 1000 + (self.nanos / 1_000_000) as u128
    }
}

/// Milliseconds become a span of time and milliseconds again.
pub proof fn milliseconds_are_kept(millis: u64, span: Duration, again: u128)
    requires
        call_ensures(Duration::from_millis, (millis,), span),
        call_ensures(Duration::as_millis, (span,), again),
    ensures
        again == millis,
        span.nanos < 1_000_000_000,
        span.secs == millis / 1000,
{
}

} // verus!
