//! Signed spans of time, built by chrono.

use vstd::prelude::*;

verus! {

/// The whole seconds of the longest span: those of `i64::MAX` milliseconds.
pub const MAX_SECS: i64 = 9_223_372_036_854_775;

/// The nanoseconds beside `MAX_SECS` in the longest span.
pub const MAX_SECS_NANOS: u32 = 807_000_000;

/// The seconds from which the longest negative span, `-i64::MAX`
/// milliseconds, counts forward.
pub const MIN_SECS: i64 = -9_223_372_036_854_776;

/// The nanoseconds beside `MIN_SECS` in the longest negative span.
pub const MIN_SECS_NANOS: u32 = 193_000_000;

/// A signed span of time with nanosecond precision.
///
/// The span is `seconds` whole seconds, cut off toward zero, and a remainder
/// of `subsec_nanos` nanoseconds that has the sign of the span.
#[derive(Clone, Copy, Debug, PartialEq, Eq, Structural)]
pub struct Duration {
    pub seconds: i64,
    pub subsec_nanos: i32,
}

impl Duration {
    /// The remainder is less than a second and does not point against the
    /// whole seconds.
    pub open spec fn wf(self) -> bool {
        &&& -1_000_000_000 < self.subsec_nanos < 1_000_000_000
        &&& (self.seconds > 0 ==> self.subsec_nanos >= 0)
        &&& (self.seconds < 0 ==> self.subsec_nanos <= 0)
    }

    /// The span in nanoseconds.
    pub open spec fn nanoseconds(self) -> int {
        self.seconds * 1_000_000_000 + self.subsec_nanos
    }

    /// The span of `secs` whole seconds.
    pub open spec fn of_seconds(secs: int) -> Duration {
        Duration { seconds: secs as i64, subsec_nanos: 0 }
    }

    /// Whether a span can be made of `secs` seconds and `nanos` nanoseconds
    /// more: `nanos` is less than a second, and the span is no longer than
    /// `i64::MAX` milliseconds, forward or backward.
    pub open spec fn representable(secs: i64, nanos: u32) -> bool {
        &&& nanos < 1_000_000_000
        &&& -(i64::MAX * 1_000_000) <= secs * 1_000_000_000 + nanos <= i64::MAX * 1_000_000
    }

    /// The span of `secs` seconds and `nanos` nanoseconds more, where one can
    /// be made of them. `nanos` counts forward also where `secs` is negative.
    pub fn new(secs: i64, nanos: u32) -> (r: Option<Duration>)
        ensures
            r is Some <==> Self::representable(secs, nanos),
            r matches Some(d) ==> d.wf() && d.nanoseconds() == secs * 1_000_000_000 + nanos,
    {
        chrono_time_delta(secs, nanos)
    }
}

/// The bounds on seconds and nanoseconds as chrono tests them.
pub open spec fn chrono_accepts(secs: i64, nanos: u32) -> bool {
    &&& MIN_SECS <= secs <= MAX_SECS
    &&& nanos < 1_000_000_000
    &&& !(secs == MAX_SECS && nanos > MAX_SECS_NANOS)
    &&& !(secs == MIN_SECS && nanos < MIN_SECS_NANOS)
}

/// Trusted: calls chrono's `TimeDelta::new` and reads the result back with
/// `TimeDelta::num_seconds` and `TimeDelta::subsec_nanos`.
///
/// Claimed of `new`: it gives a span exactly where `chrono_accepts` holds.
/// Claimed of the two readers: they give the seconds and nanoseconds as they
/// were handed in, but for a negative number of seconds with nanoseconds
/// beside it, where the seconds are one more and the nanoseconds a second
/// less.
#[verifier::external_body]
fn chrono_time_delta(secs: i64, nanos: u32) -> (r: Option<Duration>)
    ensures
        r is Some <==> chrono_accepts(secs, nanos),
        r matches Some(d) ==> if secs < 0 && nanos > 0 {
            d.seconds == secs + 1 && d.subsec_nanos == nanos - 1_000_000_000
        } else {
            d.seconds == secs && d.subsec_nanos == nanos
        },
{
    match chrono::TimeDelta::new(secs, nanos) {
        Some(delta) => Some(Duration {
            seconds: delta.num_seconds(),
            subsec_nanos: delta.subsec_nanos(),
        }),
        None => None,
    }
}

} // verus!
