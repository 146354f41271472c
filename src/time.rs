//! Instants in UTC and the whole milliseconds between two of them.
use vstd::prelude::*;

verus! {

/// An instant in UTC: whole seconds since the Unix epoch, and nanoseconds
/// past that second.
#[derive(Clone, Copy, Debug, PartialEq, Eq)]
pub struct Timestamp {
    /// Seconds since 1970-01-01T00:00:00Z; negative before it.
    pub secs: i64,
    /// Nanoseconds past `secs`.
    pub nanos: u32,
}

impl Timestamp {
    /// The instant, in nanoseconds since the epoch.
    pub open spec fn total_nanos(self) -> int {
        self.secs * 1_000_000_000 + self.nanos
    }
}

/// Whole milliseconds from `start` to `end`, truncated toward zero; negative
/// when `end` comes first.
pub open spec fn millis_between(start: Timestamp, end: Timestamp) -> int {
    let d = end.total_nanos() - start.total_nanos();
    if d >= 0 {
        d / 1_000_000
    } else {
        -((-d) / 1_000_000)
    }
}

/// Computes `millis_between(*start, *end)` without overflow.
pub(crate) fn elapsed_millis(start: &Timestamp, end: &Timestamp) -> (r: i128)
    ensures
        r == millis_between(*start, *end),
{
    let secs: i128 = end.secs as i128 - start.secs as i128;
    proof {
        assert(-0x1_0000_0000_0000_0000 < secs < 0x1_0000_0000_0000_0000);
        assert(-0x1_0000_0000_0000_0000 * 1_000_000_000 < secs * 1_000_000_000
            < 0x1_0000_0000_0000_0000 * 1_000_000_000) by (nonlinear_arith)
            requires
                -0x1_0000_0000_0000_0000 < secs < 0x1_0000_0000_0000_0000,
        ;
    }
    let d: i128 = secs * 1_000_000_000 + (end.nanos as i128 - start.nanos as i128);
    assert(d == end.total_nanos() - start.total_nanos());
    if d >= 0 {
        ((d as u128) / 1_000_000) as i128
    } else {
        let magnitude: u128 = (-(d + 1)) as u128 + 1;
        -((magnitude / 1_000_000) as i128)
    }
}

} // verus!
