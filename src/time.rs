//! Wall-clock readings split into whole seconds and leftover microseconds.
use vstd::prelude::*;

verus! {

/// Microseconds in one second.
pub const USEC_PER_SEC: usize = 1_000_000;

/// A point in time: whole seconds and the microseconds past them.
#[derive(Debug, Clone, Copy, PartialEq, Eq, Structural)]
pub struct TimeVal {
    pub sec: usize,
    pub usec: usize,
}

/// The `TimeVal` that a microsecond count splits into.
pub open spec fn time_val_of(us: usize) -> TimeVal {
    TimeVal { sec: us / USEC_PER_SEC, usec: us % USEC_PER_SEC }
}

/// The total number of microseconds that a `TimeVal` stands for.
pub open spec fn total_us(t: TimeVal) -> int {
    t.sec * 1_000_000 + t.usec
}

impl TimeVal {
    /// Splits a microsecond count into whole seconds and the remainder.
    pub fn from_us(us: usize) -> (r: TimeVal)
        ensures
            r == time_val_of(us),
    {
        TimeVal { sec: us / USEC_PER_SEC, usec: us % USEC_PER_SEC }
    }
}

/// Splitting a microsecond count and putting the parts back together gives
/// the count again, and the microsecond part is always below one second.
pub proof fn lemma_from_us_round_trip(us: usize)
    ensures
        total_us(time_val_of(us)) == us as int,
        time_val_of(us).usec < USEC_PER_SEC,
{
    assert(((us / USEC_PER_SEC) as int) * 1_000_000 + (us % USEC_PER_SEC) as int == us as int)
        by (nonlinear_arith);
}

} // verus!
