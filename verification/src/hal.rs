//! Peripheral-independent helpers behind the `embedded-hal` implementations:
//! splitting long delays into pieces the delay primitive accepts, and the
//! expiry test of a count-down timer.
use vstd::prelude::*;

verus! {

/// Delay provider.
#[derive(Debug, Copy, Clone, PartialEq, Eq, Structural)]
pub struct Delay {}

impl Delay {
    /// Constructs a new `Delay`.
    pub fn new() -> (r: Delay)
        ensures
            r == (Delay {}),
    {
        Delay {}
    }
}

/// How a delay of `total` units is made of delays of at most `u32::MAX`
/// units: `full` delays of `u32::MAX` units, then one of `last` units.
pub open spec fn delay_split_ok(total: u64, full: u64, last: u32) -> bool {
    &&& full * (u32::MAX as int) + last == total
    &&& (full > 0 ==> last > 0)
}

/// Splits a delay of `total` units (milliseconds or microseconds) into
/// full-length delays of `u32::MAX` units followed by one shorter or equal
/// delay, the way a 64-bit delay is passed on to a 32-bit delay primitive.
pub fn split_delay(total: u64) -> (r: (u64, u32))
    ensures
        delay_split_ok(total, r.0, r.1),
{
    let max = u32::MAX as u64;
    if total <= max {
        (0, total as u32)
    } else {
        let t = total - 1;
        let full = t / max;
        let rem = t % max;
        assert(full * max + rem == t && rem < max) by (nonlinear_arith)
            requires
                full == t / max,
                rem == t % max,
                max > 0,
        ;
        let last = rem + 1;
        (full, last as u32)
    }
}

/// Whether a count-down timer has expired: the time elapsed since it was
/// started reaches its duration.
pub fn timer_expired(elapsed_nanos: u128, duration_nanos: u128) -> (r: bool)
    ensures
        r == (elapsed_nanos >= duration_nanos),
{
    elapsed_nanos >= duration_nanos
}

} // verus!
