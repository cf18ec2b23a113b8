//! Discretization of a poll period into the hardware's coarse time unit.
//!
//! When polling for a target, the waiting time between attempts is handed to
//! the native layer as a count of fixed 150 ms units in a single byte. A
//! requested duration in milliseconds is rounded down to the nearest unit
//! and clamped to the largest representable count, 255 units.

use vstd::prelude::*;

verus! {

/// Length of one hardware poll-period unit, in milliseconds.
pub const POLL_PERIOD_UNIT_MS: u64 = 150;

/// Largest poll-period unit count the native byte can carry.
pub const POLL_PERIOD_MAX_UNITS: u8 = 255;

/// The unit count a requested period in milliseconds discretizes to:
/// rounded down to whole 150 ms units, clamped to 255.
pub open spec fn poll_period_units_of(ms: u64) -> int {
    if ms as int / 150 < 255 {
        ms as int / 150
    } else {
        255
    }
}

/// Discretize a requested poll period to the hardware's unit: the period in
/// milliseconds, rounded down to whole 150 ms units and clamped to 255.
pub fn poll_period_units(ms: u64) -> (r: u8)
    ensures
        r as int == poll_period_units_of(ms),
{
    let units: u64 = ms / POLL_PERIOD_UNIT_MS;
    if units >= 255 {
        POLL_PERIOD_MAX_UNITS
    } else {
        units as u8
    }
}

/// The discretization boundaries: a request of 0 ms maps to unit count 0, a
/// request of 38250 ms (255 units) or more saturates at 255, and anything
/// between rounds down to the nearest whole unit — the resulting count never
/// overshoots the request.
pub proof fn lemma_poll_period_discretization(ms: u64)
    ensures
        ms == 0 ==> poll_period_units_of(ms) == 0,
        ms >= 38250 ==> poll_period_units_of(ms) == 255,
        ms < 38250 ==> poll_period_units_of(ms) == ms as int / 150,
        150 * poll_period_units_of(ms) <= ms,
{
    if ms >= 38250 {
        assert(ms as int / 150 >= 255) by (nonlinear_arith)
            requires
                ms >= 38250,
        ;
    } else {
        assert(ms as int / 150 < 255) by (nonlinear_arith)
            requires
                ms < 38250,
        ;
    }
    assert(150 * (ms as int / 150) <= ms) by (nonlinear_arith);
}

} // verus!
