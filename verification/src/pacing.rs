//! How long one frame stays on display, as a function of the processor load.

use vstd::prelude::*;
use crate::load::Percentage;

verus! {

/// The delay between frames of an idle machine, in milliseconds.
pub const SLOWEST_DELAY_MS: u64 = 200;

/// The delay between frames of a fully loaded machine, in milliseconds.
pub const FASTEST_DELAY_MS: u64 = 10;

/// `x`, or the nearer of `lo` and `hi` where `x` lies outside them.
pub open spec fn clamp(x: int, lo: int, hi: int) -> int {
    if x < lo {
        lo
    } else if x > hi {
        hi
    } else {
        x
    }
}

/// The delay between frames, in whole milliseconds, at a load of `tenths`
/// tenths of a percent.
///
/// With the load `u` in percent the delay is `200 / clamp(u / 5, 1, 20)`. In
/// tenths of a percent that is `10000 / clamp(tenths, 50, 1000)`; the fraction
/// of a millisecond is dropped.
pub open spec fn delay_at(tenths: int) -> int {
    10000int / clamp(tenths, 50, 1000)
}

/// The delay between frames at `load`, in milliseconds.
pub fn frame_delay_ms(load: Percentage) -> (delay: u64)
    ensures
        delay == delay_at(load@),
        FASTEST_DELAY_MS <= delay <= SLOWEST_DELAY_MS,
{
    let t: u64 = load.tenths() as u64;
    let divisor: u64 = if t < 50 {
        50
    } else {
        t
    };
    proof {
        lemma_delay_bounds(load@);
    }
    10000 / divisor
}

/// The delay never leaves the band from 10 ms to 200 ms, whatever the load.
pub proof fn lemma_delay_bounds(tenths: int)
    ensures
        FASTEST_DELAY_MS <= delay_at(tenths) <= SLOWEST_DELAY_MS,
{
    let c = clamp(tenths, 50, 1000);
    assert(10 <= 10000int / c <= 200) by (nonlinear_arith)
        requires
            50 <= c <= 1000,
    ;
}

/// A higher load never gives a longer delay.
pub proof fn lemma_delay_monotone(lower: int, higher: int)
    requires
        lower <= higher,
    ensures
        delay_at(lower) >= delay_at(higher),
{
    let a = clamp(lower, 50, 1000);
    let b = clamp(higher, 50, 1000);
    assert(10000int / a >= 10000int / b) by (nonlinear_arith)
        requires
            50 <= a <= b,
    ;
}

/// An idle machine waits 200 ms between frames and a fully loaded one 10 ms;
/// so does any machine at or below 5 %, and at or above 100 %.
pub proof fn lemma_delay_ends(tenths: int)
    ensures
        delay_at(0) == SLOWEST_DELAY_MS,
        delay_at(1000) == FASTEST_DELAY_MS,
        tenths <= 50 ==> delay_at(tenths) == SLOWEST_DELAY_MS,
        tenths >= 1000 ==> delay_at(tenths) == FASTEST_DELAY_MS,
{
    assert(10000int / 50 == 200);
    assert(10000int / 1000 == 10);
}

} // verus!
