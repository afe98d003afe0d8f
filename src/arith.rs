//! Fixed-point travel arithmetic shared by the paddle and the ball.
use vstd::prelude::*;
use vstd::arithmetic::div_mod::{lemma_div_is_ordered, lemma_fundamental_div_mod};

verus! {

/// A speed in hundredths of an extent per second, over a time step in
/// milliseconds, gives `speed * extent * dt / STEP_DIVISOR` units.
pub const STEP_DIVISOR: u128 = 100000;

/// Units covered in `dt` milliseconds at `speed` hundredths of `extent` per second.
pub open spec fn travel(speed: int, extent: int, dt: int) -> int {
    speed * extent * dt / (STEP_DIVISOR as int)
}

/// Travel grows with the speed and with the extent.
pub proof fn lemma_travel_monotone(s1: int, s2: int, e1: int, e2: int, dt: int)
    requires
        0 <= s1 <= s2,
        0 <= e1 <= e2,
        0 <= dt,
    ensures
        0 <= travel(s1, e1, dt) <= travel(s2, e2, dt),
{
    assert(0 <= s1 * e1 * dt <= s2 * e2 * dt) by (nonlinear_arith)
        requires
            0 <= s1 <= s2,
            0 <= e1 <= e2,
            0 <= dt,
    ;
    lemma_div_is_ordered(s1 * e1 * dt, s2 * e2 * dt, STEP_DIVISOR as int);
    lemma_div_is_ordered(0, s1 * e1 * dt, STEP_DIVISOR as int);
}

/// A product whose quotient is at most `m` is below `(m + 1) * STEP_DIVISOR`.
pub proof fn lemma_product_below(p: int, m: int)
    requires
        0 <= p,
        p / (STEP_DIVISOR as int) <= m,
    ensures
        p < (m + 1) * (STEP_DIVISOR as int),
{
    let d = STEP_DIVISOR as int;
    lemma_fundamental_div_mod(p, d);
    assert(p % d < d);
    assert(d * (p / d) <= d * m) by (nonlinear_arith)
        requires
            p / d <= m,
            d > 0,
    ;
}

/// Computes `travel(speed, extent, dt)`.
pub fn travel_exec(speed: u64, extent: u32, dt: u32) -> (r: u128)
    requires
        speed < 0x4_0000_0000,
    ensures
        r == travel(speed as int, extent as int, dt as int),
        r < 0x4_0000_0000_0000_0000_0000_0000,
{
    proof {
        let (s, e, t) = (speed as int, extent as int, dt as int);
        assert(s * e <= 0x4_0000_0000 * 0x1_0000_0000) by (nonlinear_arith)
            requires
                0 <= s < 0x4_0000_0000,
                0 <= e < 0x1_0000_0000,
        ;
        assert(s * e * t <= 0x4_0000_0000 * 0x1_0000_0000 * 0x1_0000_0000) by (nonlinear_arith)
            requires
                0 <= s * e <= 0x4_0000_0000 * 0x1_0000_0000,
                0 <= t < 0x1_0000_0000,
        ;
    }
    let q: u128 = speed as u128 * extent as u128 * dt as u128;
    q / STEP_DIVISOR
}

} // verus!
