//! Properties that hold across the engine's operations.
use vstd::prelude::*;
use vstd::arithmetic::div_mod::{lemma_div_is_ordered, lemma_div_multiples_vanish};
use crate::arith::{lemma_travel_monotone, travel, STEP_DIVISOR};
use crate::game::{homed, homing_step, App, Keys};

verus! {

/// The distance between two rows.
pub open spec fn gap(a: int, b: int) -> int {
    if a >= b {
        a - b
    } else {
        b - a
    }
}

/// Resetting twice leaves the same state as resetting once.
pub proof fn lemma_reset_idempotent(s: App)
    ensures
        s.reset_of().reset_of() == s.reset_of(),
{
}

/// The round never falls but to zero on a miss, which resets the game, and it
/// rises by exactly one on each far-wall bounce of a running game.
pub proof fn lemma_round_progress(s: App, dt: int, keys: Keys, contact_row: int, bounce_row: int)
    requires
        s.round < u32::MAX,
    ensures
        ({
            let n = s.next(dt, keys, contact_row, bounce_row);
            let running = s.started || keys.start;
            &&& n.round == s.round || n.round == s.round + 1 || n.round == 0
            &&& n.round < s.round ==> running && s.ball_misses() && !n.started
            &&& (n.round == s.round + 1 <==> running && !s.ball_misses() && s.ball_bounces())
        }),
{
}

/// With `eff * dt` at most twice the step divisor, a homing step never
/// leaves the ball farther from its target row.
pub proof fn lemma_homed_closer(y: int, ty: int, eff: int, dt: int)
    requires
        0 <= eff,
        0 <= dt,
        eff * dt <= 2 * STEP_DIVISOR,
    ensures
        gap(homed(y, ty, eff, dt), ty) <= gap(y, ty),
{
    let d = gap(y, ty);
    let dv = STEP_DIVISOR as int;
    assert(0 <= eff * d * dt <= dv * (2 * d)) by (nonlinear_arith)
        requires
            0 <= eff,
            0 <= dt,
            0 <= d,
            eff * dt <= 2 * dv,
    ;
    lemma_div_is_ordered(eff * d * dt, dv * (2 * d), dv);
    lemma_div_is_ordered(0, eff * d * dt, dv);
    lemma_div_multiples_vanish(2 * d, dv);
    assert(homing_step(y, ty, eff, dt) == travel(eff, d, dt));
}

/// While the target stays put and the step is small (the ball's effective
/// speed times `dt` at most twice the step divisor), a tick of a running game
/// that does not miss brings the ball no farther from its target row.
pub proof fn lemma_homing_converges(s: App, dt: int, keys: Keys, contact_row: int, bounce_row: int)
    requires
        s.wf(),
        0 <= dt,
        s.fits_tick(dt),
        s.started || keys.start,
        !s.ball_misses(),
        s.next(dt, keys, contact_row, bounce_row).ball.target == s.ball.target,
        s.effective_speed(s.next(dt, keys, contact_row, bounce_row).round as int) * dt <= 2
            * STEP_DIVISOR,
    ensures
        gap(s.next(dt, keys, contact_row, bounce_row).ball.y as int, s.ball.target_y()) <= gap(
            s.ball.y as int,
            s.ball.target_y(),
        ),
{
    let n = s.next(dt, keys, contact_row, bounce_row);
    let eff = s.effective_speed(n.round as int);
    let y = s.ball.y as int;
    let ty = s.ball.target_y();
    let ay = if y >= 0 {
        y
    } else {
        -y
    };
    lemma_homed_closer(y, ty, eff, dt);
    lemma_travel_monotone(eff, s.top_speed(), gap(y, ty), ay + s.height(), dt);
    assert(homing_step(y, ty, eff, dt) == travel(eff, gap(y, ty), dt));
}

} // verus!
