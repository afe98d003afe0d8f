//! The simulation engine: round state, paddle control, and the ball's flight.
use vstd::prelude::*;
use vstd::arithmetic::div_mod::lemma_div_is_ordered;
use crate::arith::{lemma_product_below, lemma_travel_monotone, travel, travel_exec, STEP_DIVISOR};
use crate::model::{Ball, Direction, Pallet};

verus! {

/// Which keys are held during a tick.
#[derive(Clone, Copy, Debug)]
pub struct Keys {
    pub start: bool,
    pub up: bool,
    pub down: bool,
    pub speed_up: bool,
    pub speed_down: bool,
}

/// Variants of the rules.
#[derive(Clone, Copy, Debug)]
pub struct Policy {
    /// The ball speeds up by one hundredth for each round played.
    pub escalating: bool,
    /// A retargeted ball aims at a drawn row rather than the middle row.
    pub random_rows: bool,
}

/// The whole simulation: paddle, ball and round state.
#[derive(Clone, Copy, Debug)]
pub struct App {
    pub pallet: Pallet,
    pub ball: Ball,
    /// Court width and height in world units.
    pub resolution: [u32; 2],
    /// Device pixel ratio in thousandths.
    pub scale_milli: u32,
    pub started: bool,
    pub round: u32,
    pub policy: Policy,
}

/// The paddle after one tick of held keys: each move is made only when it
/// keeps the paddle inside `[0, height]`, down first, then up; the speed
/// then drops by one hundredth (never below one) and rises by one.
pub open spec fn steered_pallet(p: Pallet, height: int, dt: int, keys: Keys) -> Pallet {
    let delta = travel(p.speed as int, height, dt);
    let y1 = if keys.down && p.y + delta + p.size <= height {
        p.y + delta
    } else {
        p.y as int
    };
    let y2 = if keys.up && y1 - delta - p.size >= 0 {
        y1 - delta
    } else {
        y1
    };
    let s1 = if keys.speed_down && p.speed > 1 {
        p.speed - 1
    } else {
        p.speed as int
    };
    let s2 = if keys.speed_up && s1 < u32::MAX {
        s1 + 1
    } else {
        s1
    };
    Pallet { y: y2 as i64, speed: s2 as u32, ..p }
}

/// Units the ball's row moves towards `ty` from `y` at speed `eff` in `dt`:
/// the distance left plays the part of the extent.
pub open spec fn homing_step(y: int, ty: int, eff: int, dt: int) -> int {
    let d = if y > ty {
        y - ty
    } else {
        ty - y
    };
    travel(eff, d, dt)
}

/// The row after one homing step: the move shrinks with the distance left.
pub open spec fn homed(y: int, ty: int, eff: int, dt: int) -> int {
    if y > ty {
        y - homing_step(y, ty, eff, dt)
    } else {
        y + homing_step(y, ty, eff, dt)
    }
}

impl Ball {
    /// The ball after one step at speed `eff` on a court `width` wide: a full
    /// horizontal travel along its heading, and a homing step towards its row.
    pub open spec fn moved(self, eff: int, width: int, dt: int) -> Ball {
        let dx = travel(eff, width, dt);
        let x = match self.heading() {
            Direction::Left => self.x - dx,
            Direction::Right => self.x + dx,
        };
        Ball { x: x as i64, y: homed(self.y as int, self.target_y(), eff, dt) as i64, ..self }
    }
}

/// Computes `homing_step(y, ty, eff, dt)` where the step fits an `i64`.
fn homing_exec(y: i64, ty: i64, eff: u64, dt: u32) -> (r: u64)
    requires
        homing_step(y as int, ty as int, eff as int, dt as int) <= i64::MAX,
    ensures
        r == homing_step(y as int, ty as int, eff as int, dt as int),
{
    let d: u128 = if y > ty {
        (y as i128 - ty as i128) as u128
    } else {
        (ty as i128 - y as i128) as u128
    };
    proof {
        let p = eff * d * dt;
        assert(0 <= p) by (nonlinear_arith)
            requires
                p == eff * d * dt,
                0 <= eff,
                0 <= d,
                0 <= dt,
        ;
        lemma_product_below(p, i64::MAX as int);
        assert(eff * d < 0x1_0000_0000_0000_0000 * 0x1_0000_0000_0000_0000) by (nonlinear_arith)
            requires
                0 <= eff < 0x1_0000_0000_0000_0000,
                0 <= d < 0x1_0000_0000_0000_0000,
        ;
    }
    let q: u128 = eff as u128 * d * dt as u128;
    (q / STEP_DIVISOR) as u64
}

impl Ball {
    /// Moves the ball one step at speed `eff` on a court `width` wide.
    fn fly(&mut self, eff: u64, width: u32, dt: u32)
        requires
            eff < 0x4_0000_0000,
            old(self).heading() == Direction::Left ==> -i64::MAX <= old(self).x - travel(
                eff as int,
                width as int,
                dt as int,
            ),
            old(self).heading() == Direction::Right ==> old(self).x + travel(
                eff as int,
                width as int,
                dt as int,
            ) <= i64::MAX,
            -i64::MAX <= old(self).y - homing_step(old(self).y as int, old(self).target_y(), eff as int, dt as int),
            old(self).y + homing_step(old(self).y as int, old(self).target_y(), eff as int, dt as int) <= i64::MAX,
        ensures
            *final(self) == old(self).moved(eff as int, width as int, dt as int),
    {
        let dx = travel_exec(eff, width, dt);
        let ty = self.target[1];
        proof {
            lemma_travel_monotone(0, eff as int, 0, width as int, dt as int);
            let d = if self.y > ty { self.y - ty } else { ty - self.y };
            lemma_travel_monotone(0, eff as int, 0, d, dt as int);
        }
        let dy = homing_exec(self.y, ty, eff, dt);
        match self.direction() {
            Direction::Left => {
                self.x = (self.x as i128 - dx as i128) as i64;
            },
            Direction::Right => {
                self.x = (self.x as i128 + dx as i128) as i64;
            },
        }
        if self.y > ty {
            self.y = self.y - dy as i64;
        } else {
            self.y = self.y + dy as i64;
        }
    }
}

impl Pallet {
    /// Applies one tick of held keys on a court `height` high.
    fn steer(&mut self, height: u32, dt: u32, keys: &Keys)
        ensures
            *final(self) == steered_pallet(*old(self), height as int, dt as int, *keys),
    {
        let delta = travel_exec(self.speed as u64, height, dt) as i128;
        let size = self.size as i128;
        if keys.down && self.y as i128 + delta + size <= height as i128 {
            self.y = (self.y as i128 + delta) as i64;
        }
        if keys.up && self.y as i128 - delta - size >= 0 {
            self.y = (self.y as i128 - delta) as i64;
        }
        if keys.speed_down && self.speed > 1 {
            self.speed = self.speed - 1;
        }
        if keys.speed_up && self.speed < u32::MAX {
            self.speed = self.speed + 1;
        }
    }
}

/// Relies on rand::thread_rng and rand::Rng::gen_range: a uniform draw from
/// the inclusive range `0..=height`, which is never empty, so the call does
/// not panic and its result lies in the range.
#[verifier::external_body]
fn random_row(height: u32) -> (r: u32)
    ensures
        r <= height,
{
    rand::Rng::gen_range(&mut rand::thread_rng(), 0..=height)
}

/// A fully opaque white.
pub const WHITE: [u8; 4] = [255, 255, 255, 255];

/// The paddle's speed at the start, in hundredths of the height per second.
pub const PALLET_SPEED: u32 = 100;

/// The ball's speed at the start, in hundredths of the width per second.
pub const BALL_SPEED: u32 = 50;

impl App {
    pub open spec fn width(&self) -> int {
        self.resolution[0] as int
    }

    pub open spec fn height(&self) -> int {
        self.resolution[1] as int
    }

    /// The ball's target lies on the court.
    pub open spec fn wf(&self) -> bool {
        &&& 0 <= self.ball.target_x() <= self.width()
        &&& 0 <= self.ball.target_y() <= self.height()
    }

    /// The paddle lies wholly within the court's height.
    pub open spec fn paddle_in_range(&self) -> bool {
        self.pallet.size <= self.pallet.y <= self.height() - self.pallet.size
    }

    /// The ball overlaps the paddle's rows and has reached a quarter of its
    /// half-extent short of its centre.
    pub open spec fn ball_meets_pallet(&self) -> bool {
        &&& self.ball.y + self.ball.size >= self.pallet.y - self.pallet.size
        &&& self.ball.y - self.ball.size <= self.pallet.y + self.pallet.size
        &&& 4 * self.pallet.x - self.pallet.size >= 4 * self.ball.x
    }

    /// The ball touches or passes the far wall.
    pub open spec fn ball_bounces(&self) -> bool {
        self.ball.x + self.ball.size >= self.width()
    }

    /// The ball touches or passes the player's wall.
    pub open spec fn ball_misses(&self) -> bool {
        self.ball.x - self.ball.size <= 0
    }

    /// The row a retargeted ball aims at, given a drawn row.
    pub open spec fn row(&self, drawn: int) -> int {
        if self.policy.random_rows {
            drawn
        } else {
            self.height() / 2
        }
    }

    /// The ball's effective speed in a given round.
    pub open spec fn effective_speed(&self, round: int) -> int {
        if self.policy.escalating {
            self.ball.speed + 1 + round
        } else {
            self.ball.speed as int
        }
    }

    /// One step of a running game: retarget on contact with the paddle,
    /// bounce and score on the far wall, reset on a miss; then fly.
    pub open spec fn simulated(self, dt: int, contact_row: int, bounce_row: int) -> App {
        if self.ball_misses() {
            let r = self.reset_of();
            App { ball: r.ball.moved(r.effective_speed(0), r.width(), dt), ..r }
        } else {
            let target = if self.ball_bounces() {
                [0i64, self.row(bounce_row) as i64]
            } else if self.ball_meets_pallet() {
                [self.width() as i64, self.row(contact_row) as i64]
            } else {
                self.ball.target
            };
            let round = if self.ball_bounces() {
                self.round + 1
            } else {
                self.round as int
            };
            let aimed = Ball { target, ..self.ball };
            App {
                round: round as u32,
                ball: aimed.moved(self.effective_speed(round), self.width(), dt),
                ..self
            }
        }
    }

    /// The state after one tick of `dt` milliseconds with `keys` held, where
    /// `contact_row` and `bounce_row` are the rows drawn for a retarget.
    pub open spec fn next(self, dt: int, keys: Keys, contact_row: int, bounce_row: int) -> App {
        let s = App {
            started: self.started || keys.start,
            pallet: steered_pallet(self.pallet, self.height(), dt, keys),
            ..self
        };
        if s.started {
            s.simulated(dt, contact_row, bounce_row)
        } else {
            s
        }
    }

    /// The round after a tick: unchanged while idle, zero after a miss,
    /// one more after a far-wall bounce.
    pub open spec fn round_after(&self, keys: Keys) -> int {
        if !(self.started || keys.start) {
            self.round as int
        } else if self.ball_misses() {
            0
        } else if self.ball_bounces() {
            self.round + 1
        } else {
            self.round as int
        }
    }

    /// The fastest the ball can go this tick.
    pub open spec fn top_speed(&self) -> int {
        self.ball.speed + 2 + self.round
    }

    /// A tick of `dt` milliseconds keeps every count and position within its
    /// machine integer, whatever rows are drawn.
    pub open spec fn fits_tick(&self, dt: int) -> bool {
        let ax = if self.ball.x >= 0 {
            self.ball.x as int
        } else {
            -self.ball.x
        };
        let ay = if self.ball.y >= 0 {
            self.ball.y as int
        } else {
            -self.ball.y
        };
        &&& self.round < u32::MAX
        &&& ax + travel(self.top_speed(), self.width(), dt) <= i64::MAX
        &&& ay + travel(self.top_speed(), ay + self.height(), dt) <= i64::MAX
    }

    /// The scaled length of a side, for a scale in thousandths.
    pub open spec fn scaled(side: int, scale_milli: int) -> int {
        side * scale_milli / 1000
    }

    /// A game on a court `width` by `height`, idle at round zero, with the
    /// paddle an eighth of the way in at mid height and the ball in the middle
    /// heading for the middle of the left wall.
    pub fn new(width: u32, height: u32, pallet_size: u32, ball_size: u32) -> (app: App)
        ensures
            app.resolution == [width, height],
            app.scale_milli == 1000,
            !app.started,
            app.round == 0,
            app.pallet == (Pallet {
                x: (width / 8) as i64,
                y: (height / 2) as i64,
                size: pallet_size,
                color: WHITE,
                speed: PALLET_SPEED,
            }),
            app.ball == (Ball {
                x: (width / 2) as i64,
                y: (height / 2) as i64,
                size: ball_size,
                color: WHITE,
                speed: BALL_SPEED,
                target: [0i64, (height / 2) as i64],
            }),
            app.policy == (Policy { escalating: true, random_rows: true }),
            app.wf(),
            2 * pallet_size <= height ==> app.paddle_in_range(),
    {
        let cy = (height / 2) as i64;
        App {
            pallet: Pallet {
                x: (width / 8) as i64,
                y: cy,
                size: pallet_size,
                color: WHITE,
                speed: PALLET_SPEED,
            },
            ball: Ball {
                x: (width / 2) as i64,
                y: cy,
                size: ball_size,
                color: WHITE,
                speed: BALL_SPEED,
                target: [0, cy],
            },
            resolution: [width, height],
            scale_milli: 1000,
            started: false,
            round: 0,
            policy: Policy { escalating: true, random_rows: true },
        }
    }

    /// Takes a new viewport of `width` by `height` at a scale of
    /// `scale_milli` thousandths, then resets.
    pub fn on_resize(&mut self, width: u32, height: u32, scale_milli: u32)
        requires
            App::scaled(width as int, scale_milli as int) <= u32::MAX,
            App::scaled(height as int, scale_milli as int) <= u32::MAX,
        ensures
            *final(self) == (App {
                resolution: [
                    App::scaled(width as int, scale_milli as int) as u32,
                    App::scaled(height as int, scale_milli as int) as u32,
                ],
                scale_milli,
                ..*old(self)
            }).reset_of(),
            final(self).wf(),
    {
        let w = (width as u64 * scale_milli as u64 / 1000) as u32;
        let h = (height as u64 * scale_milli as u64 / 1000) as u32;
        self.resolution = [w, h];
        self.scale_milli = scale_milli;
        self.reset();
    }

    /// Advances the game by `dt` milliseconds with `keys` held, drawing the
    /// rows a retargeted ball may aim at. Does nothing, and says so, where the
    /// tick would leave a machine integer.
    pub fn update(&mut self, dt: u32, keys: &Keys) -> (ticked: bool)
        requires
            old(self).wf(),
        ensures
            ticked == old(self).fits_tick(dt as int),
            !ticked ==> *final(self) == *old(self),
            ticked ==> exists|c: int, b: int|
                0 <= c <= old(self).height() && 0 <= b <= old(self).height()
                    && *final(self) == old(self).next(dt as int, *keys, c, b),
            ticked ==> final(self).round == old(self).round_after(*keys),
            final(self).round == old(self).round || final(self).round == old(self).round + 1
                || final(self).round == 0,
            final(self).wf(),
            old(self).paddle_in_range() ==> final(self).paddle_in_range(),
    {
        if !self.can_tick(dt) {
            return false;
        }
        let contact_row = random_row(self.resolution[1]);
        let bounce_row = random_row(self.resolution[1]);
        self.tick(dt, keys, contact_row, bounce_row);
        true
    }

    /// Whether a tick of `dt` milliseconds keeps every value within its
    /// machine integer.
    pub fn can_tick(&self, dt: u32) -> (r: bool)
        ensures
            r == self.fits_tick(dt as int),
    {
        if self.round == u32::MAX {
            return false;
        }
        let top: u64 = self.ball.speed as u64 + 2 + self.round as u64;
        let ax: u128 = if self.ball.x >= 0 {
            self.ball.x as u128
        } else {
            (-(self.ball.x as i128)) as u128
        };
        let ay: u128 = if self.ball.y >= 0 {
            self.ball.y as u128
        } else {
            (-(self.ball.y as i128)) as u128
        };
        let tx = travel_exec(top, self.resolution[0], dt);
        if ax + tx > i64::MAX as u128 {
            return false;
        }
        let reach: u128 = ay + self.resolution[1] as u128;
        proof {
            assert(top * reach < 0x4_0000_0000 * 0x2_0000_0000_0000_0000) by (nonlinear_arith)
                requires
                    0 <= top < 0x4_0000_0000,
                    0 <= reach < 0x2_0000_0000_0000_0000,
            ;
        }
        match (top as u128 * reach).checked_mul(dt as u128) {
            None => {
                proof {
                    let p = top * reach * dt;
                    lemma_div_is_ordered(u128::MAX + 1, p, STEP_DIVISOR as int);
                    assert((u128::MAX + 1) / (STEP_DIVISOR as int) > i64::MAX);
                }
                false
            },
            Some(q) => ay + q / STEP_DIVISOR <= i64::MAX as u128,
        }
    }

    /// The row a retargeted ball aims at, given a drawn row.
    fn pick_row(&self, drawn: u32) -> (r: u32)
        ensures
            r == self.row(drawn as int),
    {
        if self.policy.random_rows {
            drawn
        } else {
            self.resolution[1] / 2
        }
    }

    /// One step of a running game.
    fn simulate(&mut self, dt: u32, contact_row: u32, bounce_row: u32)
        requires
            old(self).wf(),
            old(self).fits_tick(dt as int),
            contact_row <= old(self).height(),
            bounce_row <= old(self).height(),
        ensures
            *final(self) == old(self).simulated(dt as int, contact_row as int, bounce_row as int),
            final(self).wf(),
            old(self).paddle_in_range() ==> final(self).paddle_in_range(),
    {
        let ghost start = *self;
        let width = self.resolution[0];
        if self.ball.left_bound() <= 0 {
            self.reset();
            let eff: u64 = if self.policy.escalating {
                self.ball.speed as u64 + 1
            } else {
                self.ball.speed as u64
            };
            proof {
                lemma_travel_monotone(eff as int, start.top_speed(), width as int, width as int, dt as int);
                assert((eff as int) * 0 * (dt as int) == 0) by (nonlinear_arith);
            }
            self.ball.fly(eff, width, dt);
            return;
        }
        let bounces = self.ball.right_bound() >= width as i128;
        let meets = self.ball.bottom_bound() >= self.pallet.top_bound()
            && self.ball.top_bound() <= self.pallet.bottom_bound()
            && 4 * (self.pallet.x as i128) - self.pallet.size as i128 >= 4 * (self.ball.x as i128);
        if bounces {
            let row = self.pick_row(bounce_row);
            self.ball.target = [0, row as i64];
            self.round = self.round + 1;
        } else if meets {
            let row = self.pick_row(contact_row);
            self.ball.target = [width as i64, row as i64];
        }
        let eff: u64 = if self.policy.escalating {
            self.ball.speed as u64 + 1 + self.round as u64
        } else {
            self.ball.speed as u64
        };
        proof {
            let top = start.top_speed();
            let ay = if self.ball.y >= 0 { self.ball.y as int } else { -self.ball.y };
            let ty = self.ball.target_y();
            let d = if self.ball.y > ty { self.ball.y - ty } else { ty - self.ball.y };
            assert(eff == start.effective_speed(self.round as int));
            lemma_travel_monotone(eff as int, top, width as int, width as int, dt as int);
            lemma_travel_monotone(eff as int, top, d, ay + start.height(), dt as int);
        }
        self.ball.fly(eff, width, dt);
    }

    /// Advances the game by `dt` milliseconds with `keys` held, where
    /// `contact_row` and `bounce_row` are the rows a retargeted ball may aim at.
    pub fn tick(&mut self, dt: u32, keys: &Keys, contact_row: u32, bounce_row: u32)
        requires
            old(self).wf(),
            old(self).fits_tick(dt as int),
            contact_row <= old(self).height(),
            bounce_row <= old(self).height(),
        ensures
            *final(self) == old(self).next(dt as int, *keys, contact_row as int, bounce_row as int),
            final(self).wf(),
            old(self).paddle_in_range() ==> final(self).paddle_in_range(),
            final(self).round == old(self).round_after(*keys),
    {
        if keys.start && !self.started {
            self.started = true;
        }
        let height = self.resolution[1];
        proof {
            lemma_travel_monotone(0, self.pallet.speed as int, 0, height as int, dt as int);
        }
        self.pallet.steer(height, dt, keys);
        if self.started {
            self.simulate(dt, contact_row, bounce_row);
        }
    }

    /// The state that `reset` leaves: idle, round zero, ball in the middle
    /// heading for the middle of the left wall, paddle at mid height.
    pub open spec fn reset_of(self) -> App {
        let cx = (self.width() / 2) as i64;
        let cy = (self.height() / 2) as i64;
        App {
            round: 0,
            started: false,
            ball: Ball { x: cx, y: cy, target: [0i64, cy], ..self.ball },
            pallet: Pallet { y: cy, ..self.pallet },
            ..self
        }
    }

    /// Returns to the idle state.
    pub fn reset(&mut self)
        ensures
            *final(self) == old(self).reset_of(),
            final(self).wf(),
            2 * old(self).pallet.size <= old(self).height() ==> final(self).paddle_in_range(),
    {
        let cx = (self.resolution[0] / 2) as i64;
        let cy = (self.resolution[1] / 2) as i64;
        self.round = 0;
        self.started = false;
        self.ball.x = cx;
        self.ball.y = cy;
        self.ball.target = [0, cy];
        self.pallet.y = cy;
    }
}

} // verus!
