//! The ball entity: integration and wall reflection.

use vstd::prelude::*;

use crate::rng::{rng_step, rng_val, Rng};
use crate::vec3::Vec3;
use crate::LIMIT;

verus! {

/// The fixed palette a ball's color is drawn from.
#[derive(Clone, Copy, Debug, PartialEq, Eq, Structural)]
pub enum BallColor {
    Green,
    Red,
    Yellow,
    Pink,
    Purple,
    Orange,
    Blue,
    DarkBlue,
    DarkGreen,
    DarkPurple,
}

/// Number of palette entries.
pub const PALETTE_LEN: i64 = 10;

/// The palette entry at index `i`.
pub open spec fn palette_spec(i: int) -> BallColor {
    if i == 0 {
        BallColor::Green
    } else if i == 1 {
        BallColor::Red
    } else if i == 2 {
        BallColor::Yellow
    } else if i == 3 {
        BallColor::Pink
    } else if i == 4 {
        BallColor::Purple
    } else if i == 5 {
        BallColor::Orange
    } else if i == 6 {
        BallColor::Blue
    } else if i == 7 {
        BallColor::DarkBlue
    } else if i == 8 {
        BallColor::DarkGreen
    } else {
        BallColor::DarkPurple
    }
}

/// Looks a palette entry up by index.
pub fn palette(i: i64) -> (c: BallColor)
    requires
        0 <= i < PALETTE_LEN,
    ensures
        c == palette_spec(i as int),
{
    if i == 0 {
        BallColor::Green
    } else if i == 1 {
        BallColor::Red
    } else if i == 2 {
        BallColor::Yellow
    } else if i == 3 {
        BallColor::Pink
    } else if i == 4 {
        BallColor::Purple
    } else if i == 5 {
        BallColor::Orange
    } else if i == 6 {
        BallColor::Blue
    } else if i == 7 {
        BallColor::DarkBlue
    } else if i == 8 {
        BallColor::DarkGreen
    } else {
        BallColor::DarkPurple
    }
}

/// A moving sphere: position, velocity, radius, color.
#[derive(Clone, Copy, Debug, PartialEq, Eq, Structural)]
pub struct Ball {
    pub pos: Vec3,
    pub vel: Vec3,
    pub radius: i64,
    pub color: BallColor,
}

/// The ball's center, at position `p`, is within its radius `r` of one of
/// the two walls of this axis: the reflection condition.
pub open spec fn in_reflect_zone(p: int, r: int) -> bool {
    p > LIMIT - r || p < -LIMIT + r
}

/// Velocity component after the reflection check of one axis: flipped
/// when the freshly moved position `p` is in the reflection zone.
pub open spec fn wall_vel(p: int, v: int, r: int) -> int {
    if in_reflect_zone(p, r) {
        -v
    } else {
        v
    }
}

/// The arithmetic of one [`Ball::update`] stays inside `i64`.
pub open spec fn update_fits(b: Ball) -> bool {
    &&& i64::MIN <= b.pos.x + b.vel.x <= i64::MAX
    &&& i64::MIN <= b.pos.y + b.vel.y <= i64::MAX
    &&& i64::MIN <= b.pos.z + b.vel.z <= i64::MAX
    &&& b.vel.x > i64::MIN
    &&& b.vel.y > i64::MIN
    &&& b.vel.z > i64::MIN
    &&& b.radius > 0
}

/// The ball after one tick: position advanced by the velocity, then each
/// velocity component flipped if that axis landed in its reflection zone.
pub open spec fn update_spec(b: Ball) -> Ball {
    let px = b.pos.x + b.vel.x;
    let py = b.pos.y + b.vel.y;
    let pz = b.pos.z + b.vel.z;
    Ball {
        pos: Vec3 { x: px as i64, y: py as i64, z: pz as i64 },
        vel: Vec3 {
            x: wall_vel(px, b.vel.x as int, b.radius as int) as i64,
            y: wall_vel(py, b.vel.y as int, b.radius as int) as i64,
            z: wall_vel(pz, b.vel.z as int, b.radius as int) as i64,
        },
        radius: b.radius,
        color: b.color,
    }
}

/// Per-axis model of repeated ticks: position and velocity of one axis
/// after `n` calls of [`Ball::update`], for a ball of radius `r`. The
/// axes are independent, so one axis tells the whole story.
pub open spec fn axis_iter(p: int, v: int, r: int, n: nat) -> (int, int)
    decreases n,
{
    if n == 0 {
        (p, v)
    } else {
        let prev = axis_iter(p, v, r, (n - 1) as nat);
        (prev.0 + prev.1, wall_vel(prev.0 + prev.1, prev.1, r))
    }
}

/// One update advances every axis by one step of the per-axis model.
pub proof fn lemma_update_is_axis_step(b: Ball)
    requires
        update_fits(b),
    ensures
        (update_spec(b).pos.x as int, update_spec(b).vel.x as int) == axis_iter(
            b.pos.x as int,
            b.vel.x as int,
            b.radius as int,
            1,
        ),
        (update_spec(b).pos.y as int, update_spec(b).vel.y as int) == axis_iter(
            b.pos.y as int,
            b.vel.y as int,
            b.radius as int,
            1,
        ),
        (update_spec(b).pos.z as int, update_spec(b).vel.z as int) == axis_iter(
            b.pos.z as int,
            b.vel.z as int,
            b.radius as int,
            1,
        ),
{
    reveal_with_fuel(axis_iter, 2);
}

/// Reflection only ever flips the sign of a velocity component; its
/// magnitude never changes.
pub proof fn lemma_reflect_keeps_magnitude(p: int, v: int, r: int)
    ensures
        wall_vel(p, v, r) == v || wall_vel(p, v, r) == -v,
{
}

/// Crossing a wall flips the axis velocity exactly once: the tick that
/// carries the center into the reflection zone negates the component
/// (keeping its magnitude), and the following tick, which steps back
/// inside, leaves it unchanged.
pub proof fn lemma_reflection_crossing(p: int, v: int, r: int)
    requires
        0 < r <= LIMIT,
        0 < v <= 2 * (LIMIT - r),
        -(LIMIT - r) <= p <= LIMIT - r,
        p + v > LIMIT - r,
    ensures
        axis_iter(p, v, r, 1) == (p + v, -v),
        axis_iter(p, v, r, 2) == (p, -v),
{
    reveal_with_fuel(axis_iter, 3);
}

/// Batching determinism: `m + n` ticks of one axis equal `n` ticks taken
/// after `m` ticks. Iterated integration is a pure function of the start
/// state, however the calls are batched.
pub proof fn lemma_axis_iter_batch(p: int, v: int, r: int, m: nat, n: nat)
    ensures
        axis_iter(p, v, r, m + n) == axis_iter(
            axis_iter(p, v, r, m).0,
            axis_iter(p, v, r, m).1,
            r,
            n,
        ),
    decreases n,
{
    reveal_with_fuel(axis_iter, 2);
    if n > 0 {
        lemma_axis_iter_batch(p, v, r, m, (n - 1) as nat);
    }
}

/// The ball after `n` ticks.
pub open spec fn update_iter(b: Ball, n: nat) -> Ball
    decreases n,
{
    if n == 0 {
        b
    } else {
        update_spec(update_iter(b, (n - 1) as nat))
    }
}

/// Integration determinism: `m + n` ticks from a state equal `n` ticks
/// taken after `m` ticks. The result depends only on the start state and
/// the total count, never on how the calls are batched — integer
/// arithmetic leaves no hidden accumulation error.
pub proof fn lemma_update_iter_batch(b: Ball, m: nat, n: nat)
    ensures
        update_iter(b, m + n) == update_iter(update_iter(b, m), n),
    decreases n,
{
    reveal_with_fuel(update_iter, 2);
    if n > 0 {
        lemma_update_iter_batch(b, m, (n - 1) as nat);
    }
}

impl Ball {
    /// Makes a ball; the color is drawn from the palette through `rng`.
    pub fn new(pos: Vec3, vel: Vec3, radius: i64, rng: &mut Rng) -> (b: Ball)
        ensures
            b.pos == pos,
            b.vel == vel,
            b.radius == radius,
            b.color == palette_spec(rng_val(rng_step(old(rng).state), 0, PALETTE_LEN - 1)),
            final(rng).state == rng_step(old(rng).state),
    {
        let idx = rng.next_in_range(0, PALETTE_LEN - 1);
        Ball { pos, vel, radius, color: palette(idx) }
    }

    /// One simulation tick: `pos += vel`, then per-axis wall reflection.
    /// Reflection flips the velocity sign; it does not clamp the position,
    /// so a fast ball may overshoot a wall for one tick.
    pub fn update(&mut self)
        requires
            update_fits(*old(self)),
        ensures
            *final(self) == update_spec(*old(self)),
    {
        self.pos.x = self.pos.x + self.vel.x;
        self.pos.y = self.pos.y + self.vel.y;
        self.pos.z = self.pos.z + self.vel.z;

        if self.pos.x > LIMIT - self.radius || self.pos.x < -LIMIT + self.radius {
            self.vel.x = -self.vel.x;
        }
        if self.pos.y > LIMIT - self.radius || self.pos.y < -LIMIT + self.radius {
            self.vel.y = -self.vel.y;
        }
        if self.pos.z > LIMIT - self.radius || self.pos.z < -LIMIT + self.radius {
            self.vel.z = -self.vel.z;
        }
    }
}

} // verus!
