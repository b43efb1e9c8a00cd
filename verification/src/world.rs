//! The play volume and the per-frame simulation step.

use vstd::prelude::*;

use crate::ball::{palette_spec, update_spec, Ball, PALETTE_LEN};
use crate::collision::{resolve_all, resolve_collisions, scan_bounds, CollisionEvent};
use crate::rng::{gen_random_vector, rng_step, rng_val, Rng};
use crate::vec3::{within, Vec3};
use crate::{LIMIT, POS_LIMIT, VEL_LIMIT};

verus! {

/// One wall, floor or ceiling slab of the play volume: center and extent.
/// Pure render data; the physics reads only [`LIMIT`].
#[derive(Clone, Copy, Debug, PartialEq, Eq, Structural)]
pub struct Boundary {
    pub pos: Vec3,
    pub size: Vec3,
}

impl Boundary {
    pub fn new(pos: Vec3, size: Vec3) -> (b: Boundary)
        ensures
            b == (Boundary { pos, size }),
    {
        Boundary { pos, size }
    }
}

/// Thickness of a boundary slab: a tenth of a world unit.
pub const WALL_THICKNESS: i64 = 100;

/// Full width of the play volume.
pub const BOX_SIZE: i64 = 2 * LIMIT;

/// The six slabs closing the 20x20x20-unit box: four walls, floor, ceiling.
pub open spec fn boundary_spec(k: int) -> Boundary {
    if k == 0 {
        Boundary {
            pos: Vec3 { x: (-LIMIT) as i64, y: 0, z: 0 },
            size: Vec3 { x: WALL_THICKNESS, y: BOX_SIZE, z: BOX_SIZE },
        }
    } else if k == 1 {
        Boundary {
            pos: Vec3 { x: LIMIT, y: 0, z: 0 },
            size: Vec3 { x: WALL_THICKNESS, y: BOX_SIZE, z: BOX_SIZE },
        }
    } else if k == 2 {
        Boundary {
            pos: Vec3 { x: 0, y: 0, z: (-LIMIT) as i64 },
            size: Vec3 { x: BOX_SIZE, y: BOX_SIZE, z: WALL_THICKNESS },
        }
    } else if k == 3 {
        Boundary {
            pos: Vec3 { x: 0, y: 0, z: LIMIT },
            size: Vec3 { x: BOX_SIZE, y: BOX_SIZE, z: WALL_THICKNESS },
        }
    } else if k == 4 {
        Boundary {
            pos: Vec3 { x: 0, y: (-LIMIT) as i64, z: 0 },
            size: Vec3 { x: BOX_SIZE, y: WALL_THICKNESS, z: BOX_SIZE },
        }
    } else {
        Boundary {
            pos: Vec3 { x: 0, y: LIMIT, z: 0 },
            size: Vec3 { x: BOX_SIZE, y: WALL_THICKNESS, z: BOX_SIZE },
        }
    }
}

/// Builds the fixed boundary set, defined once at startup.
pub fn boundaries() -> (bs: Vec<Boundary>)
    ensures
        bs@.len() == 6,
        forall|k: int| 0 <= k < 6 ==> bs@[k] == boundary_spec(k),
{
    let mut bs: Vec<Boundary> = Vec::new();
    bs.push(Boundary::new(
        Vec3::new(-LIMIT, 0, 0),
        Vec3::new(WALL_THICKNESS, BOX_SIZE, BOX_SIZE),
    ));
    bs.push(Boundary::new(
        Vec3::new(LIMIT, 0, 0),
        Vec3::new(WALL_THICKNESS, BOX_SIZE, BOX_SIZE),
    ));
    bs.push(Boundary::new(
        Vec3::new(0, 0, -LIMIT),
        Vec3::new(BOX_SIZE, BOX_SIZE, WALL_THICKNESS),
    ));
    bs.push(Boundary::new(
        Vec3::new(0, 0, LIMIT),
        Vec3::new(BOX_SIZE, BOX_SIZE, WALL_THICKNESS),
    ));
    bs.push(Boundary::new(
        Vec3::new(0, -LIMIT, 0),
        Vec3::new(BOX_SIZE, WALL_THICKNESS, BOX_SIZE),
    ));
    bs.push(Boundary::new(
        Vec3::new(0, LIMIT, 0),
        Vec3::new(BOX_SIZE, WALL_THICKNESS, BOX_SIZE),
    ));
    bs
}

/// The edge events gathered from one frame's input.
#[derive(Clone, Copy, Debug, PartialEq, Eq, Structural)]
pub struct FrameInput {
    pub spawn: bool,
    pub despawn: bool,
}

/// Radius of a spawned ball: half a world unit.
pub const SPAWN_RADIUS: i64 = 500;

/// Largest velocity component of a spawned ball: a tenth of a unit per tick.
pub const SPAWN_SPEED: i64 = 100;

/// The ball a spawn request makes from generator state `s0`: at the world
/// origin, radius [`SPAWN_RADIUS`], each velocity component drawn from
/// `[-SPAWN_SPEED, SPAWN_SPEED]` (x, y, z in that order), then the color
/// drawn from the palette.
pub open spec fn spawned_ball(s0: u64) -> Ball {
    let s1 = rng_step(s0);
    let s2 = rng_step(s1);
    let s3 = rng_step(s2);
    let s4 = rng_step(s3);
    Ball {
        pos: Vec3 { x: 0, y: 0, z: 0 },
        vel: Vec3 {
            x: rng_val(s1, -SPAWN_SPEED as int, SPAWN_SPEED as int) as i64,
            y: rng_val(s2, -SPAWN_SPEED as int, SPAWN_SPEED as int) as i64,
            z: rng_val(s3, -SPAWN_SPEED as int, SPAWN_SPEED as int) as i64,
        },
        radius: SPAWN_RADIUS,
        color: palette_spec(rng_val(s4, 0, PALETTE_LEN - 1)),
    }
}

/// Generator state after the four draws of one spawn.
pub open spec fn rng_after_spawn(s0: u64) -> u64 {
    rng_step(rng_step(rng_step(rng_step(s0))))
}

/// Appends one freshly spawned ball at the world origin.
pub fn spawn_ball(balls: &mut Vec<Ball>, rng: &mut Rng)
    ensures
        final(balls)@ == old(balls)@.push(spawned_ball(old(rng).state)),
        final(rng).state == rng_after_spawn(old(rng).state),
{
    let vel = gen_random_vector(rng, -SPAWN_SPEED, SPAWN_SPEED);
    let b = Ball::new(Vec3::new(0, 0, 0), vel, SPAWN_RADIUS, rng);
    balls.push(b);
}

/// Removes the most recently spawned ball; on an empty collection this is
/// a no-op, not an error.
pub fn despawn_ball(balls: &mut Vec<Ball>)
    ensures
        old(balls)@.len() > 0 ==> final(balls)@ == old(balls)@.drop_last(),
        old(balls)@.len() == 0 ==> final(balls)@ == old(balls)@,
{
    balls.pop();
}

/// The collection after one frame's spawn and despawn requests: the spawn
/// appends, then the despawn removes the last entry if one exists.
pub open spec fn apply_input_spec(s: Seq<Ball>, input: FrameInput, s0: u64) -> Seq<Ball> {
    let s1 = if input.spawn {
        s.push(spawned_ball(s0))
    } else {
        s
    };
    if input.despawn && s1.len() > 0 {
        s1.drop_last()
    } else {
        s1
    }
}

/// Every ball integrated and reflected once, in place.
pub open spec fn update_all_spec(s: Seq<Ball>) -> Seq<Ball> {
    Seq::new(s.len(), |k: int| update_spec(s[k]))
}

/// One whole frame: input requests applied, every ball moved, then the
/// collision scan — in that order, as strictly sequential phases.
pub open spec fn step_spec(s: Seq<Ball>, input: FrameInput, s0: u64) -> (
    Seq<Ball>,
    Seq<CollisionEvent>,
) {
    resolve_all(update_all_spec(apply_input_spec(s, input, s0)))
}

/// A ball the step accepts: positive radius within the half-width of the
/// box, velocity and position within the fixed-point budget that keeps
/// the whole frame's arithmetic in `i64`.
pub open spec fn step_ok(b: Ball) -> bool {
    0 < b.radius <= LIMIT && within(b.vel, VEL_LIMIT as int) && within(b.pos, POS_LIMIT as int)
}

/// Drives one frame (one tick per call): applies the frame's spawn and
/// despawn requests, integrates and reflects every ball — those spawned
/// this same frame included — and resolves collisions across the whole
/// post-integration set. Returns the frame's collision events.
#[verifier::loop_isolation(false)]
pub fn step(balls: &mut Vec<Ball>, input: FrameInput, rng: &mut Rng) -> (events: Vec<
    CollisionEvent,
>)
    requires
        forall|k: int| 0 <= k < old(balls)@.len() ==> step_ok(#[trigger] old(balls)@[k]),
    ensures
        final(balls)@ == step_spec(old(balls)@, input, old(rng).state).0,
        events@ == step_spec(old(balls)@, input, old(rng).state).1,
        final(rng).state == if input.spawn {
            rng_after_spawn(old(rng).state)
        } else {
            old(rng).state
        },
{
    if input.spawn {
        spawn_ball(balls, rng);
    }
    if input.despawn {
        despawn_ball(balls);
    }
    let ghost mid = balls@;
    proof {
        assert(mid == apply_input_spec(old(balls)@, input, old(rng).state));
        assert forall|t: int| 0 <= t < mid.len() implies step_ok(#[trigger] mid[t]) by {
            assert(step_ok(spawned_ball(old(rng).state)));
        }
    }
    let n = balls.len();
    let mut k: usize = 0;
    while k < n
        invariant
            n == balls@.len(),
            k <= n,
            forall|t: int| k <= t < n ==> balls@[t] == mid[t],
            forall|t: int| 0 <= t < k ==> balls@[t] == update_spec(mid[t]),
        decreases n - k,
    {
        let mut b = balls[k];
        b.update();
        balls[k] = b;
        k += 1;
    }
    proof {
        assert(balls@ =~= update_all_spec(mid));
        assert forall|t: int| 0 <= t < balls@.len() implies scan_bounds(#[trigger] balls@[t]) by {
            assert(balls@[t] == update_spec(mid[t]));
            assert(step_ok(mid[t]));
        }
    }
    resolve_collisions(balls)
}

/// `k` despawn requests in a row: each removes the last entry, and on an
/// empty collection does nothing.
pub open spec fn despawn_n(s: Seq<Ball>, k: nat) -> Seq<Ball>
    decreases k,
{
    if k == 0 {
        s
    } else if s.len() == 0 {
        s
    } else {
        despawn_n(s.drop_last(), (k - 1) as nat)
    }
}

/// Stack discipline of the ball collection: appending the balls of
/// `added` in order (what spawning them does, by [`spawn_ball`]'s
/// contract) and then despawning `added.len()` times restores the
/// collection exactly — same size, same contents, every untouched entry
/// in place.
pub proof fn lemma_spawn_despawn_stack(s: Seq<Ball>, added: Seq<Ball>)
    ensures
        despawn_n(s + added, added.len()) == s,
    decreases added.len(),
{
    if added.len() == 0 {
        assert(s + added =~= s);
    } else {
        assert((s + added).drop_last() =~= s + added.drop_last());
        lemma_spawn_despawn_stack(s, added.drop_last());
    }
}

} // verus!
