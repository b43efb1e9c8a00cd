use balls3d::ball::{palette, Ball, BallColor};
use balls3d::collision::resolve_collisions;
use balls3d::rng::Rng;
use balls3d::vec3::Vec3;
use balls3d::world::{boundaries, despawn_ball, spawn_ball, step, FrameInput};

fn v(x: i64, y: i64, z: i64) -> Vec3 {
    Vec3 { x, y, z }
}

fn ball(pos: Vec3, vel: Vec3, radius: i64) -> Ball {
    Ball { pos, vel, radius, color: BallColor::Green }
}

#[test]
fn reflection_at_upper_wall() {
    // position.x = 9.6, radius = 0.5, velocity.x = 0.1, LIMIT = 10:
    // after integrate, position.x = 9.7 > 9.5, so velocity.x flips.
    let mut b = ball(v(9_600, 0, 0), v(100, 0, 0), 500);
    b.update();
    assert_eq!(b.pos, v(9_700, 0, 0));
    assert_eq!(b.vel, v(-100, 0, 0));
}

#[test]
fn reflection_flips_once_per_crossing() {
    // Starting inside the box, the tick that crosses into the reflection
    // zone flips the sign; the next tick steps back inside, no second flip.
    let mut b = ball(v(9_400, 0, 0), v(150, 0, 0), 500);
    b.update();
    assert_eq!(b.pos, v(9_550, 0, 0));
    assert_eq!(b.vel.x, -150);
    b.update();
    assert_eq!(b.pos, v(9_400, 0, 0));
    assert_eq!(b.vel.x, -150);
}

#[test]
fn reflection_at_lower_wall() {
    let mut b = ball(v(0, -9_600, 0), v(0, -100, 0), 500);
    b.update();
    assert_eq!(b.pos.y, -9_700);
    assert_eq!(b.vel.y, 100);
}

#[test]
fn reflection_keeps_magnitude() {
    let mut b = ball(v(9_400, 9_400, 9_400), v(150, 200, 250), 500);
    b.update();
    assert_eq!(b.vel, v(-150, -200, -250));
}

#[test]
fn integration_moves_every_axis() {
    let mut b = ball(v(1_000, 2_000, 3_000), v(10, -20, 30), 500);
    b.update();
    assert_eq!(b.pos, v(1_010, 1_980, 3_030));
    assert_eq!(b.vel, v(10, -20, 30));
}

#[test]
fn integration_batching_is_deterministic() {
    // The same start state gives the same result however the n updates
    // are batched.
    let start = ball(v(100, 200, 300), v(70, -90, 110), 500);
    let mut a = start;
    for _ in 0..7 {
        a.update();
    }
    let mut b = start;
    for _ in 0..3 {
        b.update();
    }
    for _ in 0..4 {
        b.update();
    }
    assert_eq!(a, b);
}

#[test]
fn collision_swaps_velocities() {
    // A at origin, B at (0.4, 0, 0), both radius 0.5: distance 0.4 < 1.0,
    // so the pair collides and the velocities are exchanged.
    let a = ball(v(0, 0, 0), v(100, 0, 0), 500);
    let b = ball(v(400, 0, 0), v(-100, 0, 0), 500);
    let mut balls = vec![a, b];
    let events = resolve_collisions(&mut balls);
    assert_eq!(balls[0].vel, v(-100, 0, 0));
    assert_eq!(balls[1].vel, v(100, 0, 0));
    assert_eq!(balls[0].pos, v(0, 0, 0));
    assert_eq!(balls[1].pos, v(400, 0, 0));
    assert_eq!(events.len(), 1);
    assert_eq!(events[0].first, 0);
    assert_eq!(events[0].second, 1);
    assert_eq!(events[0].first_vel, v(100, 0, 0));
    assert_eq!(events[0].second_vel, v(-100, 0, 0));
}

#[test]
fn separated_pair_is_untouched() {
    let a = ball(v(0, 0, 0), v(100, 0, 0), 500);
    let b = ball(v(2_000, 0, 0), v(-100, 0, 0), 500);
    let mut balls = vec![a, b];
    let events = resolve_collisions(&mut balls);
    assert_eq!(balls[0].vel, v(100, 0, 0));
    assert_eq!(balls[1].vel, v(-100, 0, 0));
    assert!(events.is_empty());
}

#[test]
fn exactly_touching_pair_is_untouched() {
    // Center distance exactly the sum of the radii is not an overlap.
    let a = ball(v(0, 0, 0), v(1, 2, 3), 500);
    let b = ball(v(1_000, 0, 0), v(4, 5, 6), 500);
    let mut balls = vec![a, b];
    let events = resolve_collisions(&mut balls);
    assert_eq!(balls[0].vel, v(1, 2, 3));
    assert_eq!(balls[1].vel, v(4, 5, 6));
    assert!(events.is_empty());
}

#[test]
fn one_overlapping_pair_among_many() {
    // Only the first two balls overlap: exactly their velocities change.
    let a = ball(v(0, 0, 0), v(1, 2, 3), 500);
    let b = ball(v(400, 0, 0), v(4, 5, 6), 500);
    let c = ball(v(5_000, 0, 0), v(7, 8, 9), 500);
    let mut balls = vec![a, b, c];
    let events = resolve_collisions(&mut balls);
    assert_eq!(balls[0].vel, v(4, 5, 6));
    assert_eq!(balls[1].vel, v(1, 2, 3));
    assert_eq!(balls[2], c);
    assert_eq!(events.len(), 1);
    assert_eq!(events[0].first, 0);
    assert_eq!(events[0].second, 1);
}

#[test]
fn collision_retriggers_while_overlapping() {
    // No "already resolved" guard: while the pair stays inside each
    // other's combined radius, every scan swaps (and reports) again.
    let a = ball(v(0, 0, 0), v(100, 0, 0), 500);
    let b = ball(v(400, 0, 0), v(-100, 0, 0), 500);
    let mut balls = vec![a, b];
    let first = resolve_collisions(&mut balls);
    let second = resolve_collisions(&mut balls);
    assert_eq!(first.len(), 1);
    assert_eq!(second.len(), 1);
    // The second swap restores the original velocities.
    assert_eq!(balls[0].vel, v(100, 0, 0));
    assert_eq!(balls[1].vel, v(-100, 0, 0));
}

#[test]
fn spawn_despawn_stack_discipline() {
    let a = ball(v(1, 1, 1), v(2, 2, 2), 500);
    let b = ball(v(3, 3, 3), v(4, 4, 4), 600);
    let original = vec![a, b];
    let mut balls = original.clone();
    let mut rng = Rng::seeded(42);
    for _ in 0..3 {
        spawn_ball(&mut balls, &mut rng);
    }
    assert_eq!(balls.len(), 5);
    for _ in 0..3 {
        despawn_ball(&mut balls);
    }
    assert_eq!(balls, original);
}

#[test]
fn despawn_on_empty_is_noop() {
    let mut balls: Vec<Ball> = Vec::new();
    despawn_ball(&mut balls);
    assert!(balls.is_empty());
}

#[test]
fn spawned_ball_shape() {
    let mut balls: Vec<Ball> = Vec::new();
    let mut rng = Rng::seeded(7);
    spawn_ball(&mut balls, &mut rng);
    let b = balls[0];
    assert_eq!(b.pos, v(0, 0, 0));
    assert_eq!(b.radius, 500);
    assert!(-100 <= b.vel.x && b.vel.x <= 100);
    assert!(-100 <= b.vel.y && b.vel.y <= 100);
    assert!(-100 <= b.vel.z && b.vel.z <= 100);
}

#[test]
fn spawn_replays_from_seed() {
    let mut balls1: Vec<Ball> = Vec::new();
    let mut balls2: Vec<Ball> = Vec::new();
    let mut rng1 = Rng::seeded(123);
    let mut rng2 = Rng::seeded(123);
    spawn_ball(&mut balls1, &mut rng1);
    spawn_ball(&mut balls2, &mut rng2);
    assert_eq!(balls1, balls2);
    assert_eq!(rng1, rng2);
    let mut rng3 = Rng::seeded(124);
    let mut balls3: Vec<Ball> = Vec::new();
    spawn_ball(&mut balls3, &mut rng3);
    assert_ne!(rng1, rng3);
}

#[test]
fn boundaries_close_the_box() {
    let bs = boundaries();
    assert_eq!(bs.len(), 6);
    assert_eq!(bs[0].pos, v(-10_000, 0, 0));
    assert_eq!(bs[0].size, v(100, 20_000, 20_000));
    assert_eq!(bs[3].pos, v(0, 0, 10_000));
    assert_eq!(bs[3].size, v(20_000, 20_000, 100));
    assert_eq!(bs[5].pos, v(0, 10_000, 0));
    assert_eq!(bs[5].size, v(20_000, 100, 20_000));
}

#[test]
fn step_moves_spawned_ball_same_frame() {
    // A ball spawned in phase 1 of the step is integrated in phase 2 of
    // the same frame: after one step it sits one tick away from the
    // origin, displaced by exactly its own velocity.
    let mut balls: Vec<Ball> = Vec::new();
    let mut rng = Rng::seeded(99);
    let events = step(
        &mut balls,
        FrameInput { spawn: true, despawn: false },
        &mut rng,
    );
    assert_eq!(balls.len(), 1);
    assert_eq!(balls[0].pos, balls[0].vel);
    assert!(events.is_empty());
}

#[test]
fn step_despawns_then_moves() {
    let a = ball(v(1_000, 0, 0), v(10, 0, 0), 500);
    let b = ball(v(5_000, 0, 0), v(-10, 0, 0), 500);
    let mut balls = vec![a, b];
    let mut rng = Rng::seeded(1);
    let events = step(
        &mut balls,
        FrameInput { spawn: false, despawn: true },
        &mut rng,
    );
    assert_eq!(balls.len(), 1);
    assert_eq!(balls[0].pos, v(1_010, 0, 0));
    assert!(events.is_empty());
}

#[test]
fn step_reports_collisions() {
    let a = ball(v(0, 0, 0), v(0, 0, 0), 500);
    let b = ball(v(400, 0, 0), v(0, 0, 0), 500);
    let mut balls = vec![a, b];
    let mut rng = Rng::seeded(1);
    let events = step(
        &mut balls,
        FrameInput { spawn: false, despawn: false },
        &mut rng,
    );
    assert_eq!(events.len(), 1);
    assert_eq!(events[0].first, 0);
    assert_eq!(events[0].second, 1);
}

#[test]
fn palette_lookup_matches_indices() {
    assert_eq!(palette(0), BallColor::Green);
    assert_eq!(palette(4), BallColor::Purple);
    assert_eq!(palette(9), BallColor::DarkPurple);
}

#[test]
fn rng_draws_stay_in_range() {
    let mut rng = Rng::seeded(0xDEADBEEF);
    for _ in 0..100 {
        let x = rng.next_in_range(-5, 5);
        assert!(-5 <= x && x <= 5);
    }
}
