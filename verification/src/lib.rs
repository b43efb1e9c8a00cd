//! Simulation core of a small 3D bouncing-balls demo.
//!
//! A variable number of spherical balls move inside a closed axis-aligned
//! box. Each simulation tick a ball's position advances by its velocity;
//! when a ball's center comes within its radius of a wall, the matching
//! velocity component flips sign. Every unordered pair of overlapping
//! balls swaps velocities. Balls are spawned at the origin with a small
//! random velocity and despawned last-in-first-out.
//!
//! All scalars are fixed-point: one world unit is [`UNIT`] counts, so the
//! half-width of the play volume (10 units) is [`LIMIT`] counts. This keeps
//! the whole simulation in exact integer arithmetic.

use vstd::prelude::*;

pub mod ball;
pub mod collision;
pub mod rng;
pub mod vec3;
pub mod world;

verus! {

/// Fixed-point scale: number of counts in one world unit.
pub const UNIT: i64 = 1_000;

/// Half-width of the play volume, in counts (10 world units).
pub const LIMIT: i64 = 10 * UNIT;

/// Largest velocity component, per axis, that the simulation step accepts.
pub const VEL_LIMIT: i64 = LIMIT;

/// Largest position component, per axis, that the simulation step accepts.
/// Far outside the play volume; a ball never gets near it, but the bound
/// keeps every intermediate product of the collision scan inside `i64`.
pub const POS_LIMIT: i64 = 100_000 * UNIT;

/// Largest position component the collision scan itself accepts: one tick
/// of drift beyond [`POS_LIMIT`].
pub const COORD_LIMIT: i64 = POS_LIMIT + VEL_LIMIT;

} // verus!
