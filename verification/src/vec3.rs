//! Fixed-point 3D vectors: positions, velocities and extents.

use vstd::prelude::*;

verus! {

/// A 3D vector with fixed-point components (see [`crate::UNIT`]).
#[derive(Clone, Copy, Debug, PartialEq, Eq, Structural)]
pub struct Vec3 {
    pub x: i64,
    pub y: i64,
    pub z: i64,
}

/// Squared Euclidean distance between two points, as an unbounded integer.
pub open spec fn dist_sq(a: Vec3, b: Vec3) -> int {
    (a.x - b.x) * (a.x - b.x) + (a.y - b.y) * (a.y - b.y) + (a.z - b.z) * (a.z - b.z)
}

/// Every component of `v` lies in `[-bound, bound]`.
pub open spec fn within(v: Vec3, bound: int) -> bool {
    -bound <= v.x <= bound && -bound <= v.y <= bound && -bound <= v.z <= bound
}

impl Vec3 {
    pub fn new(x: i64, y: i64, z: i64) -> (v: Vec3)
        ensures
            v == (Vec3 { x, y, z }),
    {
        Vec3 { x, y, z }
    }
}

/// The square of a value bounded by `b` is bounded by `b * b`.
pub proof fn lemma_sq_bound(v: int, b: int)
    by (nonlinear_arith)
    requires
        -b <= v <= b,
        0 <= b,
    ensures
        0 <= v * v <= b * b,
{
}

/// Computes [`dist_sq`] exactly; the bound on the inputs keeps every
/// intermediate product inside `i64`.
pub fn dist_sq_exec(a: &Vec3, b: &Vec3) -> (d: i64)
    requires
        within(*a, crate::COORD_LIMIT as int),
        within(*b, crate::COORD_LIMIT as int),
    ensures
        d == dist_sq(*a, *b),
{
    let dx = a.x - b.x;
    let dy = a.y - b.y;
    let dz = a.z - b.z;
    proof {
        lemma_sq_bound(dx as int, 2 * crate::COORD_LIMIT as int);
        lemma_sq_bound(dy as int, 2 * crate::COORD_LIMIT as int);
        lemma_sq_bound(dz as int, 2 * crate::COORD_LIMIT as int);
    }
    dx * dx + dy * dy + dz * dz
}

} // verus!
