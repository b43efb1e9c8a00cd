//! A small seedable pseudo-random source.
//!
//! Ball construction draws a velocity and a palette color from it. The
//! generator is an explicit parameter everywhere (never an ambient global),
//! so spawn scenarios replay exactly from a seed. It is a plain 64-bit
//! linear congruential generator; every draw is a pure function of the
//! state, stated exactly in the contracts.

use vstd::prelude::*;

use crate::vec3::Vec3;

verus! {

/// Multiplier of the linear congruential step.
pub const RNG_MUL: u64 = 6364136223846793005;

/// Increment of the linear congruential step.
pub const RNG_INC: u64 = 1442695040888963407;

/// The generator state after one draw.
pub open spec fn rng_step(s: u64) -> u64 {
    vstd::wrapping::u64_specs::wrapping_add(
        vstd::wrapping::u64_specs::wrapping_mul(s, RNG_MUL),
        RNG_INC,
    )
}

/// The value a draw in `[lo, hi]` yields from the post-draw state `s`.
pub open spec fn rng_val(s: u64, lo: int, hi: int) -> int {
    lo + (s as int) % (hi - lo + 1)
}

/// A seedable pseudo-random source.
#[derive(Clone, Copy, Debug, PartialEq, Eq, Structural)]
pub struct Rng {
    pub state: u64,
}

impl Rng {
    pub fn seeded(seed: u64) -> (r: Rng)
        ensures
            r.state == seed,
    {
        Rng { state: seed }
    }

    /// Draws a value in `[lo, hi]`; the draw and the new state are exact
    /// functions of the old state.
    pub fn next_in_range(&mut self, lo: i64, hi: i64) -> (r: i64)
        requires
            -1_000_000_000 <= lo <= hi <= 1_000_000_000,
        ensures
            final(self).state == rng_step(old(self).state),
            r == rng_val(final(self).state, lo as int, hi as int),
            lo <= r <= hi,
    {
        self.state = self.state.wrapping_mul(RNG_MUL).wrapping_add(RNG_INC);
        let span = (hi - lo + 1) as u64;
        let off = (self.state % span) as i64;
        lo + off
    }
}

/// A vector with each component drawn from `[lo, hi]`: one draw per
/// component, x, y, z in that order.
pub fn gen_random_vector(rng: &mut Rng, lo: i64, hi: i64) -> (v: Vec3)
    requires
        -1_000_000_000 <= lo <= hi <= 1_000_000_000,
    ensures
        final(rng).state == rng_step(rng_step(rng_step(old(rng).state))),
        v.x == rng_val(rng_step(old(rng).state), lo as int, hi as int),
        v.y == rng_val(rng_step(rng_step(old(rng).state)), lo as int, hi as int),
        v.z == rng_val(rng_step(rng_step(rng_step(old(rng).state))), lo as int, hi as int),
        lo <= v.x <= hi && lo <= v.y <= hi && lo <= v.z <= hi,
{
    let x = rng.next_in_range(lo, hi);
    let y = rng.next_in_range(lo, hi);
    let z = rng.next_in_range(lo, hi);
    Vec3 { x, y, z }
}

} // verus!
