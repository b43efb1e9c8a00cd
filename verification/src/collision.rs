//! All-pairs collision detection and resolution.
//!
//! Every unordered pair of distinct balls is checked once per tick, in
//! index order; an overlapping pair unconditionally swaps velocities (no
//! impulse model). The scan is deliberately O(n^2) and keeps re-triggering
//! every tick while two balls stay inside each other's combined radius.
//! Each detected overlap also yields a [`CollisionEvent`] carrying the
//! pre-swap velocities, the resolver's only side channel.

use vstd::prelude::*;

use crate::ball::Ball;
use crate::vec3::{dist_sq, dist_sq_exec, lemma_sq_bound, within, Vec3};
use crate::{COORD_LIMIT, LIMIT};

verus! {

/// One detected overlap: the pair's indices and its velocities as they
/// were just before the swap.
#[derive(Clone, Copy, Debug, PartialEq, Eq, Structural)]
pub struct CollisionEvent {
    pub first: usize,
    pub second: usize,
    pub first_vel: Vec3,
    pub second_vel: Vec3,
}

/// The two spheres overlap: center distance below the sum of the radii
/// (compared squared, which is exact in integers).
pub open spec fn overlapping(a: Ball, b: Ball) -> bool {
    dist_sq(a.pos, b.pos) < (a.radius + b.radius) * (a.radius + b.radius)
}

/// Bounds under which the scan's distance arithmetic fits in `i64`.
pub open spec fn scan_bounds(b: Ball) -> bool {
    0 < b.radius <= LIMIT && within(b.pos, COORD_LIMIT as int)
}

/// Exact executable overlap test.
pub fn check_overlap(a: &Ball, b: &Ball) -> (o: bool)
    requires
        scan_bounds(*a),
        scan_bounds(*b),
    ensures
        o == overlapping(*a, *b),
{
    let d = dist_sq_exec(&a.pos, &b.pos);
    let rsum = a.radius + b.radius;
    proof {
        lemma_sq_bound(rsum as int, 2 * LIMIT as int);
    }
    d < rsum * rsum
}

/// `s` with the velocities of entries `i` and `j` exchanged.
pub open spec fn swap_vels(s: Seq<Ball>, i: int, j: int) -> Seq<Ball> {
    s.update(
        i,
        Ball { pos: s[i].pos, vel: s[j].vel, radius: s[i].radius, color: s[i].color },
    ).update(j, Ball { pos: s[j].pos, vel: s[i].vel, radius: s[j].radius, color: s[j].color })
}

/// The scan's action on one pair: swap the velocities if the pair
/// overlaps, otherwise leave the sequence alone.
pub open spec fn resolve_pair(s: Seq<Ball>, i: int, j: int) -> Seq<Ball> {
    if overlapping(s[i], s[j]) {
        swap_vels(s, i, j)
    } else {
        s
    }
}

/// The event record of one pair check: one event if the pair overlaps,
/// none otherwise.
pub open spec fn pair_event(s: Seq<Ball>, i: int, j: int) -> Seq<CollisionEvent> {
    if overlapping(s[i], s[j]) {
        seq![
            CollisionEvent {
                first: i as usize,
                second: j as usize,
                first_vel: s[i].vel,
                second_vel: s[j].vel,
            },
        ]
    } else {
        Seq::empty()
    }
}

/// The rest of row `i` of the scan, from column `j` on: balls after, and
/// the events emitted, in order.
pub open spec fn resolve_inner(s: Seq<Ball>, i: int, j: int) -> (Seq<Ball>, Seq<CollisionEvent>)
    decreases s.len() - j,
    via resolve_inner_decreases
{
    if i < 0 || i >= s.len() || j < 0 || j >= s.len() {
        (s, Seq::empty())
    } else {
        let rest = resolve_inner(resolve_pair(s, i, j), i, j + 1);
        (rest.0, pair_event(s, i, j) + rest.1)
    }
}

#[via_fn]
proof fn resolve_inner_decreases(s: Seq<Ball>, i: int, j: int) {
    if 0 <= i < s.len() && 0 <= j < s.len() {
        assert(resolve_pair(s, i, j).len() == s.len());
    }
}

/// The scan from row `i` on: each row `i` checks pairs `(i, j)` for
/// `j > i`, so every unordered pair is checked exactly once per tick.
pub open spec fn resolve_outer(s: Seq<Ball>, i: int) -> (Seq<Ball>, Seq<CollisionEvent>)
    decreases s.len() - i,
    via resolve_outer_decreases
{
    if i < 0 || i >= s.len() {
        (s, Seq::empty())
    } else {
        let inner = resolve_inner(s, i, i + 1);
        let rest = resolve_outer(inner.0, i + 1);
        (rest.0, inner.1 + rest.1)
    }
}

/// The scan never changes a ball's position, radius or color, and never
/// changes the length of the sequence: row by row, only velocities move.
pub proof fn lemma_resolve_inner_len(s: Seq<Ball>, i: int, j: int)
    ensures
        resolve_inner(s, i, j).0.len() == s.len(),
    decreases s.len() - j,
{
    if 0 <= i < s.len() && 0 <= j < s.len() {
        lemma_resolve_inner_len(resolve_pair(s, i, j), i, j + 1);
    }
}

#[via_fn]
proof fn resolve_outer_decreases(s: Seq<Ball>, i: int) {
    lemma_resolve_inner_len(s, i, i + 1);
}

/// The whole tick's collision resolution: balls after the scan and the
/// emitted events.
pub open spec fn resolve_all(s: Seq<Ball>) -> (Seq<Ball>, Seq<CollisionEvent>) {
    resolve_outer(s, 0)
}

/// Checks every unordered pair of distinct balls once, in index order,
/// and swaps the velocities of each overlapping pair. Returns one event
/// per detected overlap, with the pre-swap velocities.
#[verifier::loop_isolation(false)]
pub fn resolve_collisions(balls: &mut Vec<Ball>) -> (events: Vec<CollisionEvent>)
    requires
        forall|k: int| 0 <= k < old(balls)@.len() ==> scan_bounds(#[trigger] old(balls)@[k]),
    ensures
        final(balls)@ == resolve_all(old(balls)@).0,
        events@ == resolve_all(old(balls)@).1,
{
    let ghost target = resolve_all(balls@);
    let n = balls.len();
    let mut events: Vec<CollisionEvent> = Vec::new();
    let mut i: usize = 0;
    while i < n
        invariant
            n == balls@.len(),
            i <= n,
            forall|k: int| 0 <= k < n ==> scan_bounds(#[trigger] balls@[k]),
            resolve_outer(balls@, i as int).0 == target.0,
            events@ + resolve_outer(balls@, i as int).1 == target.1,
        decreases n - i,
    {
        proof {
            let inner = resolve_inner(balls@, i as int, i + 1);
            let rest = resolve_outer(inner.0, i as int + 1);
            assert(events@ + (inner.1 + rest.1) =~= (events@ + inner.1) + rest.1);
        }
        let mut j: usize = i + 1;
        while j < n
            invariant
                n == balls@.len(),
                i < j <= n,
                forall|k: int| 0 <= k < n ==> scan_bounds(#[trigger] balls@[k]),
                resolve_outer(resolve_inner(balls@, i as int, j as int).0, i as int + 1).0
                    == target.0,
                (events@ + resolve_inner(balls@, i as int, j as int).1) + resolve_outer(
                    resolve_inner(balls@, i as int, j as int).0,
                    i as int + 1,
                ).1 == target.1,
            decreases n - j,
        {
            let ghost s_pre = balls@;
            let ghost ev_pre = events@;
            let hit = check_overlap(&balls[i], &balls[j]);
            if hit {
                let vi = balls[i].vel;
                let vj = balls[j].vel;
                events.push(
                    CollisionEvent { first: i, second: j, first_vel: vi, second_vel: vj },
                );
                balls[i].vel = vj;
                balls[j].vel = vi;
                proof {
                    assert(balls@ =~= resolve_pair(s_pre, i as int, j as int));
                    assert(events@ =~= ev_pre + pair_event(s_pre, i as int, j as int));
                }
            } else {
                proof {
                    assert(balls@ == resolve_pair(s_pre, i as int, j as int));
                    assert(events@ =~= ev_pre + pair_event(s_pre, i as int, j as int));
                }
            }
            proof {
                let inner_next = resolve_inner(balls@, i as int, j as int + 1);
                assert(resolve_inner(s_pre, i as int, j as int).0 == inner_next.0);
                assert(resolve_inner(s_pre, i as int, j as int).1 == pair_event(
                    s_pre,
                    i as int,
                    j as int,
                ) + inner_next.1);
                let rest = resolve_outer(inner_next.0, i as int + 1);
                assert((ev_pre + (pair_event(s_pre, i as int, j as int) + inner_next.1)) + rest.1
                    =~= ((ev_pre + pair_event(s_pre, i as int, j as int)) + inner_next.1) + rest.1);
            }
            j += 1;
        }
        proof {
            let fin = resolve_inner(balls@, i as int, n as int);
            assert(fin.0 == balls@ && fin.1 == Seq::<CollisionEvent>::empty());
            assert((events@ + Seq::<CollisionEvent>::empty()) + resolve_outer(
                balls@,
                i as int + 1,
            ).1 =~= events@ + resolve_outer(balls@, i as int + 1).1);
        }
        i += 1;
    }
    events
}

/// The swap changes only the two velocities: positions, radii, colors
/// and every other entry stay in place.
pub proof fn lemma_swap_keeps_bodies(s: Seq<Ball>, i: int, j: int)
    requires
        0 <= i < s.len(),
        0 <= j < s.len(),
        i != j,
    ensures
        swap_vels(s, i, j).len() == s.len(),
        swap_vels(s, i, j)[i] == (Ball {
            pos: s[i].pos,
            vel: s[j].vel,
            radius: s[i].radius,
            color: s[i].color,
        }),
        swap_vels(s, i, j)[j] == (Ball {
            pos: s[j].pos,
            vel: s[i].vel,
            radius: s[j].radius,
            color: s[j].color,
        }),
        forall|k: int| 0 <= k < s.len() && k != i && k != j ==> swap_vels(s, i, j)[k] == s[k],
{
}

/// Whether two entries overlap reads positions and radii alone, which
/// the swap never changes.
pub proof fn lemma_swap_keeps_overlap(s: Seq<Ball>, i: int, j: int, x: int, y: int)
    requires
        0 <= i < s.len(),
        0 <= j < s.len(),
        i != j,
        0 <= x < s.len(),
        0 <= y < s.len(),
    ensures
        overlapping(swap_vels(s, i, j)[x], swap_vels(s, i, j)[y]) == overlapping(s[x], s[y]),
{
    lemma_swap_keeps_bodies(s, i, j);
}

/// A row with no overlaps from column `j` on changes nothing and emits
/// nothing.
proof fn lemma_inner_clean(s: Seq<Ball>, i: int, j: int)
    requires
        forall|j2: int| j <= j2 < s.len() ==> !overlapping(s[i], #[trigger] s[j2]),
    ensures
        resolve_inner(s, i, j) == (s, Seq::<CollisionEvent>::empty()),
    decreases s.len() - j,
{
    if 0 <= i < s.len() && 0 <= j < s.len() {
        assert(!overlapping(s[i], s[j]));
        lemma_inner_clean(s, i, j + 1);
        assert(pair_event(s, i, j) + Seq::<CollisionEvent>::empty()
            =~= Seq::<CollisionEvent>::empty());
    }
}

/// A scan over rows `>= i` of a set whose rows `>= i` hold no
/// overlapping pair changes nothing and emits nothing.
proof fn lemma_outer_clean(s: Seq<Ball>, i: int)
    requires
        forall|i2: int, j2: int|
            i <= i2 < j2 < s.len() ==> !overlapping(#[trigger] s[i2], #[trigger] s[j2]),
    ensures
        resolve_outer(s, i) == (s, Seq::<CollisionEvent>::empty()),
    decreases s.len() - i,
{
    if 0 <= i < s.len() {
        lemma_inner_clean(s, i, i + 1);
        lemma_outer_clean(s, i + 1);
        assert(Seq::<CollisionEvent>::empty() + Seq::<CollisionEvent>::empty()
            =~= Seq::<CollisionEvent>::empty());
    }
}

/// Collision symmetry for a pair of balls: resolving two overlapping
/// balls exchanges exactly their velocities — each ends with the other's
/// pre-resolution velocity — and emits one event carrying the pre-swap
/// velocities; resolving a non-overlapping pair is a no-op.
pub proof fn lemma_two_ball_symmetry(s: Seq<Ball>)
    requires
        s.len() == 2,
    ensures
        overlapping(s[0], s[1]) ==> resolve_all(s).0 == swap_vels(s, 0, 1)
            && resolve_all(s).0[0].vel == s[1].vel && resolve_all(s).0[1].vel == s[0].vel
            && resolve_all(s).0[0].pos == s[0].pos && resolve_all(s).0[1].pos == s[1].pos
            && resolve_all(s).1 == pair_event(s, 0, 1),
        !overlapping(s[0], s[1]) ==> resolve_all(s).0 == s && resolve_all(s).1
            == Seq::<CollisionEvent>::empty(),
{
    let tp = resolve_pair(s, 0, 1);
    assert(resolve_inner(tp, 0, 2) == (tp, Seq::<CollisionEvent>::empty()));
    assert(resolve_inner(s, 0, 1).0 == tp);
    assert(resolve_inner(s, 0, 1).1 == pair_event(s, 0, 1) + Seq::<CollisionEvent>::empty());
    lemma_outer_clean(tp, 1);
    assert(resolve_outer(s, 0).0 == tp);
    if overlapping(s[0], s[1]) {
        lemma_swap_keeps_bodies(s, 0, 1);
        assert(resolve_all(s).1 =~= pair_event(s, 0, 1));
    } else {
        assert(resolve_all(s).1 =~= Seq::<CollisionEvent>::empty());
    }
}

/// Row `a`, scanned from a column `j <= b`, swaps exactly at column `b`
/// when `(a, b)` is the only overlap in the row.
proof fn lemma_inner_until(s: Seq<Ball>, a: int, b: int, j: int)
    requires
        0 <= a < b < s.len(),
        a < j <= b,
        overlapping(s[a], s[b]),
        forall|j2: int| a < j2 < s.len() && j2 != b ==> !overlapping(s[a], #[trigger] s[j2]),
    ensures
        resolve_inner(s, a, j).0 == swap_vels(s, a, b),
        resolve_inner(s, a, j).1 == pair_event(s, a, b),
    decreases b - j,
{
    if j == b {
        let t = swap_vels(s, a, b);
        lemma_swap_keeps_bodies(s, a, b);
        assert forall|j2: int| b + 1 <= j2 < t.len() implies !overlapping(t[a], #[trigger] t[j2]) by {
            lemma_swap_keeps_overlap(s, a, b, a, j2);
        }
        lemma_inner_clean(t, a, b + 1);
        assert(resolve_inner(s, a, b).0 == t);
        assert(pair_event(s, a, b) + Seq::<CollisionEvent>::empty() =~= pair_event(s, a, b));
    } else {
        assert(!overlapping(s[a], s[j]));
        lemma_inner_until(s, a, b, j + 1);
        assert(Seq::<CollisionEvent>::empty() + pair_event(s, a, b) =~= pair_event(s, a, b));
    }
}

/// The scan from row `i <= a` on, when `(a, b)` is the only overlapping
/// pair, swaps exactly that pair and emits exactly its event.
proof fn lemma_outer_until(s: Seq<Ball>, a: int, b: int, i: int)
    requires
        0 <= i <= a < b < s.len(),
        overlapping(s[a], s[b]),
        forall|i2: int, j2: int|
            i <= i2 < j2 < s.len() && !(i2 == a && j2 == b) ==> !overlapping(
                #[trigger] s[i2],
                #[trigger] s[j2],
            ),
    ensures
        resolve_outer(s, i).0 == swap_vels(s, a, b),
        resolve_outer(s, i).1 == pair_event(s, a, b),
    decreases a - i,
{
    if i == a {
        lemma_inner_until(s, a, b, a + 1);
        let t = swap_vels(s, a, b);
        lemma_swap_keeps_bodies(s, a, b);
        assert forall|i2: int, j2: int| a + 1 <= i2 < j2 < t.len() implies !overlapping(
            #[trigger] t[i2],
            #[trigger] t[j2],
        ) by {
            lemma_swap_keeps_overlap(s, a, b, i2, j2);
        }
        lemma_outer_clean(t, a + 1);
        assert(pair_event(s, a, b) + Seq::<CollisionEvent>::empty() =~= pair_event(s, a, b));
    } else {
        lemma_inner_clean(s, i, i + 1);
        lemma_outer_until(s, a, b, i + 1);
        assert(Seq::<CollisionEvent>::empty() + pair_event(s, a, b) =~= pair_event(s, a, b));
    }
}

/// Pairwise exhaustiveness: when `(a, b)` is the only overlapping pair
/// among the balls, the whole scan swaps exactly that pair\'s velocities,
/// leaves every other ball untouched, and emits exactly that pair\'s
/// event.
pub proof fn lemma_single_pair(s: Seq<Ball>, a: int, b: int)
    requires
        0 <= a < b < s.len(),
        overlapping(s[a], s[b]),
        forall|i2: int, j2: int|
            0 <= i2 < j2 < s.len() && !(i2 == a && j2 == b) ==> !overlapping(
                #[trigger] s[i2],
                #[trigger] s[j2],
            ),
    ensures
        resolve_all(s).0.len() == s.len(),
        resolve_all(s).0[a] == (Ball {
            pos: s[a].pos,
            vel: s[b].vel,
            radius: s[a].radius,
            color: s[a].color,
        }),
        resolve_all(s).0[b] == (Ball {
            pos: s[b].pos,
            vel: s[a].vel,
            radius: s[b].radius,
            color: s[b].color,
        }),
        forall|k: int| 0 <= k < s.len() && k != a && k != b ==> resolve_all(s).0[k] == s[k],
        resolve_all(s).1 == pair_event(s, a, b),
{
    lemma_outer_until(s, a, b, 0);
    lemma_swap_keeps_bodies(s, a, b);
}

} // verus!
