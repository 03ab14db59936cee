//! Frame-loop steering: the centroid of a group of entities and the
//! clamped inverse-square attraction toward a point.
//!
//! The attraction deliberately caps the distance it divides by from
//! below, so that a body arbitrarily close to its target is never blown
//! away by the inverse square.

use crate::num::{div_trunc, div_fixed, FP};
use crate::vec3::Vec3;
use vstd::prelude::*;

verus! {

/// Bound on the coordinates the steering functions accept.
pub const STEER_MAX: i64 = 0x2000_0000;

/// Most entities a centroid is taken over.
pub const GROUP_MAX: usize = 0x10000;

/// The integer square root: the largest `r` with `r * r <= n`.
pub fn isqrt(n: u64) -> (r: u64)
    requires
        n < 0x4000_0000_0000_0000,
    ensures
        r * r <= n < (r + 1) * (r + 1),
{
    let mut lo: u64 = 0;
    let mut hi: u64 = 0x8000_0000;
    proof {
        crate::quat::lemma_abs_mul_bound(0x8000_0000, 0x8000_0000, 0x8000_0000, 0x8000_0000);
        assert((0x8000_0000 as int) * (0x8000_0000 as int) == 0x4000_0000_0000_0000)
            by (nonlinear_arith);
    }
    while hi - lo > 1
        invariant
            lo < hi <= 0x8000_0000,
            lo * lo <= n,
            n < hi * hi,
        decreases hi - lo,
    {
        let mid: u64 = lo + (hi - lo) / 2;
        proof {
            crate::quat::lemma_abs_mul_bound(mid as int, mid as int, 0x8000_0000, 0x8000_0000);
        }
        if mid * mid <= n {
            lo = mid;
        } else {
            hi = mid;
        }
    }
    lo
}

/// The sum of the `x` components of a prefix of positions.
pub open spec fn sum_x(s: Seq<Vec3>) -> int
    decreases s.len(),
{
    if s.len() == 0 {
        0
    } else {
        sum_x(s.drop_last()) + s.last().x
    }
}

/// The sum of the `y` components of a prefix of positions.
pub open spec fn sum_y(s: Seq<Vec3>) -> int
    decreases s.len(),
{
    if s.len() == 0 {
        0
    } else {
        sum_y(s.drop_last()) + s.last().y
    }
}

/// The sum of the `z` components of a prefix of positions.
pub open spec fn sum_z(s: Seq<Vec3>) -> int
    decreases s.len(),
{
    if s.len() == 0 {
        0
    } else {
        sum_z(s.drop_last()) + s.last().z
    }
}

/// Sums of bounded positions are bounded by the count times the bound.
proof fn lemma_sum_bounded(s: Seq<Vec3>, m: int)
    requires
        m >= 0,
        forall|i: int| 0 <= i < s.len() ==> #[trigger] s[i].bounded(m),
    ensures
        -(s.len() * m) <= sum_x(s) <= s.len() * m,
        -(s.len() * m) <= sum_y(s) <= s.len() * m,
        -(s.len() * m) <= sum_z(s) <= s.len() * m,
    decreases s.len(),
{
    if s.len() == 0 {
    } else {
        lemma_sum_bounded(s.drop_last(), m);
        assert(s[s.len() - 1].bounded(m));
        assert((s.len() - 1) * m + m == s.len() * m) by {
            vstd::arithmetic::mul::lemma_mul_is_distributive_sub_other_way(
                m,
                s.len() as int,
                1,
            );
        }
    }
}

/// The centroid of a nonempty group: the component-wise mean of the
/// positions, rounded toward zero.
pub fn centroid(ps: &Vec<Vec3>) -> (r: Vec3)
    requires
        0 < ps@.len() <= GROUP_MAX,
        forall|i: int| 0 <= i < ps@.len() ==> #[trigger] ps@[i].bounded(STEER_MAX as int),
    ensures
        r.x == div_trunc(sum_x(ps@), ps@.len() as int),
        r.y == div_trunc(sum_y(ps@), ps@.len() as int),
        r.z == div_trunc(sum_z(ps@), ps@.len() as int),
{
    let mut sx: i64 = 0;
    let mut sy: i64 = 0;
    let mut sz: i64 = 0;
    let mut i: usize = 0;
    proof {
        lemma_sum_bounded(ps@, STEER_MAX as int);
    }
    while i < ps.len()
        invariant
            i <= ps@.len() <= GROUP_MAX,
            forall|k: int| 0 <= k < ps@.len() ==> #[trigger] ps@[k].bounded(STEER_MAX as int),
            sx == sum_x(ps@.take(i as int)),
            sy == sum_y(ps@.take(i as int)),
            sz == sum_z(ps@.take(i as int)),
            -((i as int) * (STEER_MAX as int)) <= sx <= (i as int) * (STEER_MAX as int),
            -((i as int) * (STEER_MAX as int)) <= sy <= (i as int) * (STEER_MAX as int),
            -((i as int) * (STEER_MAX as int)) <= sz <= (i as int) * (STEER_MAX as int),
        decreases ps@.len() - i,
    {
        proof {
            assert(ps@[i as int].bounded(STEER_MAX as int));
            assert(ps@.take(i as int + 1).drop_last() =~= ps@.take(i as int));
            assert(ps@.take(i as int + 1).last() == ps@[i as int]);
            vstd::arithmetic::mul::lemma_mul_is_distributive_add(STEER_MAX as int, i as int, 1);
            vstd::arithmetic::mul::lemma_mul_is_commutative(STEER_MAX as int, i as int + 1);
            vstd::arithmetic::mul::lemma_mul_is_commutative(STEER_MAX as int, i as int);
        }
        sx = sx + ps[i].x;
        sy = sy + ps[i].y;
        sz = sz + ps[i].z;
        i = i + 1;
    }
    proof {
        assert(ps@.take(ps@.len() as int) =~= ps@);
    }
    let n = ps.len() as i64;
    Vec3 { x: div_fixed(sx, n), y: div_fixed(sy, n), z: div_fixed(sz, n) }
}

/// The squared fixed-point distance between two bounded points.
pub open spec fn spec_dist_sq(pos: Vec3, target: Vec3) -> int {
    (target.x - pos.x) * (target.x - pos.x) + (target.y - pos.y) * (target.y - pos.y) + (target.z
        - pos.z) * (target.z - pos.z)
}

/// The steering nudge toward `target`: the offset scaled by
/// `gain / max(distance, min_dist)^2`.  The distance the square is
/// taken of is never allowed below `min_dist`, so a close body is not
/// catapulted by the inverse square.  The returned vector is the exact
/// fixed-point evaluation at the (unique) integer square root `s` of
/// the squared distance.
pub fn attraction(pos: Vec3, target: Vec3, gain: i64, min_dist: i64) -> (r: Vec3)
    requires
        pos.bounded(STEER_MAX as int),
        target.bounded(STEER_MAX as int),
        0 <= gain <= 0x10_0000,
        FP <= min_dist <= 0x4000_0000,
    ensures
        exists|s: int|
            {
                &&& 0 <= s
                &&& s * s <= spec_dist_sq(pos, target) < (s + 1) * (s + 1)
                &&& #[trigger] attraction_value(pos, target, gain, min_dist, s) == r
            },
{
    let dx = target.x - pos.x;
    let dy = target.y - pos.y;
    let dz = target.z - pos.z;
    proof {
        crate::quat::lemma_abs_mul_bound(dx as int, dx as int, 0x4000_0000, 0x4000_0000);
        crate::quat::lemma_abs_mul_bound(dy as int, dy as int, 0x4000_0000, 0x4000_0000);
        crate::quat::lemma_abs_mul_bound(dz as int, dz as int, 0x4000_0000, 0x4000_0000);
        crate::poly::lemma_square_nonneg(dx as int);
        crate::poly::lemma_square_nonneg(dy as int);
        crate::poly::lemma_square_nonneg(dz as int);
    }
    let dist_sq: u64 = (dx * dx + dy * dy + dz * dz) as u64;
    let dist = isqrt(dist_sq);
    proof {
        lemma_dist_in_range(dist as int, dist_sq as int);
    }
    let m: i64 = if dist < min_dist as u64 {
        min_dist
    } else {
        dist as i64
    };
    proof {
        crate::quat::lemma_abs_mul_bound(m as int, m as int, 0x8000_0000, 0x8000_0000);
        vstd::arithmetic::mul::lemma_mul_nonnegative(m as int, m as int);
        vstd::arithmetic::mul::lemma_mul_inequality(FP as int, m as int, FP as int);
        vstd::arithmetic::mul::lemma_mul_left_inequality(m as int, FP as int, m as int);
        vstd::arithmetic::div_mod::lemma_div_is_ordered(
            (FP as int) * (FP as int),
            (m as int) * (m as int),
            FP as int,
        );
        crate::num::lemma_div_trunc_exact(FP as int, FP as int);
        crate::quat::lemma_abs_mul_bound(dx as int, gain as int, 0x4000_0000, 0x10_0000);
        crate::quat::lemma_abs_mul_bound(dy as int, gain as int, 0x4000_0000, 0x10_0000);
        crate::quat::lemma_abs_mul_bound(dz as int, gain as int, 0x4000_0000, 0x10_0000);
    }
    let denom = div_fixed(m * m, FP);
    let r = Vec3 {
        x: div_fixed(dx * gain, denom),
        y: div_fixed(dy * gain, denom),
        z: div_fixed(dz * gain, denom),
    };
    proof {
        let s = dist as int;
        assert(attraction_value(pos, target, gain, min_dist, s) == r);
    }
    r
}

/// The attraction formula at square-root witness `s`: the offset times
/// `gain`, divided by the fixed-point square of the clamped distance.
pub open spec fn attraction_value(pos: Vec3, target: Vec3, gain: i64, min_dist: i64, s: int) -> Vec3 {
    let m = if s < min_dist {
        min_dist as int
    } else {
        s
    };
    let denom = div_trunc(m * m, FP as int);
    Vec3 {
        x: div_trunc((target.x - pos.x) * gain, denom) as i64,
        y: div_trunc((target.y - pos.y) * gain, denom) as i64,
        z: div_trunc((target.z - pos.z) * gain, denom) as i64,
    }
}

/// The square root of a value under `2^62` fits under `2^31`.
proof fn lemma_dist_in_range(s: int, n: int)
    requires
        0 <= s,
        s * s <= n < 0x4000_0000_0000_0000,
    ensures
        s < 0x8000_0000,
{
    if s >= 0x8000_0000 {
        vstd::arithmetic::mul::lemma_mul_inequality(0x8000_0000, s, s);
        vstd::arithmetic::mul::lemma_mul_left_inequality(0x8000_0000, 0x8000_0000, s);
        assert((0x8000_0000 as int) * (0x8000_0000 as int) == 0x4000_0000_0000_0000)
            by (nonlinear_arith);
    }
}

} // verus!
