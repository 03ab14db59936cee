//! Fixed-point scalars and the division they are built on.
//!
//! Every geometric quantity in this crate is an `i64` holding a multiple
//! of `1 / FP`.  Division of such quantities truncates toward zero, like
//! hardware signed division; [`div_trunc`] is the specification-level
//! account of that rounding and [`div_fixed`] the executable form.

use vstd::prelude::*;

verus! {

/// One fixed-point unit: a coordinate, scale or angle `v` stands for the
/// real number `v / FP`.
pub const FP: i64 = 65536;

/// Largest magnitude a fixed-point world coordinate may take
/// (`COORD_MAX / FP` = 65536 world units).
pub const COORD_MAX: i64 = 0x1_0000_0000;

/// Largest time step, in ticks, a single physics advance accepts.
pub const DT_MAX: i64 = 0x100000;

/// Division truncating toward zero, the rounding of all fixed-point
/// divisions in this crate.  (The `/` of specifications is Euclidean,
/// which rounds negative quotients the other way.)
pub open spec fn div_trunc(a: int, b: int) -> int {
    if a >= 0 {
        a / b
    } else {
        -((-a) / b)
    }
}

/// An exact multiple divides without loss: `(k * b) / b == k`.
pub proof fn lemma_div_trunc_exact(k: int, b: int)
    requires
        b > 0,
    ensures
        div_trunc(k * b, b) == k,
{
    assert(k * b == b * k) by (nonlinear_arith);
    if k >= 0 {
        vstd::arithmetic::div_mod::lemma_div_multiples_vanish(k, b);
    } else {
        assert(-(b * k) == b * (-k)) by (nonlinear_arith);
        vstd::arithmetic::div_mod::lemma_div_multiples_vanish(-k, b);
    }
}

/// A quotient stays within a factor bound: `|a| <= m * b` gives
/// `|a / b| <= m`.
pub proof fn lemma_div_trunc_le_factor(a: int, b: int, m: int)
    requires
        b > 0,
        m >= 0,
        -(m * b) <= a <= m * b,
    ensures
        -m <= div_trunc(a, b) <= m,
{
    vstd::arithmetic::mul::lemma_mul_is_commutative(m, b);
    vstd::arithmetic::div_mod::lemma_div_multiples_vanish(m, b);
    if a >= 0 {
        vstd::arithmetic::div_mod::lemma_div_is_ordered(a, m * b, b);
        vstd::arithmetic::div_mod::lemma_div_pos_is_pos(a, b);
    } else {
        vstd::arithmetic::div_mod::lemma_div_is_ordered(-a, m * b, b);
        vstd::arithmetic::div_mod::lemma_div_pos_is_pos(-a, b);
    }
}

/// Truncating division maps a magnitude bound on the dividend to the
/// divided bound on the quotient.
pub proof fn lemma_div_trunc_monotone(a: int, b: int, m: int)
    requires
        b > 0,
        0 <= m,
        -m <= a <= m,
    ensures
        -(m / b) <= div_trunc(a, b) <= m / b,
{
    vstd::arithmetic::div_mod::lemma_div_pos_is_pos(m, b);
    if a >= 0 {
        vstd::arithmetic::div_mod::lemma_div_is_ordered(a, m, b);
        vstd::arithmetic::div_mod::lemma_div_pos_is_pos(a, b);
    } else {
        vstd::arithmetic::div_mod::lemma_div_is_ordered(-a, m, b);
        vstd::arithmetic::div_mod::lemma_div_pos_is_pos(-a, b);
    }
}

/// Fixed-point division: truncates toward zero, divisor positive.
pub fn div_fixed(a: i64, b: i64) -> (r: i64)
    requires
        b > 0,
        a > i64::MIN,
    ensures
        r == div_trunc(a as int, b as int),
{
    if a >= 0 {
        a / b
    } else {
        -((-a) / b)
    }
}

} // verus!
