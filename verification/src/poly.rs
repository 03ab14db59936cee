//! Small deterministic lemmas for expanding products of sums.
//!
//! The rotation laws of [`crate::quat`] are polynomial identities of
//! degree four.  Rather than hand them whole to a nonlinear solver,
//! each proof distributes products into sums of canonical monomials
//! with the lemmas here and with vstd's multiplication lemmas, and the
//! remaining reasoning is linear.

use vstd::arithmetic::mul::{
    lemma_mul_is_associative,
    lemma_mul_is_commutative,
    lemma_mul_is_distributive_add,
    lemma_mul_is_distributive_add_other_way,
    lemma_mul_is_distributive_sub,
    lemma_mul_is_distributive_sub_other_way,
    lemma_mul_unary_negation,
    lemma_mul_cancels_negatives,
    lemma_mul_nonnegative,
};
use vstd::prelude::*;

verus! {

/// Distribute a four-term sum over a right factor.
pub proof fn lemma_distr4(a: int, b: int, c: int, d: int, y: int)
    ensures
        (a + b + c + d) * y == a * y + b * y + c * y + d * y,
{
    lemma_mul_is_distributive_add_other_way(y, a + b + c, d);
    lemma_mul_is_distributive_add_other_way(y, a + b, c);
    lemma_mul_is_distributive_add_other_way(y, a, b);
}

/// Distribute a left factor over a four-term sum.
pub proof fn lemma_distr4_right(x: int, a: int, b: int, c: int, d: int)
    ensures
        x * (a + b + c + d) == x * a + x * b + x * c + x * d,
{
    lemma_mul_is_distributive_add(x, a + b + c, d);
    lemma_mul_is_distributive_add(x, a + b, c);
    lemma_mul_is_distributive_add(x, a, b);
}

/// A negated left factor pulls the sign out of the product.
pub proof fn lemma_neg_mul(x: int, y: int)
    ensures
        (-x) * y == -(x * y),
        x * (-y) == -(x * y),
{
    lemma_mul_unary_negation(x, y);
}

/// Regroup a product of two products: `(p q)(r s) == (p r)(q s)`.
pub proof fn lemma_pair_swap(p: int, q: int, r: int, s: int)
    ensures
        (p * q) * (r * s) == (p * r) * (q * s),
{
    lemma_mul_is_associative(p, q, r * s);
    lemma_mul_is_associative(q, r, s);
    lemma_mul_is_commutative(q, r);
    lemma_mul_is_associative(r, q, s);
    lemma_mul_is_associative(p, r, q * s);
}

/// Regroup a product of two products: `(p q)(r s) == (p s)(q r)`.
pub proof fn lemma_pair_swap_outer(p: int, q: int, r: int, s: int)
    ensures
        (p * q) * (r * s) == (p * s) * (q * r),
{
    lemma_mul_is_commutative(r, s);
    lemma_pair_swap(p, q, s, r);
}

/// Pull a constant factor across a product: `x (k e) == k (x e)`.
pub proof fn lemma_pull_factor(x: int, k: int, e: int)
    ensures
        x * (k * e) == k * (x * e),
        (k * e) * x == k * (e * x),
{
    lemma_mul_is_associative(x, k, e);
    lemma_mul_is_commutative(x, k);
    lemma_mul_is_associative(k, x, e);
    lemma_mul_is_associative(k, e, x);
}

/// Doubling both factors quadruples a product.
pub proof fn lemma_four_product(a: int, b: int)
    ensures
        (2 * a) * (2 * b) == 4 * (a * b),
{
    lemma_pull_factor(2 * a, 2, b);
    lemma_pull_factor(b, 2, a);
}

/// A square is never negative.
pub proof fn lemma_square_nonneg(x: int)
    ensures
        x * x >= 0,
{
    if x >= 0 {
        lemma_mul_nonnegative(x, x);
    } else {
        lemma_mul_cancels_negatives(x, x);
        lemma_mul_nonnegative(-x, -x);
    }
}

/// Twice a product of two factors lies between the sum of their squares
/// and its negation (from `(x - y)^2 >= 0` and `(x + y)^2 >= 0`).
pub proof fn lemma_two_mul_between_squares(x: int, y: int)
    ensures
        -(x * x + y * y) <= 2 * (x * y) <= x * x + y * y,
{
    lemma_square_nonneg(x - y);
    lemma_square_nonneg(x + y);
    lemma_mul_is_distributive_sub_other_way(x - y, x, y);
    lemma_mul_is_distributive_sub(x, x, y);
    lemma_mul_is_distributive_sub(y, x, y);
    lemma_mul_is_distributive_add_other_way(x + y, x, y);
    lemma_mul_is_distributive_add(x, x, y);
    lemma_mul_is_distributive_add(y, x, y);
    lemma_mul_is_commutative(x, y);
}

} // verus!
