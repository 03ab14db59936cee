//! Integer quaternions: the crate's rotation representation.
//!
//! A nonzero quaternion `q = (w, x, y, z)` of integers stands for the
//! rotation `v -> q v q* / norm_sq(q)`.  Its matrix has the integer
//! entries [`rm00`] .. [`rm22`] over the common denominator
//! [`Quat::norm_sq`], so the rotation is exactly orthonormal as a matrix
//! of rationals, whatever the components are: composing rotations can
//! never drift away from orthonormality.  Keeping components within
//! [`QMAX`] (by [`Quat::renormalize`]) keeps all downstream arithmetic
//! inside `i64`.

use vstd::prelude::*;

verus! {

/// Bound kept on stored orientation components.
pub const QMAX: i64 = 4096;

/// An orientation: a nonzero integer quaternion.
#[derive(Clone, Copy, Debug, PartialEq, Eq, Structural)]
pub struct Quat {
    pub w: i64,
    pub x: i64,
    pub y: i64,
    pub z: i64,
}

pub open spec fn abs_int(a: int) -> int {
    if a >= 0 {
        a
    } else {
        -a
    }
}

impl Quat {
    /// Squared Euclidean norm; the denominator of the rotation matrix.
    pub open spec fn norm_sq(self) -> int {
        self.w * self.w + self.x * self.x + self.y * self.y + self.z * self.z
    }

    /// All four components lie in `[-m, m]`.
    pub open spec fn bounded(self, m: int) -> bool {
        &&& -m <= self.w <= m
        &&& -m <= self.x <= m
        &&& -m <= self.y <= m
        &&& -m <= self.z <= m
    }

    pub open spec fn is_zero(self) -> bool {
        self.w == 0 && self.x == 0 && self.y == 0 && self.z == 0
    }

    /// A well-formed orientation: nonzero (so it names a rotation) and
    /// within the stored bound.
    pub open spec fn wf(self) -> bool {
        &&& self.bounded(QMAX as int)
        &&& !self.is_zero()
    }

    /// The identity rotation.
    pub fn identity() -> (r: Quat)
        ensures
            r == (Quat { w: 1i64, x: 0i64, y: 0i64, z: 0i64 }),
            r.wf(),
    {
        Quat { w: 1, x: 0, y: 0, z: 0 }
    }

    /// Hamilton product `self * o`: the rotation that applies `o` first,
    /// then `self`.
    pub fn compose(self, o: Quat) -> (r: Quat)
        requires
            self.bounded(0x1_0000),
            o.bounded(0x4000_0000),
        ensures
            r.w == self.w * o.w - self.x * o.x - self.y * o.y - self.z * o.z,
            r.x == self.w * o.x + self.x * o.w + self.y * o.z - self.z * o.y,
            r.y == self.w * o.y - self.x * o.z + self.y * o.w + self.z * o.x,
            r.z == self.w * o.z + self.x * o.y - self.y * o.x + self.z * o.w,
    {
        proof {
            lemma_all_products_bounded(self, o, 0x1_0000, 0x4000_0000);
        }
        Quat {
            w: self.w * o.w - self.x * o.x - self.y * o.y - self.z * o.z,
            x: self.w * o.x + self.x * o.w + self.y * o.z - self.z * o.y,
            y: self.w * o.y - self.x * o.z + self.y * o.w + self.z * o.x,
            z: self.w * o.z + self.x * o.y - self.y * o.x + self.z * o.w,
        }
    }

    /// Exact squared norm of a bounded quaternion.
    pub fn norm_sq_val(self) -> (r: i64)
        requires
            self.bounded(0x4000_0000),
        ensures
            r == self.norm_sq(),
    {
        proof {
            lemma_all_products_bounded(self, self, 0x4000_0000, 0x4000_0000);
        }
        self.w * self.w + self.x * self.x + self.y * self.y + self.z * self.z
    }

    /// Halve every component (truncating toward zero) until all fit in
    /// `[-QMAX, QMAX]`.  The result is again a nonzero quaternion, hence
    /// still an exact rotation, close to the one halved.
    pub fn renormalize(self) -> (r: Quat)
        requires
            !self.is_zero(),
        ensures
            r == spec_renormalize(self),
            r.wf(),
    {
        let mut q = self;
        while !q.bounded_exec(QMAX)
            invariant
                !q.is_zero(),
                spec_renormalize(q) == spec_renormalize(self),
            decreases max_abs(q),
        {
            proof {
                lemma_half_keeps_nonzero(q);
                lemma_half_decreases(q);
            }
            q = Quat {
                w: half_i64(q.w),
                x: half_i64(q.x),
                y: half_i64(q.y),
                z: half_i64(q.z),
            };
        }
        q
    }

    /// Executable check for the zero quaternion.
    pub fn is_zero_val(self) -> (r: bool)
        ensures
            r == self.is_zero(),
    {
        self.w == 0 && self.x == 0 && self.y == 0 && self.z == 0
    }

    /// Executable check that all components fit in `[-m, m]`.
    fn bounded_exec(self, m: i64) -> (r: bool)
        requires
            m >= 0,
        ensures
            r == self.bounded(m as int),
    {
        -m <= self.w && self.w <= m && -m <= self.x && self.x <= m && -m <= self.y && self.y <= m
            && -m <= self.z && self.z <= m
    }
}

/// Truncating halving of one component.
fn half_i64(c: i64) -> (r: i64)
    ensures
        r == crate::num::div_trunc(c as int, 2),
{
    if c >= 0 {
        c / 2
    } else {
        let m = -(c + 1);
        -(m / 2 + (m % 2))
    }
}

/// Largest component magnitude, the measure renormalization shrinks.
pub open spec fn max_abs(q: Quat) -> nat {
    let aw = abs_int(q.w as int);
    let ax = abs_int(q.x as int);
    let ay = abs_int(q.y as int);
    let az = abs_int(q.z as int);
    let m1 = if aw >= ax { aw } else { ax };
    let m2 = if ay >= az { ay } else { az };
    (if m1 >= m2 { m1 } else { m2 }) as nat
}

/// Truncating halving of every component.
pub open spec fn half_quat(q: Quat) -> Quat {
    Quat {
        w: crate::num::div_trunc(q.w as int, 2) as i64,
        x: crate::num::div_trunc(q.x as int, 2) as i64,
        y: crate::num::div_trunc(q.y as int, 2) as i64,
        z: crate::num::div_trunc(q.z as int, 2) as i64,
    }
}

/// What [`Quat::renormalize`] returns: the quaternion halved until it
/// fits in `[-QMAX, QMAX]`.
pub open spec fn spec_renormalize(q: Quat) -> Quat
    decreases max_abs(q),
{
    if q.bounded(QMAX as int) || q.is_zero() {
        q
    } else {
        spec_renormalize(half_quat(q))
    }
}

/// Halving a component keeps it inside `i64` and halves its magnitude.
proof fn lemma_half_component(c: i64)
    ensures
        crate::num::div_trunc(c as int, 2) as i64 == crate::num::div_trunc(c as int, 2),
        abs_int(crate::num::div_trunc(c as int, 2)) == abs_int(c as int) / 2,
{
    if c >= 0 {
    } else {
        assert(crate::num::div_trunc(c as int, 2) == -((-(c as int)) / 2));
    }
}

/// Halving a quaternion with a component beyond `QMAX` leaves it nonzero.
proof fn lemma_half_keeps_nonzero(q: Quat)
    requires
        !q.bounded(QMAX as int),
    ensures
        !half_quat(q).is_zero(),
{
    lemma_half_component(q.w);
    lemma_half_component(q.x);
    lemma_half_component(q.y);
    lemma_half_component(q.z);
}

proof fn lemma_half_decreases(q: Quat)
    requires
        !q.bounded(QMAX as int),
    ensures
        max_abs(half_quat(q)) < max_abs(q),
{
    lemma_half_component(q.w);
    lemma_half_component(q.x);
    lemma_half_component(q.y);
    lemma_half_component(q.z);
}

/// `|p| <= mp` and `|q| <= mq` bound the product by `mp * mq`.
pub proof fn lemma_abs_mul_bound(p: int, q: int, mp: int, mq: int)
    requires
        -mp <= p <= mp,
        -mq <= q <= mq,
    ensures
        -(mp * mq) <= p * q <= mp * mq,
{
    assert(-(mp * mq) <= p * q <= mp * mq) by (nonlinear_arith)
        requires
            -mp <= p <= mp,
            -mq <= q <= mq,
    ;
}

/// Bounds every pairwise component product of two quaternions.
proof fn lemma_all_products_bounded(a: Quat, b: Quat, ma: int, mb: int)
    requires
        a.bounded(ma),
        b.bounded(mb),
    ensures
        -(ma * mb) <= a.w * b.w <= ma * mb,
        -(ma * mb) <= a.w * b.x <= ma * mb,
        -(ma * mb) <= a.w * b.y <= ma * mb,
        -(ma * mb) <= a.w * b.z <= ma * mb,
        -(ma * mb) <= a.x * b.w <= ma * mb,
        -(ma * mb) <= a.x * b.x <= ma * mb,
        -(ma * mb) <= a.x * b.y <= ma * mb,
        -(ma * mb) <= a.x * b.z <= ma * mb,
        -(ma * mb) <= a.y * b.w <= ma * mb,
        -(ma * mb) <= a.y * b.x <= ma * mb,
        -(ma * mb) <= a.y * b.y <= ma * mb,
        -(ma * mb) <= a.y * b.z <= ma * mb,
        -(ma * mb) <= a.z * b.w <= ma * mb,
        -(ma * mb) <= a.z * b.x <= ma * mb,
        -(ma * mb) <= a.z * b.y <= ma * mb,
        -(ma * mb) <= a.z * b.z <= ma * mb,
{
    lemma_abs_mul_bound(a.w as int, b.w as int, ma, mb);
    lemma_abs_mul_bound(a.w as int, b.x as int, ma, mb);
    lemma_abs_mul_bound(a.w as int, b.y as int, ma, mb);
    lemma_abs_mul_bound(a.w as int, b.z as int, ma, mb);
    lemma_abs_mul_bound(a.x as int, b.w as int, ma, mb);
    lemma_abs_mul_bound(a.x as int, b.x as int, ma, mb);
    lemma_abs_mul_bound(a.x as int, b.y as int, ma, mb);
    lemma_abs_mul_bound(a.x as int, b.z as int, ma, mb);
    lemma_abs_mul_bound(a.y as int, b.w as int, ma, mb);
    lemma_abs_mul_bound(a.y as int, b.x as int, ma, mb);
    lemma_abs_mul_bound(a.y as int, b.y as int, ma, mb);
    lemma_abs_mul_bound(a.y as int, b.z as int, ma, mb);
    lemma_abs_mul_bound(a.z as int, b.w as int, ma, mb);
    lemma_abs_mul_bound(a.z as int, b.x as int, ma, mb);
    lemma_abs_mul_bound(a.z as int, b.y as int, ma, mb);
    lemma_abs_mul_bound(a.z as int, b.z as int, ma, mb);
}

// Rotation matrix numerators.  Column `j` of the matrix, divided by
// `norm_sq`, is where the rotation sends the `j`-th standard basis
// vector; `rm{i}{j}` is row `i`, column `j`.
pub open spec fn rm00(q: Quat) -> int {
    q.w * q.w + q.x * q.x - q.y * q.y - q.z * q.z
}

pub open spec fn rm01(q: Quat) -> int {
    2 * (q.x * q.y - q.w * q.z)
}

pub open spec fn rm02(q: Quat) -> int {
    2 * (q.x * q.z + q.w * q.y)
}

pub open spec fn rm10(q: Quat) -> int {
    2 * (q.x * q.y + q.w * q.z)
}

pub open spec fn rm11(q: Quat) -> int {
    q.w * q.w - q.x * q.x + q.y * q.y - q.z * q.z
}

pub open spec fn rm12(q: Quat) -> int {
    2 * (q.y * q.z - q.w * q.x)
}

pub open spec fn rm20(q: Quat) -> int {
    2 * (q.x * q.z - q.w * q.y)
}

pub open spec fn rm21(q: Quat) -> int {
    2 * (q.y * q.z + q.w * q.x)
}

pub open spec fn rm22(q: Quat) -> int {
    q.w * q.w - q.x * q.x - q.y * q.y + q.z * q.z
}

/// The nine rotation matrix numerators of an orientation, as values.
pub struct RotNum {
    pub m00: i64,
    pub m01: i64,
    pub m02: i64,
    pub m10: i64,
    pub m11: i64,
    pub m12: i64,
    pub m20: i64,
    pub m21: i64,
    pub m22: i64,
}

impl RotNum {
    pub open spec fn matches(self, q: Quat) -> bool {
        &&& self.m00 == rm00(q)
        &&& self.m01 == rm01(q)
        &&& self.m02 == rm02(q)
        &&& self.m10 == rm10(q)
        &&& self.m11 == rm11(q)
        &&& self.m12 == rm12(q)
        &&& self.m20 == rm20(q)
        &&& self.m21 == rm21(q)
        &&& self.m22 == rm22(q)
    }
}

/// A nonzero value has a positive square.
proof fn lemma_square_pos(a: int)
    requires
        a != 0,
    ensures
        a * a > 0,
{
    if a > 0 {
        vstd::arithmetic::mul::lemma_mul_strictly_positive(a, a);
    } else {
        vstd::arithmetic::mul::lemma_mul_cancels_negatives(a, a);
        vstd::arithmetic::mul::lemma_mul_strictly_positive(-a, -a);
    }
}

/// Every rotation numerator is bounded by the denominator `norm_sq`:
/// the rational matrix has entries in `[-1, 1]`.
pub proof fn lemma_rot_entries_bounded(q: Quat)
    ensures
        -q.norm_sq() <= rm00(q) <= q.norm_sq(),
        -q.norm_sq() <= rm01(q) <= q.norm_sq(),
        -q.norm_sq() <= rm02(q) <= q.norm_sq(),
        -q.norm_sq() <= rm10(q) <= q.norm_sq(),
        -q.norm_sq() <= rm11(q) <= q.norm_sq(),
        -q.norm_sq() <= rm12(q) <= q.norm_sq(),
        -q.norm_sq() <= rm20(q) <= q.norm_sq(),
        -q.norm_sq() <= rm21(q) <= q.norm_sq(),
        -q.norm_sq() <= rm22(q) <= q.norm_sq(),
{
    let w = q.w as int;
    let x = q.x as int;
    let y = q.y as int;
    let z = q.z as int;
    crate::poly::lemma_square_nonneg(w);
    crate::poly::lemma_square_nonneg(x);
    crate::poly::lemma_square_nonneg(y);
    crate::poly::lemma_square_nonneg(z);
    crate::poly::lemma_two_mul_between_squares(x, y);
    crate::poly::lemma_two_mul_between_squares(w, z);
    crate::poly::lemma_two_mul_between_squares(x, z);
    crate::poly::lemma_two_mul_between_squares(w, y);
    crate::poly::lemma_two_mul_between_squares(y, z);
    crate::poly::lemma_two_mul_between_squares(w, x);
}

/// The three basis vectors (matrix columns) are exactly orthogonal.
pub proof fn lemma_basis_orthogonal(q: Quat)
    ensures
        rm00(q) * rm01(q) + rm10(q) * rm11(q) + rm20(q) * rm21(q) == 0,
        rm00(q) * rm02(q) + rm10(q) * rm12(q) + rm20(q) * rm22(q) == 0,
        rm01(q) * rm02(q) + rm11(q) * rm12(q) + rm21(q) * rm22(q) == 0,
{
    lemma_ortho_01(q);
    lemma_ortho_02(q);
    lemma_ortho_12(q);
}

proof fn lemma_ortho_01(q: Quat)
    ensures
        rm00(q) * rm01(q) + rm10(q) * rm11(q) + rm20(q) * rm21(q) == 0,
{
    let w = q.w as int;
    let x = q.x as int;
    let y = q.y as int;
    let z = q.z as int;
    let ww = w * w;
    let xx = x * x;
    let yy = y * y;
    let zz = z * z;
    let e = x * y;
    let f = w * z;
    let g = x * z;
    let h = w * y;
    let p = y * z;
    let j = w * x;
    let a4 = ww + xx + (-yy) + (-zz);
    let b4 = ww + (-xx) + yy + (-zz);
    // rm00 * rm01 == 2 * (a4 * (e - f))
    crate::poly::lemma_pull_factor(a4, 2, e - f);
    crate::poly::lemma_distr4(ww, xx, -yy, -zz, e - f);
    crate::poly::lemma_neg_mul(yy, e - f);
    crate::poly::lemma_neg_mul(zz, e - f);
    vstd::arithmetic::mul::lemma_mul_is_distributive_sub(ww, e, f);
    vstd::arithmetic::mul::lemma_mul_is_distributive_sub(xx, e, f);
    vstd::arithmetic::mul::lemma_mul_is_distributive_sub(yy, e, f);
    vstd::arithmetic::mul::lemma_mul_is_distributive_sub(zz, e, f);
    assert(a4 * (e - f) == ww * e - ww * f + xx * e - xx * f - yy * e + yy * f - zz * e + zz * f);
    // rm10 * rm11 == 2 * (b4 * (e + f))
    vstd::arithmetic::mul::lemma_mul_is_commutative(2 * (e + f), b4);
    crate::poly::lemma_pull_factor(b4, 2, e + f);
    crate::poly::lemma_distr4(ww, -xx, yy, -zz, e + f);
    crate::poly::lemma_neg_mul(xx, e + f);
    crate::poly::lemma_neg_mul(zz, e + f);
    vstd::arithmetic::mul::lemma_mul_is_distributive_add(ww, e, f);
    vstd::arithmetic::mul::lemma_mul_is_distributive_add(xx, e, f);
    vstd::arithmetic::mul::lemma_mul_is_distributive_add(yy, e, f);
    vstd::arithmetic::mul::lemma_mul_is_distributive_add(zz, e, f);
    assert(b4 * (e + f) == ww * e + ww * f - xx * e - xx * f + yy * e + yy * f - zz * e - zz * f);
    // rm20 * rm21 == 4 * ((g - h) * (p + j))
    crate::poly::lemma_pull_factor(2 * (p + j), 2, g - h);
    crate::poly::lemma_pull_factor(g - h, 2, p + j);
    vstd::arithmetic::mul::lemma_mul_is_distributive_sub_other_way(p + j, g, h);
    vstd::arithmetic::mul::lemma_mul_is_distributive_add(g, p, j);
    vstd::arithmetic::mul::lemma_mul_is_distributive_add(h, p, j);
    // bridge each degree-four monomial to the atoms above
    crate::poly::lemma_pair_swap(x, z, y, z);  // g*p == (x*y)*(z*z)
    vstd::arithmetic::mul::lemma_mul_is_commutative(e, zz);
    crate::poly::lemma_pair_swap_outer(x, z, w, x);  // g*j == (x*x)*(z*w)
    vstd::arithmetic::mul::lemma_mul_is_commutative(z, w);
    crate::poly::lemma_pair_swap_outer(w, y, y, z);  // h*p == (w*z)*(y*y)
    vstd::arithmetic::mul::lemma_mul_is_commutative(f, yy);
    crate::poly::lemma_pair_swap(w, y, w, x);  // h*j == (w*w)*(y*x)
    vstd::arithmetic::mul::lemma_mul_is_commutative(y, x);
    assert((g - h) * (p + j) == zz * e + xx * f - yy * f - ww * e);
}

proof fn lemma_ortho_02(q: Quat)
    ensures
        rm00(q) * rm02(q) + rm10(q) * rm12(q) + rm20(q) * rm22(q) == 0,
{
    let w = q.w as int;
    let x = q.x as int;
    let y = q.y as int;
    let z = q.z as int;
    let ww = w * w;
    let xx = x * x;
    let yy = y * y;
    let zz = z * z;
    let e = x * y;
    let f = w * z;
    let g = x * z;
    let h = w * y;
    let p = y * z;
    let j = w * x;
    let a4 = ww + xx + (-yy) + (-zz);
    let c4 = ww + (-xx) + (-yy) + zz;
    // rm00 * rm02 == 2 * (a4 * (g + h))
    crate::poly::lemma_pull_factor(a4, 2, g + h);
    crate::poly::lemma_distr4(ww, xx, -yy, -zz, g + h);
    crate::poly::lemma_neg_mul(yy, g + h);
    crate::poly::lemma_neg_mul(zz, g + h);
    vstd::arithmetic::mul::lemma_mul_is_distributive_add(ww, g, h);
    vstd::arithmetic::mul::lemma_mul_is_distributive_add(xx, g, h);
    vstd::arithmetic::mul::lemma_mul_is_distributive_add(yy, g, h);
    vstd::arithmetic::mul::lemma_mul_is_distributive_add(zz, g, h);
    assert(a4 * (g + h) == ww * g + ww * h + xx * g + xx * h - yy * g - yy * h - zz * g - zz * h);
    // rm20 * rm22 == 2 * (c4 * (g - h))
    vstd::arithmetic::mul::lemma_mul_is_commutative(2 * (g - h), c4);
    crate::poly::lemma_pull_factor(c4, 2, g - h);
    crate::poly::lemma_distr4(ww, -xx, -yy, zz, g - h);
    crate::poly::lemma_neg_mul(xx, g - h);
    crate::poly::lemma_neg_mul(yy, g - h);
    vstd::arithmetic::mul::lemma_mul_is_distributive_sub(ww, g, h);
    vstd::arithmetic::mul::lemma_mul_is_distributive_sub(xx, g, h);
    vstd::arithmetic::mul::lemma_mul_is_distributive_sub(yy, g, h);
    vstd::arithmetic::mul::lemma_mul_is_distributive_sub(zz, g, h);
    assert(c4 * (g - h) == ww * g - ww * h - xx * g + xx * h - yy * g + yy * h + zz * g - zz * h);
    // rm10 * rm12 == 4 * ((e + f) * (p - j))
    crate::poly::lemma_pull_factor(2 * (p - j), 2, e + f);
    crate::poly::lemma_pull_factor(e + f, 2, p - j);
    vstd::arithmetic::mul::lemma_mul_is_distributive_add_other_way(p - j, e, f);
    vstd::arithmetic::mul::lemma_mul_is_distributive_sub(e, p, j);
    vstd::arithmetic::mul::lemma_mul_is_distributive_sub(f, p, j);
    // bridges
    crate::poly::lemma_pair_swap_outer(x, y, y, z);  // e*p == (x*z)*(y*y)
    vstd::arithmetic::mul::lemma_mul_is_commutative(g, yy);
    crate::poly::lemma_pair_swap_outer(x, y, w, x);  // e*j == (x*x)*(y*w)
    vstd::arithmetic::mul::lemma_mul_is_commutative(y, w);
    crate::poly::lemma_pair_swap(w, z, y, z);  // f*p == (w*y)*(z*z)
    vstd::arithmetic::mul::lemma_mul_is_commutative(h, zz);
    crate::poly::lemma_pair_swap(w, z, w, x);  // f*j == (w*w)*(z*x)
    vstd::arithmetic::mul::lemma_mul_is_commutative(z, x);
    assert((e + f) * (p - j) == yy * g - xx * h + zz * h - ww * g);
}

proof fn lemma_ortho_12(q: Quat)
    ensures
        rm01(q) * rm02(q) + rm11(q) * rm12(q) + rm21(q) * rm22(q) == 0,
{
    let w = q.w as int;
    let x = q.x as int;
    let y = q.y as int;
    let z = q.z as int;
    let ww = w * w;
    let xx = x * x;
    let yy = y * y;
    let zz = z * z;
    let e = x * y;
    let f = w * z;
    let g = x * z;
    let h = w * y;
    let p = y * z;
    let j = w * x;
    let b4 = ww + (-xx) + yy + (-zz);
    let c4 = ww + (-xx) + (-yy) + zz;
    // rm01 * rm02 == 4 * ((e - f) * (g + h))
    crate::poly::lemma_pull_factor(2 * (g + h), 2, e - f);
    crate::poly::lemma_pull_factor(e - f, 2, g + h);
    vstd::arithmetic::mul::lemma_mul_is_distributive_sub_other_way(g + h, e, f);
    vstd::arithmetic::mul::lemma_mul_is_distributive_add(e, g, h);
    vstd::arithmetic::mul::lemma_mul_is_distributive_add(f, g, h);
    crate::poly::lemma_pair_swap(x, y, x, z);  // e*g == (x*x)*(y*z)
    crate::poly::lemma_pair_swap(x, y, w, y);  // e*h == (x*w)*(y*y)
    vstd::arithmetic::mul::lemma_mul_is_commutative(x, w);
    vstd::arithmetic::mul::lemma_mul_is_commutative(j, yy);
    crate::poly::lemma_pair_swap(w, z, x, z);  // f*g == (w*x)*(z*z)
    vstd::arithmetic::mul::lemma_mul_is_commutative(j, zz);
    crate::poly::lemma_pair_swap(w, z, w, y);  // f*h == (w*w)*(z*y)
    vstd::arithmetic::mul::lemma_mul_is_commutative(z, y);
    assert((e - f) * (g + h) == xx * p + yy * j - zz * j - ww * p);
    // rm11 * rm12 == 2 * (b4 * (p - j))
    crate::poly::lemma_pull_factor(b4, 2, p - j);
    crate::poly::lemma_distr4(ww, -xx, yy, -zz, p - j);
    crate::poly::lemma_neg_mul(xx, p - j);
    crate::poly::lemma_neg_mul(zz, p - j);
    vstd::arithmetic::mul::lemma_mul_is_distributive_sub(ww, p, j);
    vstd::arithmetic::mul::lemma_mul_is_distributive_sub(xx, p, j);
    vstd::arithmetic::mul::lemma_mul_is_distributive_sub(yy, p, j);
    vstd::arithmetic::mul::lemma_mul_is_distributive_sub(zz, p, j);
    assert(b4 * (p - j) == ww * p - ww * j - xx * p + xx * j + yy * p - yy * j - zz * p + zz * j);
    // rm21 * rm22 == 2 * (c4 * (p + j))
    vstd::arithmetic::mul::lemma_mul_is_commutative(2 * (p + j), c4);
    crate::poly::lemma_pull_factor(c4, 2, p + j);
    crate::poly::lemma_distr4(ww, -xx, -yy, zz, p + j);
    crate::poly::lemma_neg_mul(xx, p + j);
    crate::poly::lemma_neg_mul(yy, p + j);
    vstd::arithmetic::mul::lemma_mul_is_distributive_add(ww, p, j);
    vstd::arithmetic::mul::lemma_mul_is_distributive_add(xx, p, j);
    vstd::arithmetic::mul::lemma_mul_is_distributive_add(yy, p, j);
    vstd::arithmetic::mul::lemma_mul_is_distributive_add(zz, p, j);
    assert(c4 * (p + j) == ww * p + ww * j - xx * p - xx * j - yy * p - yy * j + zz * p + zz * j);
}

/// Each basis vector is exactly a unit vector of the rational model:
/// its squared numerator norm equals the squared denominator.
pub proof fn lemma_basis_unit(q: Quat)
    ensures
        rm00(q) * rm00(q) + rm10(q) * rm10(q) + rm20(q) * rm20(q) == q.norm_sq() * q.norm_sq(),
        rm01(q) * rm01(q) + rm11(q) * rm11(q) + rm21(q) * rm21(q) == q.norm_sq() * q.norm_sq(),
        rm02(q) * rm02(q) + rm12(q) * rm12(q) + rm22(q) * rm22(q) == q.norm_sq() * q.norm_sq(),
{
    let w = q.w as int;
    let x = q.x as int;
    let y = q.y as int;
    let z = q.z as int;
    let ww = w * w;
    let xx = x * x;
    let yy = y * y;
    let zz = z * z;
    let e = x * y;
    let f = w * z;
    let g = x * z;
    let h = w * y;
    let p = y * z;
    let j = w * x;
    let a4 = ww + xx + (-yy) + (-zz);
    let b4 = ww + (-xx) + yy + (-zz);
    let c4 = ww + (-xx) + (-yy) + zz;
    let n4 = ww + xx + yy + zz;
    lemma_square4(w, x, y, z, a4);
    lemma_square4(w, x, y, z, b4);
    lemma_square4(w, x, y, z, c4);
    lemma_square4(w, x, y, z, n4);
    // two-term squares, each scaled by 4
    lemma_two_term_squares(w, x, y, z);
}

/// Expands the square of `s`, a signed combination of the four squares
/// `w*w`, `x*x`, `y*y`, `z*z`, into canonical monomials.
proof fn lemma_square4(w: int, x: int, y: int, z: int, s: int)
    requires
        s == w * w + x * x + y * y + z * z || s == w * w + x * x + (-(y * y)) + (-(z * z)) || s == w
            * w + (-(x * x)) + y * y + (-(z * z)) || s == w * w + (-(x * x)) + (-(y * y)) + z * z,
    ensures
        s == w * w + x * x + y * y + z * z ==> s * s == (w * w) * (w * w) + (x * x) * (x * x) + (y
            * y) * (y * y) + (z * z) * (z * z) + 2 * ((w * w) * (x * x)) + 2 * ((w * w) * (y * y))
            + 2 * ((w * w) * (z * z)) + 2 * ((x * x) * (y * y)) + 2 * ((x * x) * (z * z)) + 2 * ((y
            * y) * (z * z)),
        s == w * w + x * x + (-(y * y)) + (-(z * z)) ==> s * s == (w * w) * (w * w) + (x * x) * (x
            * x) + (y * y) * (y * y) + (z * z) * (z * z) + 2 * ((w * w) * (x * x)) - 2 * ((w * w)
            * (y * y)) - 2 * ((w * w) * (z * z)) - 2 * ((x * x) * (y * y)) - 2 * ((x * x) * (z
            * z)) + 2 * ((y * y) * (z * z)),
        s == w * w + (-(x * x)) + y * y + (-(z * z)) ==> s * s == (w * w) * (w * w) + (x * x) * (x
            * x) + (y * y) * (y * y) + (z * z) * (z * z) - 2 * ((w * w) * (x * x)) + 2 * ((w * w)
            * (y * y)) - 2 * ((w * w) * (z * z)) - 2 * ((x * x) * (y * y)) + 2 * ((x * x) * (z
            * z)) - 2 * ((y * y) * (z * z)),
        s == w * w + (-(x * x)) + (-(y * y)) + z * z ==> s * s == (w * w) * (w * w) + (x * x) * (x
            * x) + (y * y) * (y * y) + (z * z) * (z * z) - 2 * ((w * w) * (x * x)) - 2 * ((w * w)
            * (y * y)) + 2 * ((w * w) * (z * z)) + 2 * ((x * x) * (y * y)) - 2 * ((x * x) * (z
            * z)) - 2 * ((y * y) * (z * z)),
{
    let ww = w * w;
    let xx = x * x;
    let yy = y * y;
    let zz = z * z;
    // distribute s over its own four summands, for every sign pattern
    crate::poly::lemma_distr4(ww, xx, yy, zz, s);
    crate::poly::lemma_distr4(ww, xx, -yy, -zz, s);
    crate::poly::lemma_distr4(ww, -xx, yy, -zz, s);
    crate::poly::lemma_distr4(ww, -xx, -yy, zz, s);
    crate::poly::lemma_neg_mul(xx, s);
    crate::poly::lemma_neg_mul(yy, s);
    crate::poly::lemma_neg_mul(zz, s);
    // distribute each square over the four summands of s
    crate::poly::lemma_distr4_right(ww, ww, xx, yy, zz);
    crate::poly::lemma_distr4_right(ww, ww, xx, -yy, -zz);
    crate::poly::lemma_distr4_right(ww, ww, -xx, yy, -zz);
    crate::poly::lemma_distr4_right(ww, ww, -xx, -yy, zz);
    crate::poly::lemma_distr4_right(xx, ww, xx, yy, zz);
    crate::poly::lemma_distr4_right(xx, ww, xx, -yy, -zz);
    crate::poly::lemma_distr4_right(xx, ww, -xx, yy, -zz);
    crate::poly::lemma_distr4_right(xx, ww, -xx, -yy, zz);
    crate::poly::lemma_distr4_right(yy, ww, xx, yy, zz);
    crate::poly::lemma_distr4_right(yy, ww, xx, -yy, -zz);
    crate::poly::lemma_distr4_right(yy, ww, -xx, yy, -zz);
    crate::poly::lemma_distr4_right(yy, ww, -xx, -yy, zz);
    crate::poly::lemma_distr4_right(zz, ww, xx, yy, zz);
    crate::poly::lemma_distr4_right(zz, ww, xx, -yy, -zz);
    crate::poly::lemma_distr4_right(zz, ww, -xx, yy, -zz);
    crate::poly::lemma_distr4_right(zz, ww, -xx, -yy, zz);
    crate::poly::lemma_neg_mul(ww, xx);
    crate::poly::lemma_neg_mul(ww, yy);
    crate::poly::lemma_neg_mul(ww, zz);
    crate::poly::lemma_neg_mul(xx, yy);
    crate::poly::lemma_neg_mul(xx, zz);
    crate::poly::lemma_neg_mul(yy, zz);
    crate::poly::lemma_neg_mul(xx, ww);
    crate::poly::lemma_neg_mul(yy, ww);
    crate::poly::lemma_neg_mul(zz, ww);
    crate::poly::lemma_neg_mul(yy, xx);
    crate::poly::lemma_neg_mul(zz, xx);
    crate::poly::lemma_neg_mul(zz, yy);
    crate::poly::lemma_neg_mul(ww, ww);
    crate::poly::lemma_neg_mul(xx, xx);
    crate::poly::lemma_neg_mul(yy, yy);
    crate::poly::lemma_neg_mul(zz, zz);
    // commute transposed pairs into canonical order
    vstd::arithmetic::mul::lemma_mul_is_commutative(xx, ww);
    vstd::arithmetic::mul::lemma_mul_is_commutative(yy, ww);
    vstd::arithmetic::mul::lemma_mul_is_commutative(zz, ww);
    vstd::arithmetic::mul::lemma_mul_is_commutative(yy, xx);
    vstd::arithmetic::mul::lemma_mul_is_commutative(zz, xx);
    vstd::arithmetic::mul::lemma_mul_is_commutative(zz, yy);
}

/// Expands the squares of the six off-diagonal numerators (the doubled
/// products) into canonical monomials.
proof fn lemma_two_term_squares(w: int, x: int, y: int, z: int)
    ensures
        (2 * (x * y + w * z)) * (2 * (x * y + w * z)) == 4 * ((x * x) * (y * y)) + 8 * ((w * x) * (
        y * z)) + 4 * ((w * w) * (z * z)),
        (2 * (x * y - w * z)) * (2 * (x * y - w * z)) == 4 * ((x * x) * (y * y)) - 8 * ((w * x) * (
        y * z)) + 4 * ((w * w) * (z * z)),
        (2 * (x * z + w * y)) * (2 * (x * z + w * y)) == 4 * ((x * x) * (z * z)) + 8 * ((w * x) * (
        y * z)) + 4 * ((w * w) * (y * y)),
        (2 * (x * z - w * y)) * (2 * (x * z - w * y)) == 4 * ((x * x) * (z * z)) - 8 * ((w * x) * (
        y * z)) + 4 * ((w * w) * (y * y)),
        (2 * (y * z + w * x)) * (2 * (y * z + w * x)) == 4 * ((y * y) * (z * z)) + 8 * ((w * x) * (
        y * z)) + 4 * ((w * w) * (x * x)),
        (2 * (y * z - w * x)) * (2 * (y * z - w * x)) == 4 * ((y * y) * (z * z)) - 8 * ((w * x) * (
        y * z)) + 4 * ((w * w) * (x * x)),
{
    let e = x * y;
    let f = w * z;
    let g = x * z;
    let h = w * y;
    let p = y * z;
    let j = w * x;
    lemma_scaled_square(e, f);
    lemma_scaled_square(g, h);
    lemma_scaled_square(p, j);
    // canonical forms of the atom squares and cross products
    crate::poly::lemma_pair_swap(x, y, x, y);  // e*e == (x*x)*(y*y)
    crate::poly::lemma_pair_swap(w, z, w, z);  // f*f == (w*w)*(z*z)
    crate::poly::lemma_pair_swap(x, z, x, z);  // g*g == (x*x)*(z*z)
    crate::poly::lemma_pair_swap(w, y, w, y);  // h*h == (w*w)*(y*y)
    crate::poly::lemma_pair_swap(y, z, y, z);  // p*p == (y*y)*(z*z)
    crate::poly::lemma_pair_swap(w, x, w, x);  // j*j == (w*w)*(x*x)
    crate::poly::lemma_pair_swap(x, y, w, z);  // e*f == (x*w)*(y*z)
    vstd::arithmetic::mul::lemma_mul_is_commutative(x, w);
    crate::poly::lemma_pair_swap(x, z, w, y);  // g*h == (x*w)*(z*y)
    vstd::arithmetic::mul::lemma_mul_is_commutative(z, y);
    vstd::arithmetic::mul::lemma_mul_is_commutative(p, j);  // p*j == j*p
}

/// `(2(u + v))^2 == 4 u u + 8 u v + 4 v v`, and the same with `u - v`.
proof fn lemma_scaled_square(u: int, v: int)
    ensures
        (2 * (u + v)) * (2 * (u + v)) == 4 * (u * u) + 8 * (u * v) + 4 * (v * v),
        (2 * (u - v)) * (2 * (u - v)) == 4 * (u * u) - 8 * (u * v) + 4 * (v * v),
{
    crate::poly::lemma_pull_factor(2 * (u + v), 2, u + v);
    crate::poly::lemma_pull_factor(u + v, 2, u + v);
    vstd::arithmetic::mul::lemma_mul_is_distributive_add_other_way(u + v, u, v);
    vstd::arithmetic::mul::lemma_mul_is_distributive_add(u, u, v);
    vstd::arithmetic::mul::lemma_mul_is_distributive_add(v, u, v);
    crate::poly::lemma_pull_factor(2 * (u - v), 2, u - v);
    crate::poly::lemma_pull_factor(u - v, 2, u - v);
    vstd::arithmetic::mul::lemma_mul_is_distributive_sub_other_way(u - v, u, v);
    vstd::arithmetic::mul::lemma_mul_is_distributive_sub(u, u, v);
    vstd::arithmetic::mul::lemma_mul_is_distributive_sub(v, u, v);
    vstd::arithmetic::mul::lemma_mul_is_commutative(v, u);
}

/// A componentwise bound caps the squared norm.
pub proof fn lemma_norm_sq_bounded(q: Quat, m: int)
    requires
        q.bounded(m),
        m >= 0,
    ensures
        q.norm_sq() <= 4 * (m * m),
{
    lemma_abs_mul_bound(q.w as int, q.w as int, m, m);
    lemma_abs_mul_bound(q.x as int, q.x as int, m, m);
    lemma_abs_mul_bound(q.y as int, q.y as int, m, m);
    lemma_abs_mul_bound(q.z as int, q.z as int, m, m);
}

/// A nonzero quaternion has a positive denominator.
pub proof fn lemma_norm_sq_pos(q: Quat)
    requires
        !q.is_zero(),
    ensures
        q.norm_sq() > 0,
{
    crate::poly::lemma_square_nonneg(q.w as int);
    crate::poly::lemma_square_nonneg(q.x as int);
    crate::poly::lemma_square_nonneg(q.y as int);
    crate::poly::lemma_square_nonneg(q.z as int);
    if q.w != 0 {
        lemma_square_pos(q.w as int);
    } else if q.x != 0 {
        lemma_square_pos(q.x as int);
    } else if q.y != 0 {
        lemma_square_pos(q.y as int);
    } else {
        lemma_square_pos(q.z as int);
    }
}

/// Rotation matrix numerators of a bounded quaternion, as values.
pub fn rot_num(q: Quat) -> (r: RotNum)
    requires
        q.bounded(0x4000_0000),
    ensures
        r.matches(q),
{
    proof {
        lemma_all_products_bounded(q, q, 0x4000_0000, 0x4000_0000);
    }
    RotNum {
        m00: q.w * q.w + q.x * q.x - q.y * q.y - q.z * q.z,
        m01: 2 * (q.x * q.y - q.w * q.z),
        m02: 2 * (q.x * q.z + q.w * q.y),
        m10: 2 * (q.x * q.y + q.w * q.z),
        m11: q.w * q.w - q.x * q.x + q.y * q.y - q.z * q.z,
        m12: 2 * (q.y * q.z - q.w * q.x),
        m20: 2 * (q.x * q.z - q.w * q.y),
        m21: 2 * (q.y * q.z + q.w * q.x),
        m22: q.w * q.w - q.x * q.x - q.y * q.y + q.z * q.z,
    }
}

} // verus!
