//! 4 x 4 fixed-point matrices.
//!
//! `m<r><c>` is the entry in row `r`, column `c`; an entry `v` stands
//! for the real number `v / FP`.  A point transform multiplies the
//! matrix with the homogeneous column `(p, 1)` and divides by `FP`.

use crate::mesh::Triangle;
use crate::num::{div_trunc, div_fixed, FP};
use crate::vec3::Vec3;
use vstd::prelude::*;

verus! {

/// A transform; row-major fields, flattened column-major for upload.
#[derive(Clone, Copy, Debug, PartialEq, Eq, Structural)]
pub struct Mat4 {
    pub m00: i64,
    pub m01: i64,
    pub m02: i64,
    pub m03: i64,
    pub m10: i64,
    pub m11: i64,
    pub m12: i64,
    pub m13: i64,
    pub m20: i64,
    pub m21: i64,
    pub m22: i64,
    pub m23: i64,
    pub m30: i64,
    pub m31: i64,
    pub m32: i64,
    pub m33: i64,
}

impl Mat4 {
    /// The identity transform.
    pub fn identity() -> (r: Mat4)
        ensures
            r == spec_identity(),
    {
        Mat4 {
            m00: FP,
            m01: 0,
            m02: 0,
            m03: 0,
            m10: 0,
            m11: FP,
            m12: 0,
            m13: 0,
            m20: 0,
            m21: 0,
            m22: FP,
            m23: 0,
            m30: 0,
            m31: 0,
            m32: 0,
            m33: FP,
        }
    }

    /// The upper-left 3 x 3 block lies in `[-m, m]`.
    pub open spec fn lin_bounded(self, m: int) -> bool {
        &&& -m <= self.m00 <= m && -m <= self.m01 <= m && -m <= self.m02 <= m
        &&& -m <= self.m10 <= m && -m <= self.m11 <= m && -m <= self.m12 <= m
        &&& -m <= self.m20 <= m && -m <= self.m21 <= m && -m <= self.m22 <= m
    }

    /// The translation column lies in `[-m, m]`.
    pub open spec fn trans_bounded(self, m: int) -> bool {
        &&& -m <= self.m03 <= m
        &&& -m <= self.m13 <= m
        &&& -m <= self.m23 <= m
    }

    /// An affine transform: last row `(0, 0, 0, 1)`.
    pub open spec fn affine(self) -> bool {
        self.m30 == 0 && self.m31 == 0 && self.m32 == 0 && self.m33 == FP
    }

    /// The sixteen entries, column-major, as the graphics API takes them.
    pub fn flatten(&self) -> (r: Vec<i64>)
        ensures
            r@ =~= seq![
                self.m00, self.m10, self.m20, self.m30,
                self.m01, self.m11, self.m21, self.m31,
                self.m02, self.m12, self.m22, self.m32,
                self.m03, self.m13, self.m23, self.m33,
            ],
    {
        let mut v: Vec<i64> = Vec::new();
        v.push(self.m00);
        v.push(self.m10);
        v.push(self.m20);
        v.push(self.m30);
        v.push(self.m01);
        v.push(self.m11);
        v.push(self.m21);
        v.push(self.m31);
        v.push(self.m02);
        v.push(self.m12);
        v.push(self.m22);
        v.push(self.m32);
        v.push(self.m03);
        v.push(self.m13);
        v.push(self.m23);
        v.push(self.m33);
        v
    }
}

pub open spec fn spec_identity() -> Mat4 {
    Mat4 {
        m00: FP,
        m01: 0,
        m02: 0,
        m03: 0,
        m10: 0,
        m11: FP,
        m12: 0,
        m13: 0,
        m20: 0,
        m21: 0,
        m22: FP,
        m23: 0,
        m30: 0,
        m31: 0,
        m32: 0,
        m33: FP,
    }
}

/// Where an affine transform sends a point: one output coordinate.
pub open spec fn spec_transformed_coord(r0: int, r1: int, r2: int, r3: int, p: Vec3) -> int {
    div_trunc(r0 * p.x + r1 * p.y + r2 * p.z + r3 * FP, FP as int)
}

/// Where an affine transform sends a point.
pub open spec fn spec_transform_point(m: Mat4, p: Vec3) -> Vec3 {
    Vec3 {
        x: spec_transformed_coord(m.m00 as int, m.m01 as int, m.m02 as int, m.m03 as int, p) as i64,
        y: spec_transformed_coord(m.m10 as int, m.m11 as int, m.m12 as int, m.m13 as int, p) as i64,
        z: spec_transformed_coord(m.m20 as int, m.m21 as int, m.m22 as int, m.m23 as int, p) as i64,
    }
}

/// Where an affine transform sends a whole triangle.
pub open spec fn spec_transform_triangle(m: Mat4, t: Triangle) -> Triangle {
    Triangle {
        a: spec_transform_point(m, t.a),
        b: spec_transform_point(m, t.b),
        c: spec_transform_point(m, t.c),
    }
}

/// Applies an affine transform to a point: multiply by the homogeneous
/// column `(p, 1)` and divide out the fixed-point scale.
pub(crate) fn transform_point(m: &Mat4, p: Vec3, Ghost(ml): Ghost<int>, Ghost(mt): Ghost<int>, Ghost(mp): Ghost<int>) -> (r: Vec3)
    requires
        m.lin_bounded(ml),
        m.trans_bounded(mt),
        p.bounded(mp),
        0 <= ml,
        0 <= mt,
        0 <= mp,
        3 * (ml * mp) + mt * FP <= i64::MAX,
    ensures
        r == spec_transform_point(*m, p),
        r.bounded(div_trunc(3 * (ml * mp) + mt * FP, FP as int)),
{
    proof {
        crate::quat::lemma_abs_mul_bound(m.m00 as int, p.x as int, ml, mp);
        crate::quat::lemma_abs_mul_bound(m.m01 as int, p.y as int, ml, mp);
        crate::quat::lemma_abs_mul_bound(m.m02 as int, p.z as int, ml, mp);
        crate::quat::lemma_abs_mul_bound(m.m10 as int, p.x as int, ml, mp);
        crate::quat::lemma_abs_mul_bound(m.m11 as int, p.y as int, ml, mp);
        crate::quat::lemma_abs_mul_bound(m.m12 as int, p.z as int, ml, mp);
        crate::quat::lemma_abs_mul_bound(m.m20 as int, p.x as int, ml, mp);
        crate::quat::lemma_abs_mul_bound(m.m21 as int, p.y as int, ml, mp);
        crate::quat::lemma_abs_mul_bound(m.m22 as int, p.z as int, ml, mp);
        crate::quat::lemma_abs_mul_bound(m.m03 as int, FP as int, mt, FP as int);
        crate::quat::lemma_abs_mul_bound(m.m13 as int, FP as int, mt, FP as int);
        crate::quat::lemma_abs_mul_bound(m.m23 as int, FP as int, mt, FP as int);
        vstd::arithmetic::mul::lemma_mul_nonnegative(ml, mp);
        vstd::arithmetic::mul::lemma_mul_nonnegative(mt, FP as int);
        vstd::arithmetic::div_mod::lemma_div_pos_is_pos(3 * (ml * mp) + mt * FP, FP as int);
        crate::num::lemma_div_trunc_monotone(
            m.m00 * p.x + m.m01 * p.y + m.m02 * p.z + m.m03 * FP,
            FP as int,
            3 * (ml * mp) + mt * FP,
        );
        crate::num::lemma_div_trunc_monotone(
            m.m10 * p.x + m.m11 * p.y + m.m12 * p.z + m.m13 * FP,
            FP as int,
            3 * (ml * mp) + mt * FP,
        );
        crate::num::lemma_div_trunc_monotone(
            m.m20 * p.x + m.m21 * p.y + m.m22 * p.z + m.m23 * FP,
            FP as int,
            3 * (ml * mp) + mt * FP,
        );
    }
    let x = div_fixed(m.m00 * p.x + m.m01 * p.y + m.m02 * p.z + m.m03 * FP, FP);
    let y = div_fixed(m.m10 * p.x + m.m11 * p.y + m.m12 * p.z + m.m13 * FP, FP);
    let z = div_fixed(m.m20 * p.x + m.m21 * p.y + m.m22 * p.z + m.m23 * FP, FP);
    Vec3 { x, y, z }
}

/// Applies an affine transform to all three corners of a triangle.
pub(crate) fn transform_triangle(m: &Mat4, t: &Triangle, Ghost(ml): Ghost<int>, Ghost(mt): Ghost<int>, Ghost(mp): Ghost<int>) -> (r: Triangle)
    requires
        m.lin_bounded(ml),
        m.trans_bounded(mt),
        t.bounded(mp),
        0 <= ml,
        0 <= mt,
        0 <= mp,
        3 * (ml * mp) + mt * FP <= i64::MAX,
    ensures
        r == spec_transform_triangle(*m, *t),
        r.bounded(div_trunc(3 * (ml * mp) + mt * FP, FP as int)),
{
    Triangle {
        a: transform_point(m, t.a, Ghost(ml), Ghost(mt), Ghost(mp)),
        b: transform_point(m, t.b, Ghost(ml), Ghost(mt), Ghost(mp)),
        c: transform_point(m, t.c, Ghost(ml), Ghost(mt), Ghost(mp)),
    }
}

} // verus!
