//! The camera: its own pose plus a fixed perspective projection.
//!
//! The view direction is derived from the pose's orientation (there is
//! no separate look-at target: the two were redundant, and the pose
//! composes with the movement model).  The exposed transform is always
//! `projection x view`, recomputed on every call.  The view matrix is
//! the right-handed look-at frame of the pose: it carries the
//! orientation's forward axis to -Z (the axis the projection looks
//! down), its up axis to +Y, and the eye to the origin, so the camera
//! faces what its forward vector points at.

use crate::mat4::Mat4;
use crate::num::{div_trunc, div_fixed, COORD_MAX, FP};
use crate::physics::Physics;
use crate::quat::{
    lemma_abs_mul_bound,
    lemma_norm_sq_bounded,
    lemma_norm_sq_pos,
    lemma_rot_entries_bounded,
    rm00,
    rm01,
    rm02,
    rm10,
    rm11,
    rm12,
    rm20,
    rm21,
    rm22,
    rot_num,
    Quat,
    QMAX,
};
use crate::vec3::Vec3;
use vstd::prelude::*;

verus! {

/// Near clipping plane distance (1 unit).
pub const NEAR: i64 = 65536;

/// Far clipping plane distance (4096 units).
pub const FAR: i64 = 0x10000000;

/// Smallest accepted field of view (an eighth of a radian).  Below it
/// the focal factor would outgrow [`PERSP_MAX`].
pub const FOV_MIN: i64 = 8192;

/// Largest accepted field of view (a quarter turn): the ceiling of the
/// range on which the truncated tangent series stays accurate.
pub const FOV_MAX: i64 = 102943;

/// Smallest accepted aspect ratio (1/4): keeps the first projection
/// entry within [`PERSP_MAX`].  A wider viewport only shrinks that
/// entry, so no ceiling is needed.
pub const ASPECT_MIN: i64 = 16384;

/// Bound on every entry of a well-formed perspective matrix.
pub const PERSP_MAX: i64 = 0x400000;

/// A camera: its own motion state and its projection.
pub struct Camera {
    pub phys: Physics,
    pub perspective: Mat4,
}

/// Fixed-point tangent of half the field of view, by the cubic and
/// quintic series terms: `t + t^3/3 + 2 t^5/15` at `t = fov/2`.
pub open spec fn spec_tan_half(fov: int) -> int {
    let h = div_trunc(fov, 2);
    let h2 = div_trunc(h * h, FP as int);
    let h4 = div_trunc(h2 * h2, FP as int);
    h + div_trunc(h * h2, 3 * (FP as int)) + div_trunc(2 * (h * h4), 15 * (FP as int))
}

/// Fixed-point cotangent of half the field of view: the focal factor.
pub open spec fn spec_focal(fov: int) -> int {
    div_trunc((FP as int) * (FP as int), spec_tan_half(fov))
}

/// The perspective projection of an aspect ratio and a field of view,
/// with the configured near/far pair.
pub open spec fn spec_perspective(aspect: int, fov: int) -> Mat4 {
    Mat4 {
        m00: div_trunc(spec_focal(fov) * FP, aspect) as i64,
        m01: 0,
        m02: 0,
        m03: 0,
        m10: 0,
        m11: spec_focal(fov) as i64,
        m12: 0,
        m13: 0,
        m20: 0,
        m21: 0,
        m22: (-div_trunc((FAR + NEAR) * (FP as int), (FAR - NEAR) as int)) as i64,
        m23: (-div_trunc(2 * ((FAR as int) * (NEAR as int)), (FAR - NEAR) as int)) as i64,
        m30: 0,
        m31: 0,
        m32: (-(FP as int)) as i64,
        m33: 0,
    }
}

// The view translation numerators: the eye position carried through
// the look-at frame's rows (the rotation's columns, with the first and
// third negated), before the division by the common denominator.
pub open spec fn view_tx_num(q: Quat, pos: Vec3) -> int {
    rm00(q) * pos.x + rm10(q) * pos.y + rm20(q) * pos.z
}

pub open spec fn view_ty_num(q: Quat, pos: Vec3) -> int {
    -(rm01(q) * pos.x + rm11(q) * pos.y + rm21(q) * pos.z)
}

pub open spec fn view_tz_num(q: Quat, pos: Vec3) -> int {
    rm02(q) * pos.x + rm12(q) * pos.y + rm22(q) * pos.z
}

/// The view of the world pose `(q, pos)`: the right-handed look-at
/// frame of the orientation.  Its rows are the rotation's columns with
/// the first and third negated, so the rotated forward axis goes to
/// -Z; the translation carries the eye to the origin.
pub open spec fn spec_view(q: Quat, pos: Vec3) -> Mat4 {
    let n = q.norm_sq();
    Mat4 {
        m00: div_trunc((-rm00(q)) * FP, n) as i64,
        m01: div_trunc((-rm10(q)) * FP, n) as i64,
        m02: div_trunc((-rm20(q)) * FP, n) as i64,
        m03: div_trunc(view_tx_num(q, pos), n) as i64,
        m10: div_trunc(rm01(q) * FP, n) as i64,
        m11: div_trunc(rm11(q) * FP, n) as i64,
        m12: div_trunc(rm21(q) * FP, n) as i64,
        m13: div_trunc(view_ty_num(q, pos), n) as i64,
        m20: div_trunc((-rm02(q)) * FP, n) as i64,
        m21: div_trunc((-rm12(q)) * FP, n) as i64,
        m22: div_trunc((-rm22(q)) * FP, n) as i64,
        m23: div_trunc(view_tz_num(q, pos), n) as i64,
        m30: 0,
        m31: 0,
        m32: 0,
        m33: FP,
    }
}

/// One entry of the product of two fixed-point matrices.
pub open spec fn mul_entry(
    a0: int,
    a1: int,
    a2: int,
    a3: int,
    b0: int,
    b1: int,
    b2: int,
    b3: int,
) -> int {
    div_trunc(a0 * b0 + a1 * b1 + a2 * b2 + a3 * b3, FP as int)
}

/// The product `a x b` of two fixed-point matrices.
pub open spec fn spec_mat_mul(a: Mat4, b: Mat4) -> Mat4 {
    Mat4 {
        m00: mul_entry(a.m00 as int, a.m01 as int, a.m02 as int, a.m03 as int, b.m00 as int, b.m10 as int, b.m20 as int, b.m30 as int) as i64,
        m01: mul_entry(a.m00 as int, a.m01 as int, a.m02 as int, a.m03 as int, b.m01 as int, b.m11 as int, b.m21 as int, b.m31 as int) as i64,
        m02: mul_entry(a.m00 as int, a.m01 as int, a.m02 as int, a.m03 as int, b.m02 as int, b.m12 as int, b.m22 as int, b.m32 as int) as i64,
        m03: mul_entry(a.m00 as int, a.m01 as int, a.m02 as int, a.m03 as int, b.m03 as int, b.m13 as int, b.m23 as int, b.m33 as int) as i64,
        m10: mul_entry(a.m10 as int, a.m11 as int, a.m12 as int, a.m13 as int, b.m00 as int, b.m10 as int, b.m20 as int, b.m30 as int) as i64,
        m11: mul_entry(a.m10 as int, a.m11 as int, a.m12 as int, a.m13 as int, b.m01 as int, b.m11 as int, b.m21 as int, b.m31 as int) as i64,
        m12: mul_entry(a.m10 as int, a.m11 as int, a.m12 as int, a.m13 as int, b.m02 as int, b.m12 as int, b.m22 as int, b.m32 as int) as i64,
        m13: mul_entry(a.m10 as int, a.m11 as int, a.m12 as int, a.m13 as int, b.m03 as int, b.m13 as int, b.m23 as int, b.m33 as int) as i64,
        m20: mul_entry(a.m20 as int, a.m21 as int, a.m22 as int, a.m23 as int, b.m00 as int, b.m10 as int, b.m20 as int, b.m30 as int) as i64,
        m21: mul_entry(a.m20 as int, a.m21 as int, a.m22 as int, a.m23 as int, b.m01 as int, b.m11 as int, b.m21 as int, b.m31 as int) as i64,
        m22: mul_entry(a.m20 as int, a.m21 as int, a.m22 as int, a.m23 as int, b.m02 as int, b.m12 as int, b.m22 as int, b.m32 as int) as i64,
        m23: mul_entry(a.m20 as int, a.m21 as int, a.m22 as int, a.m23 as int, b.m03 as int, b.m13 as int, b.m23 as int, b.m33 as int) as i64,
        m30: mul_entry(a.m30 as int, a.m31 as int, a.m32 as int, a.m33 as int, b.m00 as int, b.m10 as int, b.m20 as int, b.m30 as int) as i64,
        m31: mul_entry(a.m30 as int, a.m31 as int, a.m32 as int, a.m33 as int, b.m01 as int, b.m11 as int, b.m21 as int, b.m31 as int) as i64,
        m32: mul_entry(a.m30 as int, a.m31 as int, a.m32 as int, a.m33 as int, b.m02 as int, b.m12 as int, b.m22 as int, b.m32 as int) as i64,
        m33: mul_entry(a.m30 as int, a.m31 as int, a.m32 as int, a.m33 as int, b.m03 as int, b.m13 as int, b.m23 as int, b.m33 as int) as i64,
    }
}

/// What [`Camera::transformation`] returns: the projection times the
/// view of the current pose.
pub open spec fn spec_camera_transform(c: Camera) -> Mat4 {
    spec_mat_mul(c.perspective, spec_view(c.phys.rot, c.phys.pos))
}

/// Every entry of the matrix lies in `[-m, m]`.
pub open spec fn mat_bounded(a: Mat4, m: int) -> bool {
    &&& a.lin_bounded(m)
    &&& a.trans_bounded(m)
    &&& -m <= a.m30 <= m && -m <= a.m31 <= m && -m <= a.m32 <= m && -m <= a.m33 <= m
}

/// Builds a camera at `(x, y, z)` with identity orientation and the
/// perspective projection of the given aspect ratio and field of view.
pub fn new(x: i64, y: i64, z: i64, aspect: i64, fov: i64) -> (r: Camera)
    requires
        FOV_MIN <= fov <= FOV_MAX,
        ASPECT_MIN <= aspect,
    ensures
        r.phys == crate::physics::spec_at_rest(x, y, z),
        r.perspective == spec_perspective(aspect as int, fov as int),
        r.wf(),
{
    let h: i64 = fov / 2;
    proof {
        vstd::arithmetic::div_mod::lemma_div_pos_is_pos(fov as int, 2);
        vstd::arithmetic::div_mod::lemma_div_is_ordered(fov as int, FOV_MAX as int, 2);
        lemma_abs_mul_bound(h as int, h as int, 51472, 51472);
        vstd::arithmetic::mul::lemma_mul_nonnegative(h as int, h as int);
    }
    let h2: i64 = div_fixed(h * h, FP);
    proof {
        crate::num::lemma_div_trunc_monotone(h * h, FP as int, (51472 * 51472) as int);
        vstd::arithmetic::div_mod::lemma_div_pos_is_pos(h * h, FP as int);
        lemma_abs_mul_bound(h2 as int, h2 as int, 40431, 40431);
        vstd::arithmetic::mul::lemma_mul_nonnegative(h2 as int, h2 as int);
        lemma_abs_mul_bound(h as int, h2 as int, 51472, 40431);
        vstd::arithmetic::mul::lemma_mul_nonnegative(h as int, h2 as int);
    }
    let h4: i64 = div_fixed(h2 * h2, FP);
    proof {
        crate::num::lemma_div_trunc_monotone(h2 * h2, FP as int, (40431 * 40431) as int);
        vstd::arithmetic::div_mod::lemma_div_pos_is_pos(h2 * h2, FP as int);
        lemma_abs_mul_bound(h as int, h4 as int, 51472, 24943);
        vstd::arithmetic::mul::lemma_mul_nonnegative(h as int, h4 as int);
    }
    let t3: i64 = div_fixed(h * h2, 3 * FP);
    let t5: i64 = div_fixed(2 * (h * h4), 15 * FP);
    proof {
        crate::num::lemma_div_trunc_monotone(h * h2, 3 * (FP as int), (51472 * 40431) as int);
        crate::num::lemma_div_trunc_monotone(
            2 * ((h as int) * (h4 as int)),
            15 * (FP as int),
            (2 * (51472 * 24943)) as int,
        );
        vstd::arithmetic::div_mod::lemma_div_pos_is_pos(h * h2, 3 * (FP as int));
        vstd::arithmetic::div_mod::lemma_div_pos_is_pos(
            2 * ((h as int) * (h4 as int)),
            15 * (FP as int),
        );
    }
    let tan: i64 = h + t3 + t5;
    let f: i64 = div_fixed(FP * FP, tan);
    proof {
        vstd::arithmetic::div_mod::lemma_div_pos_is_pos((FP as int) * (FP as int), tan as int);
        lemma_focal_bounded(fov as int, tan as int, f as int);
        lemma_abs_mul_bound(f as int, FP as int, 0x100000, FP as int);
    }
    let m00: i64 = div_fixed(f * FP, aspect);
    proof {
        lemma_persp_aspect_bound(f as int, aspect as int);
    }
    let m22: i64 = -div_fixed((FAR + NEAR) * FP, FAR - NEAR);
    let m23: i64 = -div_fixed(2 * (FAR * NEAR), FAR - NEAR);
    proof {
        crate::num::lemma_div_trunc_le_factor(
            (FAR + NEAR) * (FP as int),
            (FAR - NEAR) as int,
            0x20000,
        );
        crate::num::lemma_div_trunc_le_factor(
            2 * ((FAR as int) * (NEAR as int)),
            (FAR - NEAR) as int,
            0x40000,
        );
    }
    let perspective = Mat4 {
        m00,
        m01: 0,
        m02: 0,
        m03: 0,
        m10: 0,
        m11: f,
        m12: 0,
        m13: 0,
        m20: 0,
        m21: 0,
        m22,
        m23,
        m30: 0,
        m31: 0,
        m32: -FP,
        m33: 0,
    };
    Camera { phys: crate::physics::new(x, y, z), perspective }
}

/// The focal factor of an accepted field of view fits the perspective
/// entry bound.
proof fn lemma_focal_bounded(fov: int, tan: int, f: int)
    requires
        tan >= 4096,
        f == div_trunc((FP as int) * (FP as int), tan),
    ensures
        0 <= f <= 0x100000,
{
    vstd::arithmetic::div_mod::lemma_div_pos_is_pos((FP as int) * (FP as int), tan);
    vstd::arithmetic::div_mod::lemma_div_is_ordered_by_denominator(
        (FP as int) * (FP as int),
        4096,
        tan,
    );
}

/// The first perspective entry fits the perspective entry bound.
proof fn lemma_persp_aspect_bound(f: int, aspect: int)
    requires
        0 <= f <= 0x100000,
        ASPECT_MIN <= aspect,
    ensures
        0 <= div_trunc(f * (FP as int), aspect) <= PERSP_MAX,
{
    vstd::arithmetic::mul::lemma_mul_nonnegative(f, FP as int);
    lemma_abs_mul_bound(f, FP as int, 0x100000, FP as int);
    vstd::arithmetic::div_mod::lemma_div_pos_is_pos(f * (FP as int), aspect);
    vstd::arithmetic::div_mod::lemma_div_is_ordered_by_denominator(
        f * (FP as int),
        ASPECT_MIN as int,
        aspect,
    );
    vstd::arithmetic::div_mod::lemma_div_is_ordered(
        f * (FP as int),
        0x100000 * (FP as int),
        ASPECT_MIN as int,
    );
}

impl Camera {
    /// A well-formed camera: a valid pose and a bounded projection.
    pub open spec fn wf(self) -> bool {
        &&& self.phys.wf()
        &&& mat_bounded(self.perspective, PERSP_MAX as int)
    }

    /// The view matrix of the current pose: the look-at frame facing
    /// the orientation's forward axis.
    pub fn view_matrix(&self) -> (r: Mat4)
        requires
            self.phys.wf(),
            self.phys.pos.bounded(COORD_MAX as int),
        ensures
            r == spec_view(self.phys.rot, self.phys.pos),
            mat_bounded(r, 3 * (COORD_MAX as int)),
    {
        let q = self.phys.rot;
        let n = q.norm_sq_val();
        let rn = rot_num(q);
        proof {
            lemma_norm_sq_pos(q);
            lemma_norm_sq_bounded(q, QMAX as int);
            lemma_rot_entries_bounded(q);
            crate::physics::lemma_rot_fixed_bounds(q);
            lemma_abs_mul_bound(rm00(q), self.phys.pos.x as int, 0x400_0000, COORD_MAX as int);
            lemma_abs_mul_bound(rm10(q), self.phys.pos.y as int, 0x400_0000, COORD_MAX as int);
            lemma_abs_mul_bound(rm20(q), self.phys.pos.z as int, 0x400_0000, COORD_MAX as int);
            lemma_abs_mul_bound(rm01(q), self.phys.pos.x as int, 0x400_0000, COORD_MAX as int);
            lemma_abs_mul_bound(rm11(q), self.phys.pos.y as int, 0x400_0000, COORD_MAX as int);
            lemma_abs_mul_bound(rm21(q), self.phys.pos.z as int, 0x400_0000, COORD_MAX as int);
            lemma_abs_mul_bound(rm02(q), self.phys.pos.x as int, 0x400_0000, COORD_MAX as int);
            lemma_abs_mul_bound(rm12(q), self.phys.pos.y as int, 0x400_0000, COORD_MAX as int);
            lemma_abs_mul_bound(rm22(q), self.phys.pos.z as int, 0x400_0000, COORD_MAX as int);
            lemma_view_trans_bounds(q, self.phys.pos);
        }
        Mat4 {
            m00: div_fixed(-(rn.m00 * FP), n),
            m01: div_fixed(-(rn.m10 * FP), n),
            m02: div_fixed(-(rn.m20 * FP), n),
            m03: div_fixed(rn.m00 * self.phys.pos.x + rn.m10 * self.phys.pos.y + rn.m20
                * self.phys.pos.z, n),
            m10: div_fixed(rn.m01 * FP, n),
            m11: div_fixed(rn.m11 * FP, n),
            m12: div_fixed(rn.m21 * FP, n),
            m13: div_fixed(-(rn.m01 * self.phys.pos.x + rn.m11 * self.phys.pos.y + rn.m21
                * self.phys.pos.z), n),
            m20: div_fixed(-(rn.m02 * FP), n),
            m21: div_fixed(-(rn.m12 * FP), n),
            m22: div_fixed(-(rn.m22 * FP), n),
            m23: div_fixed(rn.m02 * self.phys.pos.x + rn.m12 * self.phys.pos.y + rn.m22
                * self.phys.pos.z, n),
            m30: 0,
            m31: 0,
            m32: 0,
            m33: FP,
        }
    }

    /// The camera's exposed transform: `projection x view`, recomputed
    /// on every call from the current pose.
    pub fn transformation(&self) -> (r: Mat4)
        requires
            self.wf(),
            self.phys.pos.bounded(COORD_MAX as int),
        ensures
            r == spec_camera_transform(*self),
    {
        let v = self.view_matrix();
        proof {
            lemma_mul_products_bounded(self.perspective, v);
        }
        let a = self.perspective;
        Mat4 {
            m00: div_fixed(a.m00 * v.m00 + a.m01 * v.m10 + a.m02 * v.m20 + a.m03 * v.m30, FP),
            m01: div_fixed(a.m00 * v.m01 + a.m01 * v.m11 + a.m02 * v.m21 + a.m03 * v.m31, FP),
            m02: div_fixed(a.m00 * v.m02 + a.m01 * v.m12 + a.m02 * v.m22 + a.m03 * v.m32, FP),
            m03: div_fixed(a.m00 * v.m03 + a.m01 * v.m13 + a.m02 * v.m23 + a.m03 * v.m33, FP),
            m10: div_fixed(a.m10 * v.m00 + a.m11 * v.m10 + a.m12 * v.m20 + a.m13 * v.m30, FP),
            m11: div_fixed(a.m10 * v.m01 + a.m11 * v.m11 + a.m12 * v.m21 + a.m13 * v.m31, FP),
            m12: div_fixed(a.m10 * v.m02 + a.m11 * v.m12 + a.m12 * v.m22 + a.m13 * v.m32, FP),
            m13: div_fixed(a.m10 * v.m03 + a.m11 * v.m13 + a.m12 * v.m23 + a.m13 * v.m33, FP),
            m20: div_fixed(a.m20 * v.m00 + a.m21 * v.m10 + a.m22 * v.m20 + a.m23 * v.m30, FP),
            m21: div_fixed(a.m20 * v.m01 + a.m21 * v.m11 + a.m22 * v.m21 + a.m23 * v.m31, FP),
            m22: div_fixed(a.m20 * v.m02 + a.m21 * v.m12 + a.m22 * v.m22 + a.m23 * v.m32, FP),
            m23: div_fixed(a.m20 * v.m03 + a.m21 * v.m13 + a.m22 * v.m23 + a.m23 * v.m33, FP),
            m30: div_fixed(a.m30 * v.m00 + a.m31 * v.m10 + a.m32 * v.m20 + a.m33 * v.m30, FP),
            m31: div_fixed(a.m30 * v.m01 + a.m31 * v.m11 + a.m32 * v.m21 + a.m33 * v.m31, FP),
            m32: div_fixed(a.m30 * v.m02 + a.m31 * v.m12 + a.m32 * v.m22 + a.m33 * v.m32, FP),
            m33: div_fixed(a.m30 * v.m03 + a.m31 * v.m13 + a.m32 * v.m23 + a.m33 * v.m33, FP),
        }
    }
}

/// The view translation numerators are bounded by `3 COORD_MAX` times
/// the denominator.
proof fn lemma_view_trans_bounds(q: Quat, pos: Vec3)
    requires
        !q.is_zero(),
        pos.bounded(COORD_MAX as int),
    ensures
        -(3 * (COORD_MAX as int) * q.norm_sq()) <= rm00(q) * pos.x + rm10(q) * pos.y + rm20(q)
            * pos.z <= 3 * (COORD_MAX as int) * q.norm_sq(),
        -(3 * (COORD_MAX as int) * q.norm_sq()) <= rm01(q) * pos.x + rm11(q) * pos.y + rm21(q)
            * pos.z <= 3 * (COORD_MAX as int) * q.norm_sq(),
        -(3 * (COORD_MAX as int) * q.norm_sq()) <= rm02(q) * pos.x + rm12(q) * pos.y + rm22(q)
            * pos.z <= 3 * (COORD_MAX as int) * q.norm_sq(),
        -(3 * (COORD_MAX as int)) <= div_trunc(
            rm00(q) * pos.x + rm10(q) * pos.y + rm20(q) * pos.z,
            q.norm_sq(),
        ) <= 3 * (COORD_MAX as int),
        -(3 * (COORD_MAX as int)) <= div_trunc(
            -(rm01(q) * pos.x + rm11(q) * pos.y + rm21(q) * pos.z),
            q.norm_sq(),
        ) <= 3 * (COORD_MAX as int),
        -(3 * (COORD_MAX as int)) <= div_trunc(
            rm02(q) * pos.x + rm12(q) * pos.y + rm22(q) * pos.z,
            q.norm_sq(),
        ) <= 3 * (COORD_MAX as int),
{
    let n = q.norm_sq();
    let c = COORD_MAX as int;
    lemma_norm_sq_pos(q);
    lemma_rot_entries_bounded(q);
    lemma_abs_mul_bound(rm00(q), pos.x as int, n, c);
    lemma_abs_mul_bound(rm10(q), pos.y as int, n, c);
    lemma_abs_mul_bound(rm20(q), pos.z as int, n, c);
    lemma_abs_mul_bound(rm01(q), pos.x as int, n, c);
    lemma_abs_mul_bound(rm11(q), pos.y as int, n, c);
    lemma_abs_mul_bound(rm21(q), pos.z as int, n, c);
    lemma_abs_mul_bound(rm02(q), pos.x as int, n, c);
    lemma_abs_mul_bound(rm12(q), pos.y as int, n, c);
    lemma_abs_mul_bound(rm22(q), pos.z as int, n, c);
    vstd::arithmetic::mul::lemma_mul_is_commutative(3 * c, n);
    vstd::arithmetic::mul::lemma_mul_is_distributive_add(n, 2 * c, c);
    vstd::arithmetic::mul::lemma_mul_is_distributive_add(n, c, c);
    crate::num::lemma_div_trunc_le_factor(
        rm00(q) * pos.x + rm10(q) * pos.y + rm20(q) * pos.z,
        n,
        3 * c,
    );
    crate::num::lemma_div_trunc_le_factor(
        -(rm01(q) * pos.x + rm11(q) * pos.y + rm21(q) * pos.z),
        n,
        3 * c,
    );
    crate::num::lemma_div_trunc_le_factor(
        rm02(q) * pos.x + rm12(q) * pos.y + rm22(q) * pos.z,
        n,
        3 * c,
    );
}

/// Every product in the projection-times-view expansion fits `i64`.
proof fn lemma_mul_products_bounded(a: Mat4, b: Mat4)
    requires
        mat_bounded(a, PERSP_MAX as int),
        mat_bounded(b, 3 * (COORD_MAX as int)),
    ensures
        forall|x: int, y: int|
            -(PERSP_MAX as int) <= x <= PERSP_MAX && -(3 * (COORD_MAX as int)) <= y <= 3 * (
            COORD_MAX as int) ==> -0xC0_0000_0000_0000 <= #[trigger] (x * y)
                <= 0xC0_0000_0000_0000,
{
    assert forall|x: int, y: int|
        -(PERSP_MAX as int) <= x <= PERSP_MAX && -(3 * (COORD_MAX as int)) <= y <= 3 * (
        COORD_MAX as int) implies -0xC0_0000_0000_0000 <= #[trigger] (x * y)
        <= 0xC0_0000_0000_0000 by {
        lemma_abs_mul_bound(x, y, PERSP_MAX as int, 3 * (COORD_MAX as int));
    };
}

/// Called twice with the same pose and projection, the camera transform
/// is the same matrix, bit for bit: it is a pure function of the pose.
pub proof fn lemma_transformation_deterministic(c1: Camera, c2: Camera)
    requires
        c1.perspective == c2.perspective,
        c1.phys.rot == c2.phys.rot,
        c1.phys.pos == c2.phys.pos,
    ensures
        spec_camera_transform(c1) == spec_camera_transform(c2),
{
}

/// Moving the camera leaves the whole non-translation part of the
/// view-projection unchanged: only the translation column reads the
/// position.
pub proof fn lemma_projection_block_position_independent(c1: Camera, c2: Camera)
    requires
        c1.perspective == c2.perspective,
        c1.phys.rot == c2.phys.rot,
    ensures
        spec_camera_transform(c1).m00 == spec_camera_transform(c2).m00,
        spec_camera_transform(c1).m01 == spec_camera_transform(c2).m01,
        spec_camera_transform(c1).m02 == spec_camera_transform(c2).m02,
        spec_camera_transform(c1).m10 == spec_camera_transform(c2).m10,
        spec_camera_transform(c1).m11 == spec_camera_transform(c2).m11,
        spec_camera_transform(c1).m12 == spec_camera_transform(c2).m12,
        spec_camera_transform(c1).m20 == spec_camera_transform(c2).m20,
        spec_camera_transform(c1).m21 == spec_camera_transform(c2).m21,
        spec_camera_transform(c1).m22 == spec_camera_transform(c2).m22,
        spec_camera_transform(c1).m30 == spec_camera_transform(c2).m30,
        spec_camera_transform(c1).m31 == spec_camera_transform(c2).m31,
        spec_camera_transform(c1).m32 == spec_camera_transform(c2).m32,
{
}

/// The view translation is linear in the position: displacing the
/// camera by `d` changes each translation numerator by exactly the
/// numerator of `d` alone, whatever the orientation.
pub proof fn lemma_view_translation_displacement(q: Quat, p1: Vec3, p2: Vec3, d: Vec3)
    requires
        d.x == p2.x - p1.x,
        d.y == p2.y - p1.y,
        d.z == p2.z - p1.z,
    ensures
        view_tx_num(q, p2) == view_tx_num(q, p1) + view_tx_num(q, d),
        view_ty_num(q, p2) == view_ty_num(q, p1) + view_ty_num(q, d),
        view_tz_num(q, p2) == view_tz_num(q, p1) + view_tz_num(q, d),
{
    vstd::arithmetic::mul::lemma_mul_is_distributive_add(rm00(q), p1.x as int, d.x as int);
    vstd::arithmetic::mul::lemma_mul_is_distributive_add(rm10(q), p1.y as int, d.y as int);
    vstd::arithmetic::mul::lemma_mul_is_distributive_add(rm20(q), p1.z as int, d.z as int);
    vstd::arithmetic::mul::lemma_mul_is_distributive_add(rm01(q), p1.x as int, d.x as int);
    vstd::arithmetic::mul::lemma_mul_is_distributive_add(rm11(q), p1.y as int, d.y as int);
    vstd::arithmetic::mul::lemma_mul_is_distributive_add(rm21(q), p1.z as int, d.z as int);
    vstd::arithmetic::mul::lemma_mul_is_distributive_add(rm02(q), p1.x as int, d.x as int);
    vstd::arithmetic::mul::lemma_mul_is_distributive_add(rm12(q), p1.y as int, d.y as int);
    vstd::arithmetic::mul::lemma_mul_is_distributive_add(rm22(q), p1.z as int, d.z as int);
}

/// With identity orientation the view matrix is exact: the unit-sized
/// look-at block `diag(-1, 1, -1)` and the position carried through
/// it, so a displacement of the camera shifts the view translation by
/// exactly that displacement, carried into the view frame.
pub proof fn lemma_view_identity_orientation(pos: Vec3)
    requires
        pos.bounded(COORD_MAX as int),
    ensures
        spec_view(Quat { w: 1i64, x: 0i64, y: 0i64, z: 0i64 }, pos).m03 == pos.x,
        spec_view(Quat { w: 1i64, x: 0i64, y: 0i64, z: 0i64 }, pos).m13 == -pos.y,
        spec_view(Quat { w: 1i64, x: 0i64, y: 0i64, z: 0i64 }, pos).m23 == pos.z,
        spec_view(Quat { w: 1i64, x: 0i64, y: 0i64, z: 0i64 }, pos).m00 == -FP,
        spec_view(Quat { w: 1i64, x: 0i64, y: 0i64, z: 0i64 }, pos).m11 == FP,
        spec_view(Quat { w: 1i64, x: 0i64, y: 0i64, z: 0i64 }, pos).m22 == -FP,
        spec_view(Quat { w: 1i64, x: 0i64, y: 0i64, z: 0i64 }, pos).m01 == 0,
        spec_view(Quat { w: 1i64, x: 0i64, y: 0i64, z: 0i64 }, pos).m10 == 0,
{
    let q = Quat { w: 1i64, x: 0i64, y: 0i64, z: 0i64 };
    assert(q.norm_sq() == 1);
    assert(rm00(q) == 1);
    vstd::arithmetic::mul::lemma_mul_basics(pos.x as int);
    vstd::arithmetic::mul::lemma_mul_basics(pos.y as int);
    vstd::arithmetic::mul::lemma_mul_basics(pos.z as int);
    crate::num::lemma_div_trunc_exact(FP as int, 1);
    crate::num::lemma_div_trunc_exact(-(FP as int), 1);
    crate::num::lemma_div_trunc_exact(0, 1);
    crate::num::lemma_div_trunc_exact(pos.x as int, 1);
    crate::num::lemma_div_trunc_exact(-(pos.y as int), 1);
    crate::num::lemma_div_trunc_exact(pos.z as int, 1);
    assert(view_tx_num(q, pos) == pos.x as int);
    assert(view_ty_num(q, pos) == -(pos.y as int));
    assert(view_tz_num(q, pos) == pos.z as int);
}

} // verus!
