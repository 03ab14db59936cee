//! The motion state of one rigid entity.
//!
//! Position and velocity are fixed-point vectors; the orientation is an
//! integer quaternion ([`crate::quat`]), so repeated small rotation
//! steps can never drift it away from an exact rotation.  Time is
//! counted in integer ticks, which makes the position update exactly
//! additive over consecutive steps.

use crate::mat4::Mat4;
use crate::num::{div_trunc, div_fixed, COORD_MAX, DT_MAX, FP};
use crate::quat::{
    lemma_abs_mul_bound,
    lemma_basis_orthogonal,
    lemma_basis_unit,
    lemma_norm_sq_pos,
    lemma_rot_entries_bounded,
    rm00,
    rm01,
    rm02,
    rm10,
    rm11,
    rm12,
    rm20,
    rm21,
    rm22,
    rot_num,
    spec_renormalize,
    Quat,
    QMAX,
};
use crate::vec3::Vec3;
use vstd::prelude::*;

verus! {

/// Scalar part of a rotation step quaternion: an angular velocity `a`
/// applied for `t` ticks turns by about `a * t / ANG_ONE` half-radians.
pub const ANG_ONE: i64 = 131072;

/// Bound kept on each rotation step component `ang * t`.
pub const ANG_STEP_MAX: i64 = 0x1000_0000;

/// Position, linear velocity, orientation and angular velocity of one
/// entity.  Advanced once per frame by [`Physics::move_`].
#[derive(Clone, Copy, Debug, PartialEq, Eq, Structural)]
pub struct Physics {
    pub pos: Vec3,
    pub vel: Vec3,
    pub rot: Quat,
    pub ang: Vec3,
}

/// A fresh entity: at the given position, at rest, identity rotation.
pub open spec fn spec_at_rest(x: i64, y: i64, z: i64) -> Physics {
    Physics {
        pos: Vec3 { x, y, z },
        vel: Vec3 { x: 0, y: 0, z: 0 },
        rot: Quat { w: 1, x: 0, y: 0, z: 0 },
        ang: Vec3 { x: 0, y: 0, z: 0 },
    }
}

/// A fresh entity: given position, at rest, identity orientation.
pub fn new(x: i64, y: i64, z: i64) -> (r: Physics)
    ensures
        r == spec_at_rest(x, y, z),
        r.wf(),
{
    Physics {
        pos: Vec3 { x, y, z },
        vel: Vec3 { x: 0, y: 0, z: 0 },
        rot: Quat { w: 1, x: 0, y: 0, z: 0 },
        ang: Vec3 { x: 0, y: 0, z: 0 },
    }
}

/// The quaternion of the rotation generated by angular velocity `ang`
/// over `t` ticks (the small-angle step `(1, ang * t / 2)`, held in
/// integers with `ANG_ONE` standing for 1).
pub open spec fn spec_step_quat(ang: Vec3, t: int) -> Quat {
    Quat { w: ANG_ONE, x: (ang.x * t) as i64, y: (ang.y * t) as i64, z: (ang.z * t) as i64 }
}

/// The Hamilton product, as a value.
pub open spec fn spec_composed(a: Quat, b: Quat) -> Quat {
    Quat {
        w: (a.w * b.w - a.x * b.x - a.y * b.y - a.z * b.z) as i64,
        x: (a.w * b.x + a.x * b.w + a.y * b.z - a.z * b.y) as i64,
        y: (a.w * b.y - a.x * b.z + a.y * b.w + a.z * b.x) as i64,
        z: (a.w * b.z + a.x * b.y - a.y * b.x + a.z * b.w) as i64,
    }
}

/// The orientation after one step.  An identity step — the vector part
/// of `ang * t` is zero, as at `t == 0` or with no angular velocity —
/// leaves the orientation untouched, bit for bit.  Otherwise the
/// orientation is composed with the step quaternion and renormalized.
/// A product that cancelled to zero would name no rotation, so the old
/// orientation is kept then (for genuine rotation steps the product of
/// nonzero quaternions is never zero).
pub open spec fn spec_stepped_rot(q: Quat, ang: Vec3, t: int) -> Quat {
    let step = spec_step_quat(ang, t);
    if step.x == 0 && step.y == 0 && step.z == 0 {
        q
    } else {
        let c = spec_composed(q, step);
        if c.is_zero() {
            q
        } else {
            spec_renormalize(c)
        }
    }
}

/// The whole state one step later: position moved by `vel * t`,
/// orientation turned by the step of `ang * t`, rates unchanged.
pub open spec fn spec_moved(p: Physics, t: int) -> Physics {
    Physics {
        pos: Vec3 {
            x: (p.pos.x + p.vel.x * t) as i64,
            y: (p.pos.y + p.vel.y * t) as i64,
            z: (p.pos.z + p.vel.z * t) as i64,
        },
        vel: p.vel,
        rot: spec_stepped_rot(p.rot, p.ang, t),
        ang: p.ang,
    }
}

/// One fixed-point rotation matrix entry: numerator over `norm_sq`.
pub open spec fn spec_rot_fixed(q: Quat, numer: int) -> int {
    div_trunc(numer * FP, q.norm_sq())
}

/// The rotation of `q` as a fixed-point matrix.
pub open spec fn spec_mat_rotation(q: Quat) -> Mat4 {
    Mat4 {
        m00: spec_rot_fixed(q, rm00(q)) as i64,
        m01: spec_rot_fixed(q, rm01(q)) as i64,
        m02: spec_rot_fixed(q, rm02(q)) as i64,
        m03: 0,
        m10: spec_rot_fixed(q, rm10(q)) as i64,
        m11: spec_rot_fixed(q, rm11(q)) as i64,
        m12: spec_rot_fixed(q, rm12(q)) as i64,
        m13: 0,
        m20: spec_rot_fixed(q, rm20(q)) as i64,
        m21: spec_rot_fixed(q, rm21(q)) as i64,
        m22: spec_rot_fixed(q, rm22(q)) as i64,
        m23: 0,
        m30: 0,
        m31: 0,
        m32: 0,
        m33: FP,
    }
}

/// The translation by `pos` as a fixed-point matrix.
pub open spec fn spec_mat_translation(pos: Vec3) -> Mat4 {
    Mat4 {
        m00: FP,
        m01: 0,
        m02: 0,
        m03: pos.x,
        m10: 0,
        m11: FP,
        m12: 0,
        m13: pos.y,
        m20: 0,
        m21: 0,
        m22: FP,
        m23: pos.z,
        m30: 0,
        m31: 0,
        m32: 0,
        m33: FP,
    }
}

/// The model transform of a pose: translation applied after rotation.
/// Because the translation matrix is the identity with a translation
/// column, the exact product `translation x rotation` is the rotation
/// matrix with `pos` as its translation column.
pub open spec fn spec_mat_model(p: Physics) -> Mat4 {
    Mat4 {
        m03: p.pos.x,
        m13: p.pos.y,
        m23: p.pos.z,
        ..spec_mat_rotation(p.rot)
    }
}

impl Physics {
    /// A well-formed state: the orientation names a rotation and is
    /// within its stored bound.
    pub open spec fn wf(self) -> bool {
        self.rot.wf()
    }

    /// Advance by `t` ticks: `pos += vel * t`, and the orientation is
    /// composed with the rotation generated by `ang * t`.  With `t == 0`
    /// (or a zero angular velocity) the step is the identity rotation
    /// and the whole state is unchanged, bit for bit.
    pub fn move_(&mut self, t: i64)
        requires
            old(self).wf(),
            0 <= t <= DT_MAX,
            old(self).vel.bounded(COORD_MAX as int),
            -COORD_MAX <= old(self).pos.x + old(self).vel.x * t <= COORD_MAX,
            -COORD_MAX <= old(self).pos.y + old(self).vel.y * t <= COORD_MAX,
            -COORD_MAX <= old(self).pos.z + old(self).vel.z * t <= COORD_MAX,
            -ANG_STEP_MAX <= old(self).ang.x * t <= ANG_STEP_MAX,
            -ANG_STEP_MAX <= old(self).ang.y * t <= ANG_STEP_MAX,
            -ANG_STEP_MAX <= old(self).ang.z * t <= ANG_STEP_MAX,
        ensures
            *final(self) == spec_moved(*old(self), t as int),
            final(self).wf(),
            final(self).pos.bounded(COORD_MAX as int),
    {
        proof {
            lemma_abs_mul_bound(self.vel.x as int, t as int, COORD_MAX as int, DT_MAX as int);
            lemma_abs_mul_bound(self.vel.y as int, t as int, COORD_MAX as int, DT_MAX as int);
            lemma_abs_mul_bound(self.vel.z as int, t as int, COORD_MAX as int, DT_MAX as int);
        }
        self.pos = Vec3 {
            x: self.pos.x + self.vel.x * t,
            y: self.pos.y + self.vel.y * t,
            z: self.pos.z + self.vel.z * t,
        };
        let step = Quat { w: ANG_ONE, x: self.ang.x * t, y: self.ang.y * t, z: self.ang.z * t };
        if step.x != 0 || step.y != 0 || step.z != 0 {
            let c = self.rot.compose(step);
            if !c.is_zero_val() {
                self.rot = c.renormalize();
            }
        }
    }

    /// The world-space images of the local right, up and forward axes:
    /// the columns of the rotation matrix, in fixed point.  The exact
    /// rational columns are mutually orthogonal unit vectors
    /// ([`lemma_basis_orthonormal`]); what is returned is each column
    /// numerator scaled by `FP` and divided by the denominator.
    pub fn direction(&self) -> (r: (Vec3, Vec3, Vec3))
        requires
            self.wf(),
        ensures
            r.0 == spec_direction_x(self.rot),
            r.1 == spec_direction_y(self.rot),
            r.2 == spec_direction_z(self.rot),
    {
        let n = self.rot.norm_sq_val();
        let rn = rot_num(self.rot);
        proof {
            lemma_norm_sq_pos(self.rot);
            crate::quat::lemma_norm_sq_bounded(self.rot, QMAX as int);
            lemma_rot_entries_bounded(self.rot);
            lemma_rot_fixed_bounds(self.rot);
        }
        let x = Vec3 {
            x: div_fixed(rn.m00 * FP, n),
            y: div_fixed(rn.m10 * FP, n),
            z: div_fixed(rn.m20 * FP, n),
        };
        let y = Vec3 {
            x: div_fixed(rn.m01 * FP, n),
            y: div_fixed(rn.m11 * FP, n),
            z: div_fixed(rn.m21 * FP, n),
        };
        let z = Vec3 {
            x: div_fixed(rn.m02 * FP, n),
            y: div_fixed(rn.m12 * FP, n),
            z: div_fixed(rn.m22 * FP, n),
        };
        (x, y, z)
    }

    /// The orientation as a fixed-point matrix.
    pub fn mat_rotation(&self) -> (r: Mat4)
        requires
            self.wf(),
        ensures
            r == spec_mat_rotation(self.rot),
            r.lin_bounded(FP as int),
            r.affine(),
    {
        let n = self.rot.norm_sq_val();
        let rn = rot_num(self.rot);
        proof {
            lemma_norm_sq_pos(self.rot);
            crate::quat::lemma_norm_sq_bounded(self.rot, QMAX as int);
            lemma_rot_entries_bounded(self.rot);
            lemma_rot_fixed_bounds(self.rot);
        }
        Mat4 {
            m00: div_fixed(rn.m00 * FP, n),
            m01: div_fixed(rn.m01 * FP, n),
            m02: div_fixed(rn.m02 * FP, n),
            m03: 0,
            m10: div_fixed(rn.m10 * FP, n),
            m11: div_fixed(rn.m11 * FP, n),
            m12: div_fixed(rn.m12 * FP, n),
            m13: 0,
            m20: div_fixed(rn.m20 * FP, n),
            m21: div_fixed(rn.m21 * FP, n),
            m22: div_fixed(rn.m22 * FP, n),
            m23: 0,
            m30: 0,
            m31: 0,
            m32: 0,
            m33: FP,
        }
    }

    /// The translation to `pos` as a fixed-point matrix.
    pub fn mat_translation(&self) -> (r: Mat4)
        ensures
            r == spec_mat_translation(self.pos),
    {
        Mat4 {
            m00: FP,
            m01: 0,
            m02: 0,
            m03: self.pos.x,
            m10: 0,
            m11: FP,
            m12: 0,
            m13: self.pos.y,
            m20: 0,
            m21: 0,
            m22: FP,
            m23: self.pos.z,
            m30: 0,
            m31: 0,
            m32: 0,
            m33: FP,
        }
    }

    /// The model transform: translation times rotation (scale is the
    /// renderer's concern, not the physics state's).  The product is
    /// exact, so it is assembled directly: the rotation block with the
    /// position as translation column.
    pub fn mat_model(&self) -> (r: Mat4)
        requires
            self.wf(),
        ensures
            r == spec_mat_model(*self),
            r.lin_bounded(FP as int),
            r.trans_bounded(
                crate::quat::abs_int(self.pos.x as int) + crate::quat::abs_int(self.pos.y as int)
                    + crate::quat::abs_int(self.pos.z as int),
            ),
            r.affine(),
    {
        let rot = self.mat_rotation();
        Mat4 { m03: self.pos.x, m13: self.pos.y, m23: self.pos.z, ..rot }
    }
}

/// The first basis vector (rotated local x), fixed point.
pub open spec fn spec_direction_x(q: Quat) -> Vec3 {
    Vec3 {
        x: spec_rot_fixed(q, rm00(q)) as i64,
        y: spec_rot_fixed(q, rm10(q)) as i64,
        z: spec_rot_fixed(q, rm20(q)) as i64,
    }
}

/// The second basis vector (rotated local y), fixed point.
pub open spec fn spec_direction_y(q: Quat) -> Vec3 {
    Vec3 {
        x: spec_rot_fixed(q, rm01(q)) as i64,
        y: spec_rot_fixed(q, rm11(q)) as i64,
        z: spec_rot_fixed(q, rm21(q)) as i64,
    }
}

/// The third basis vector (rotated local z), fixed point.
pub open spec fn spec_direction_z(q: Quat) -> Vec3 {
    Vec3 {
        x: spec_rot_fixed(q, rm02(q)) as i64,
        y: spec_rot_fixed(q, rm12(q)) as i64,
        z: spec_rot_fixed(q, rm22(q)) as i64,
    }
}

/// Every fixed rotation entry lies in `[-FP, FP]`: the rational entries
/// lie in `[-1, 1]`.  (Also bounds the numerators scaled by `FP`.)
pub proof fn lemma_rot_fixed_bounds(q: Quat)
    requires
        !q.is_zero(),
    ensures
        -FP <= spec_rot_fixed(q, rm00(q)) <= FP,
        -FP <= spec_rot_fixed(q, rm01(q)) <= FP,
        -FP <= spec_rot_fixed(q, rm02(q)) <= FP,
        -FP <= spec_rot_fixed(q, rm10(q)) <= FP,
        -FP <= spec_rot_fixed(q, rm11(q)) <= FP,
        -FP <= spec_rot_fixed(q, rm12(q)) <= FP,
        -FP <= spec_rot_fixed(q, rm20(q)) <= FP,
        -FP <= spec_rot_fixed(q, rm21(q)) <= FP,
        -FP <= spec_rot_fixed(q, rm22(q)) <= FP,
        -(q.norm_sq() * FP) <= rm00(q) * FP <= q.norm_sq() * FP,
        -(q.norm_sq() * FP) <= rm01(q) * FP <= q.norm_sq() * FP,
        -(q.norm_sq() * FP) <= rm02(q) * FP <= q.norm_sq() * FP,
        -(q.norm_sq() * FP) <= rm10(q) * FP <= q.norm_sq() * FP,
        -(q.norm_sq() * FP) <= rm11(q) * FP <= q.norm_sq() * FP,
        -(q.norm_sq() * FP) <= rm12(q) * FP <= q.norm_sq() * FP,
        -(q.norm_sq() * FP) <= rm20(q) * FP <= q.norm_sq() * FP,
        -(q.norm_sq() * FP) <= rm21(q) * FP <= q.norm_sq() * FP,
        -(q.norm_sq() * FP) <= rm22(q) * FP <= q.norm_sq() * FP,
{
    let n = q.norm_sq();
    lemma_norm_sq_pos(q);
    lemma_rot_entries_bounded(q);
    lemma_abs_mul_bound(rm00(q), FP as int, n, FP as int);
    lemma_abs_mul_bound(rm01(q), FP as int, n, FP as int);
    lemma_abs_mul_bound(rm02(q), FP as int, n, FP as int);
    lemma_abs_mul_bound(rm10(q), FP as int, n, FP as int);
    lemma_abs_mul_bound(rm11(q), FP as int, n, FP as int);
    lemma_abs_mul_bound(rm12(q), FP as int, n, FP as int);
    lemma_abs_mul_bound(rm20(q), FP as int, n, FP as int);
    lemma_abs_mul_bound(rm21(q), FP as int, n, FP as int);
    lemma_abs_mul_bound(rm22(q), FP as int, n, FP as int);
    crate::num::lemma_div_trunc_le_factor(rm00(q) * FP, n, FP as int);
    crate::num::lemma_div_trunc_le_factor(rm01(q) * FP, n, FP as int);
    crate::num::lemma_div_trunc_le_factor(rm02(q) * FP, n, FP as int);
    crate::num::lemma_div_trunc_le_factor(rm10(q) * FP, n, FP as int);
    crate::num::lemma_div_trunc_le_factor(rm11(q) * FP, n, FP as int);
    crate::num::lemma_div_trunc_le_factor(rm12(q) * FP, n, FP as int);
    crate::num::lemma_div_trunc_le_factor(rm20(q) * FP, n, FP as int);
    crate::num::lemma_div_trunc_le_factor(rm21(q) * FP, n, FP as int);
    crate::num::lemma_div_trunc_le_factor(rm22(q) * FP, n, FP as int);
}

/// Advancing by `t1` ticks and then by `t2` moves the position exactly
/// as far as advancing once by `t1 + t2`, for constant velocity.
pub proof fn lemma_move_position_additive(p: Physics, t1: int, t2: int)
    requires
        0 <= t1,
        0 <= t2,
        p.vel.bounded(COORD_MAX as int),
        -COORD_MAX <= p.pos.x + p.vel.x * (t1 + t2) <= COORD_MAX,
        -COORD_MAX <= p.pos.y + p.vel.y * (t1 + t2) <= COORD_MAX,
        -COORD_MAX <= p.pos.z + p.vel.z * (t1 + t2) <= COORD_MAX,
        -COORD_MAX <= p.pos.x <= COORD_MAX,
        -COORD_MAX <= p.pos.y <= COORD_MAX,
        -COORD_MAX <= p.pos.z <= COORD_MAX,
    ensures
        spec_moved(spec_moved(p, t1), t2).pos == spec_moved(p, t1 + t2).pos,
{
    lemma_axis_additive(p.pos.x as int, p.vel.x as int, t1, t2);
    lemma_axis_additive(p.pos.y as int, p.vel.y as int, t1, t2);
    lemma_axis_additive(p.pos.z as int, p.vel.z as int, t1, t2);
}

/// One axis of the additivity law: the intermediate position stays in
/// range, and the two velocity contributions add up exactly.
proof fn lemma_axis_additive(s: int, v: int, t1: int, t2: int)
    requires
        0 <= t1,
        0 <= t2,
        -COORD_MAX <= s <= COORD_MAX,
        -COORD_MAX <= s + v * (t1 + t2) <= COORD_MAX,
    ensures
        v * t1 + v * t2 == v * (t1 + t2),
        -COORD_MAX <= s + v * t1 <= COORD_MAX,
        (s + v * t1) + v * t2 == s + v * (t1 + t2),
{
    vstd::arithmetic::mul::lemma_mul_is_distributive_add(v, t1, t2);
    if v >= 0 {
        vstd::arithmetic::mul::lemma_mul_nonnegative(v, t1);
        vstd::arithmetic::mul::lemma_mul_nonnegative(v, t2);
    } else {
        vstd::arithmetic::mul::lemma_mul_unary_negation(v, t1);
        vstd::arithmetic::mul::lemma_mul_unary_negation(v, t2);
        vstd::arithmetic::mul::lemma_mul_nonnegative(-v, t1);
        vstd::arithmetic::mul::lemma_mul_nonnegative(-v, t2);
    }
}

/// The basis vectors of any orientation are exactly orthonormal in the
/// rational model: the numerator columns of [`Physics::direction`] have
/// pairwise dot product zero, and each has squared length
/// `norm_sq(q)^2` — a unit vector once divided by the denominator
/// `norm_sq(q)`.  However many steps composed the orientation, this
/// holds exactly: rotation composition cannot drift.
pub proof fn lemma_basis_orthonormal(p: Physics)
    ensures
        rm00(p.rot) * rm01(p.rot) + rm10(p.rot) * rm11(p.rot) + rm20(p.rot) * rm21(p.rot) == 0,
        rm00(p.rot) * rm02(p.rot) + rm10(p.rot) * rm12(p.rot) + rm20(p.rot) * rm22(p.rot) == 0,
        rm01(p.rot) * rm02(p.rot) + rm11(p.rot) * rm12(p.rot) + rm21(p.rot) * rm22(p.rot) == 0,
        rm00(p.rot) * rm00(p.rot) + rm10(p.rot) * rm10(p.rot) + rm20(p.rot) * rm20(p.rot)
            == p.rot.norm_sq() * p.rot.norm_sq(),
        rm01(p.rot) * rm01(p.rot) + rm11(p.rot) * rm11(p.rot) + rm21(p.rot) * rm21(p.rot)
            == p.rot.norm_sq() * p.rot.norm_sq(),
        rm02(p.rot) * rm02(p.rot) + rm12(p.rot) * rm12(p.rot) + rm22(p.rot) * rm22(p.rot)
            == p.rot.norm_sq() * p.rot.norm_sq(),
{
    lemma_basis_orthogonal(p.rot);
    lemma_basis_unit(p.rot);
}

} // verus!
