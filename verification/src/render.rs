//! The renderer: an interleaved vertex buffer built once, and a draw
//! call computed each frame.
//!
//! The buffer holds, for every vertex in mesh order, six fixed-point
//! values: the position, then that vertex's color.  Drawing never
//! rebuilds it; each frame only derives the model matrix from the
//! owning entity's physics and packages the uniforms and the vertex
//! count into a [`DrawCall`], which the unverified shell hands to the
//! graphics API.

use crate::color::ColorScheme;
use crate::mat4::Mat4;
use crate::mesh::{mesh_bounded, Triangle};
use crate::num::{div_trunc, div_fixed, COORD_MAX, FP};
use crate::physics::{spec_rot_fixed, Physics};
use crate::quat::{rm00, rm01, rm02, rm10, rm11, rm12, rm20, rm21, rm22};
use vstd::prelude::*;

verus! {

/// Largest mesh a renderer accepts, in triangles.
pub const MESH_MAX: usize = 0x100_0000;

/// Largest uniform scale a renderer accepts (16 in fixed point).
pub const SCALE_MAX: i64 = 0x100000;

/// Fixed-point values per vertex: three of position, three of color.
pub const FLOATS_PER_VERTEX: usize = 6;

/// Shared per-frame parameters: the shader program handle, the camera's
/// view-projection matrix, the clock, and the viewport size.
#[derive(Clone, Copy, Debug, PartialEq, Eq, Structural)]
pub struct Params {
    pub program: u32,
    pub camera: Mat4,
    pub clock: i64,
    pub width: i32,
    pub height: i32,
}

/// Everything one triangle-list draw needs, as plain values: the
/// uniforms, the vertex layout, and exactly how many vertices to draw.
#[derive(Clone, Copy, Debug, PartialEq, Eq, Structural)]
pub struct DrawCall {
    pub program: u32,
    pub model: Mat4,
    pub camera: Mat4,
    pub clock: i64,
    pub width: i32,
    pub height: i32,
    pub vertex_count: usize,
    pub floats_per_vertex: usize,
    pub position_offset: usize,
    pub color_offset: usize,
}

/// Vertex `v` of triangle `t` occupies six consecutive buffer slots:
/// its position, then the color of vertex index `3 t + v`.
pub open spec fn vertex_block_matches(
    mesh: Seq<Triangle>,
    color: ColorScheme,
    buf: Seq<i64>,
    t: int,
    v: int,
) -> bool {
    &&& buf[18 * t + 6 * v] == mesh[t].vertex(v).x
    &&& buf[18 * t + 6 * v + 1] == mesh[t].vertex(v).y
    &&& buf[18 * t + 6 * v + 2] == mesh[t].vertex(v).z
    &&& buf[18 * t + 6 * v + 3] == color.spec_color_at(3 * t + v).r
    &&& buf[18 * t + 6 * v + 4] == color.spec_color_at(3 * t + v).g
    &&& buf[18 * t + 6 * v + 5] == color.spec_color_at(3 * t + v).b
}

/// The buffer is the mesh interleaved with its colors: for vertex `v`
/// of triangle `t`, six consecutive values hold its position and the
/// color of index `3 t + v`.
pub open spec fn buffer_matches(mesh: Seq<Triangle>, color: ColorScheme, buf: Seq<i64>) -> bool {
    &&& buf.len() == 18 * mesh.len()
    &&& forall|t: int, v: int|
        0 <= t < mesh.len() && 0 <= v < 3 ==> #[trigger] vertex_block_matches(
            mesh,
            color,
            buf,
            t,
            v,
        )
}

/// The model matrix of a pose and a uniform scale:
/// `translation x rotation x scale`.  The scale multiplies the rotation
/// block entry-wise and leaves the translation column alone.
pub open spec fn spec_model_matrix(p: Physics, s: i64) -> Mat4 {
    Mat4 {
        m00: div_trunc(spec_rot_fixed(p.rot, rm00(p.rot)) * s, FP as int) as i64,
        m01: div_trunc(spec_rot_fixed(p.rot, rm01(p.rot)) * s, FP as int) as i64,
        m02: div_trunc(spec_rot_fixed(p.rot, rm02(p.rot)) * s, FP as int) as i64,
        m03: p.pos.x,
        m10: div_trunc(spec_rot_fixed(p.rot, rm10(p.rot)) * s, FP as int) as i64,
        m11: div_trunc(spec_rot_fixed(p.rot, rm11(p.rot)) * s, FP as int) as i64,
        m12: div_trunc(spec_rot_fixed(p.rot, rm12(p.rot)) * s, FP as int) as i64,
        m13: p.pos.y,
        m20: div_trunc(spec_rot_fixed(p.rot, rm20(p.rot)) * s, FP as int) as i64,
        m21: div_trunc(spec_rot_fixed(p.rot, rm21(p.rot)) * s, FP as int) as i64,
        m22: div_trunc(spec_rot_fixed(p.rot, rm22(p.rot)) * s, FP as int) as i64,
        m23: p.pos.z,
        m30: 0,
        m31: 0,
        m32: 0,
        m33: FP,
    }
}

/// A renderer: one static mesh, its color assignment, a uniform scale,
/// and the interleaved vertex buffer built once at construction.
pub struct Renderer {
    pub scale: i64,
    pub mesh: Vec<Triangle>,
    pub color: ColorScheme,
    pub buffer: Vec<i64>,
}

impl Renderer {
    /// A well-formed renderer: bounded mesh and scale, and a buffer
    /// that is exactly the interleaving of the mesh with its colors.
    pub open spec fn wf(self) -> bool {
        &&& 0 <= self.scale <= SCALE_MAX
        &&& self.mesh@.len() <= MESH_MAX
        &&& mesh_bounded(self.mesh@, COORD_MAX as int)
        &&& buffer_matches(self.mesh@, self.color, self.buffer@)
    }

    /// The draw call for the current frame: the model matrix
    /// `translation x rotation x scale` from the owning entity's pose,
    /// the shared uniforms passed through, the interleaved 6-value
    /// layout, and exactly `3 * mesh.len()` vertices.
    pub fn render(&self, phys: &Physics, params: &Params) -> (r: DrawCall)
        requires
            self.wf(),
            phys.wf(),
        ensures
            r.program == params.program,
            r.camera == params.camera,
            r.clock == params.clock,
            r.width == params.width,
            r.height == params.height,
            r.model == spec_model_matrix(*phys, self.scale),
            r.vertex_count == 3 * self.mesh@.len(),
            r.floats_per_vertex == FLOATS_PER_VERTEX,
            r.position_offset == 0,
            r.color_offset == 3,
    {
        let rot = phys.mat_rotation();
        proof {
            crate::physics::lemma_rot_fixed_bounds(phys.rot);
            lemma_scale_bounds(rot, self.scale);
        }
        let model = Mat4 {
            m00: div_fixed(rot.m00 * self.scale, FP),
            m01: div_fixed(rot.m01 * self.scale, FP),
            m02: div_fixed(rot.m02 * self.scale, FP),
            m03: phys.pos.x,
            m10: div_fixed(rot.m10 * self.scale, FP),
            m11: div_fixed(rot.m11 * self.scale, FP),
            m12: div_fixed(rot.m12 * self.scale, FP),
            m13: phys.pos.y,
            m20: div_fixed(rot.m20 * self.scale, FP),
            m21: div_fixed(rot.m21 * self.scale, FP),
            m22: div_fixed(rot.m22 * self.scale, FP),
            m23: phys.pos.z,
            m30: 0,
            m31: 0,
            m32: 0,
            m33: FP,
        };
        DrawCall {
            program: params.program,
            model,
            camera: params.camera,
            clock: params.clock,
            width: params.width,
            height: params.height,
            vertex_count: 3 * self.mesh.len(),
            floats_per_vertex: FLOATS_PER_VERTEX,
            position_offset: 0,
            color_offset: 3,
        }
    }
}

/// Scaling a rotation matrix entry stays within `i64`.
proof fn lemma_scale_bounds(rot: Mat4, s: i64)
    requires
        rot.lin_bounded(FP as int),
        0 <= s <= SCALE_MAX,
    ensures
        -(FP * SCALE_MAX) <= rot.m00 * s <= FP * SCALE_MAX,
        -(FP * SCALE_MAX) <= rot.m01 * s <= FP * SCALE_MAX,
        -(FP * SCALE_MAX) <= rot.m02 * s <= FP * SCALE_MAX,
        -(FP * SCALE_MAX) <= rot.m10 * s <= FP * SCALE_MAX,
        -(FP * SCALE_MAX) <= rot.m11 * s <= FP * SCALE_MAX,
        -(FP * SCALE_MAX) <= rot.m12 * s <= FP * SCALE_MAX,
        -(FP * SCALE_MAX) <= rot.m20 * s <= FP * SCALE_MAX,
        -(FP * SCALE_MAX) <= rot.m21 * s <= FP * SCALE_MAX,
        -(FP * SCALE_MAX) <= rot.m22 * s <= FP * SCALE_MAX,
{
    crate::quat::lemma_abs_mul_bound(rot.m00 as int, s as int, FP as int, SCALE_MAX as int);
    crate::quat::lemma_abs_mul_bound(rot.m01 as int, s as int, FP as int, SCALE_MAX as int);
    crate::quat::lemma_abs_mul_bound(rot.m02 as int, s as int, FP as int, SCALE_MAX as int);
    crate::quat::lemma_abs_mul_bound(rot.m10 as int, s as int, FP as int, SCALE_MAX as int);
    crate::quat::lemma_abs_mul_bound(rot.m11 as int, s as int, FP as int, SCALE_MAX as int);
    crate::quat::lemma_abs_mul_bound(rot.m12 as int, s as int, FP as int, SCALE_MAX as int);
    crate::quat::lemma_abs_mul_bound(rot.m20 as int, s as int, FP as int, SCALE_MAX as int);
    crate::quat::lemma_abs_mul_bound(rot.m21 as int, s as int, FP as int, SCALE_MAX as int);
    crate::quat::lemma_abs_mul_bound(rot.m22 as int, s as int, FP as int, SCALE_MAX as int);
}

/// Builds a renderer: stores the mesh, scale and color assignment, and
/// builds the interleaved vertex buffer, position then color for every
/// vertex in mesh order — `6 * 3 * mesh.len()` values in all.
pub fn new(scale: i64, mesh: Vec<Triangle>, color: ColorScheme) -> (r: Renderer)
    requires
        0 <= scale <= SCALE_MAX,
        mesh@.len() <= MESH_MAX,
        mesh_bounded(mesh@, COORD_MAX as int),
    ensures
        r.scale == scale,
        r.mesh == mesh,
        r.color == color,
        r.wf(),
        r.buffer@.len() == 18 * mesh@.len(),
{
    let mut buffer: Vec<i64> = Vec::new();
    let mut t: usize = 0;
    while t < mesh.len()
        invariant
            t <= mesh@.len(),
            mesh@.len() <= MESH_MAX,
            buffer@.len() == 18 * t,
            forall|i: int, v: int|
                0 <= i < t && 0 <= v < 3 ==> #[trigger] vertex_block_matches(
                    mesh@,
                    color,
                    buffer@,
                    i,
                    v,
                ),
        decreases mesh@.len() - t,
    {
        let tri = mesh[t];
        let ghost b0 = buffer@;
        let p0 = tri.vertex_at(0);
        let c0 = color.color_at(3 * t);
        let p1 = tri.vertex_at(1);
        let c1 = color.color_at(3 * t + 1);
        let p2 = tri.vertex_at(2);
        let c2 = color.color_at(3 * t + 2);
        buffer.push(p0.x);
        buffer.push(p0.y);
        buffer.push(p0.z);
        buffer.push(c0.r);
        buffer.push(c0.g);
        buffer.push(c0.b);
        buffer.push(p1.x);
        buffer.push(p1.y);
        buffer.push(p1.z);
        buffer.push(c1.r);
        buffer.push(c1.g);
        buffer.push(c1.b);
        buffer.push(p2.x);
        buffer.push(p2.y);
        buffer.push(p2.z);
        buffer.push(c2.r);
        buffer.push(c2.g);
        buffer.push(c2.b);
        proof {
            assert(buffer@ =~= b0 + seq![
                p0.x, p0.y, p0.z, c0.r, c0.g, c0.b,
                p1.x, p1.y, p1.z, c1.r, c1.g, c1.b,
                p2.x, p2.y, p2.z, c2.r, c2.g, c2.b,
            ]);
            assert(mesh@[t as int].vertex(0) == p0);
            assert(mesh@[t as int].vertex(1) == p1);
            assert(mesh@[t as int].vertex(2) == p2);
            assert forall|i: int, v: int|
                0 <= i < t + 1 && 0 <= v < 3 implies #[trigger] vertex_block_matches(
                mesh@,
                color,
                buffer@,
                i,
                v,
            ) by {
                if i < t {
                    assert(vertex_block_matches(mesh@, color, b0, i, v));
                    assert(18 * i + 6 * v + 5 < 18 * t);
                } else {
                    assert(i == t);
                    if v == 0 {
                        assert(mesh@[i].vertex(v) == p0);
                    } else if v == 1 {
                        assert(mesh@[i].vertex(v) == p1);
                    } else {
                        assert(mesh@[i].vertex(v) == p2);
                    }
                }
            };
        }
        t = t + 1;
    }
    Renderer { scale, mesh, color, buffer }
}

} // verus!
