//! Debug axes: three long, thin rectangles along X, Y and Z, colored
//! red, green and blue by vertex-index range.

use crate::color::{Color, ColorScheme};
use crate::mesh::Triangle;
use crate::num::FP;
use crate::physics::Physics;
use crate::quat::Quat;
use crate::render::{DrawCall, Params, Renderer};
use crate::vec3::Vec3;
use vstd::prelude::*;

verus! {

/// Half the length of an axis rectangle (500 units).
pub const AXIS_HALF_LEN: i64 = 32768000;

/// Half the thickness of an axis rectangle (0.1 units, rounded down).
pub const AXIS_HALF_THICK: i64 = 6553;

/// The debug axes: a static pose and one renderer for all six
/// triangles.
pub struct Axes {
    pub phys: Physics,
    pub gfx: Renderer,
}

/// The six world-space triangles of the axes: each axis is the world
/// mesh of one thin rectangle (two triangles, reversed by
/// [`crate::rectangle::Rectangle::vertices`]); the Z rectangle is the Y
/// one turned a quarter turn about X, carrying `(x, y, 0)` to
/// `(x, 0, -y)`.
pub open spec fn spec_axes_mesh() -> Seq<Triangle> {
    let l = AXIS_HALF_LEN;
    let t = AXIS_HALF_THICK;
    seq![
        // along x
        crate::cube::tri(-l as int, t as int, 0, -l as int, -t as int, 0, l as int, -t as int, 0),
        crate::cube::tri(-l as int, t as int, 0, l as int, -t as int, 0, l as int, t as int, 0),
        // along y
        crate::cube::tri(-t as int, l as int, 0, -t as int, -l as int, 0, t as int, -l as int, 0),
        crate::cube::tri(-t as int, l as int, 0, t as int, -l as int, 0, t as int, l as int, 0),
        // along z
        crate::cube::tri(-t as int, 0, -l as int, -t as int, 0, l as int, t as int, 0, l as int),
        crate::cube::tri(-t as int, 0, -l as int, t as int, 0, l as int, t as int, 0, -l as int),
    ]
}

/// Builds the axes at the origin: three `1000 x 0.2` rectangles laid
/// along X, Y and Z, six triangles in all, the first rectangle red, the
/// second green, the third blue.
pub fn new() -> (r: Axes)
    ensures
        r.phys == crate::physics::spec_at_rest(0, 0, 0),
        r.gfx.mesh@ =~= spec_axes_mesh(),
        r.gfx.mesh@.len() == 6,
        r.gfx.color == ColorScheme::Ranged(
            Color { r: FP, g: 0, b: 0 },
            Color { r: 0, g: FP, b: 0 },
            Color { r: 0, g: 0, b: FP },
        ),
        r.gfx.scale == FP,
        r.gfx.wf(),
        r.phys.wf(),
{
    let red = Color { r: FP, g: 0, b: 0 };
    let green = Color { r: 0, g: FP, b: 0 };
    let blue = Color { r: 0, g: 0, b: FP };
    let x_rect = crate::rectangle::new(
        0,
        0,
        0,
        2 * AXIS_HALF_LEN,
        2 * AXIS_HALF_THICK,
        ColorScheme::Solid(red),
    );
    let y_rect = crate::rectangle::new(
        0,
        0,
        0,
        2 * AXIS_HALF_THICK,
        2 * AXIS_HALF_LEN,
        ColorScheme::Solid(green),
    );
    let mut z_rect = crate::rectangle::new(
        0,
        0,
        0,
        2 * AXIS_HALF_THICK,
        2 * AXIS_HALF_LEN,
        ColorScheme::Solid(blue),
    );
    // a quarter turn about X, exactly: the quaternion (1, -1, 0, 0)
    z_rect.phys.rot = Quat { w: 1, x: -1, y: 0, z: 0 };
    let mut mesh = x_rect.vertices();
    let mut ym = y_rect.vertices();
    let mut zm = z_rect.vertices();
    mesh.append(&mut ym);
    mesh.append(&mut zm);
    proof {
        let mid = crate::physics::spec_mat_model(crate::physics::spec_at_rest(0, 0, 0));
        let zphys = Physics {
            pos: Vec3 { x: 0i64, y: 0i64, z: 0i64 },
            vel: Vec3 { x: 0i64, y: 0i64, z: 0i64 },
            rot: Quat { w: 1i64, x: (-1) as i64, y: 0i64, z: 0i64 },
            ang: Vec3 { x: 0i64, y: 0i64, z: 0i64 },
        };
        let zm_ = crate::physics::spec_mat_model(zphys);
        assert(z_rect.phys == zphys);
        crate::num::lemma_div_trunc_exact(AXIS_HALF_LEN as int, 2);
        crate::num::lemma_div_trunc_exact(AXIS_HALF_THICK as int, 2);
        assert forall|p: Vec3| #[trigger] crate::mat4::spec_transform_point(mid, p) == p by {
            lemma_identity_model_point(p);
        };
        assert forall|p: Vec3| p.y > i64::MIN implies #[trigger] crate::mat4::spec_transform_point(
            zm_,
            p,
        ) == (Vec3 { x: p.x, y: p.z, z: (-(p.y as int)) as i64 }) by {
            lemma_quarter_model_point(p);
        };
        assert(mesh@.len() == 6);
        assert(mesh@ =~= spec_axes_mesh());
    }
    assemble(mesh, ColorScheme::Ranged(red, green, blue))
}

/// The model transform of an entity at rest at the origin moves no
/// point: every fixed-point division is exact.
proof fn lemma_identity_model_point(p: Vec3)
    ensures
        crate::mat4::spec_transform_point(
            crate::physics::spec_mat_model(crate::physics::spec_at_rest(0, 0, 0)),
            p,
        ) == p,
{
    let q = Quat { w: 1i64, x: 0i64, y: 0i64, z: 0i64 };
    let m = crate::physics::spec_mat_model(crate::physics::spec_at_rest(0, 0, 0));
    crate::num::lemma_div_trunc_exact(FP as int, 1);
    crate::num::lemma_div_trunc_exact(0, 1);
    assert(q.norm_sq() == 1);
    assert(crate::quat::rm00(q) == 1);
    assert(crate::physics::spec_rot_fixed(q, crate::quat::rm00(q)) == FP);
    assert(m.m00 == FP);
    assert(m.m01 == 0);
    assert(m.m03 == 0);
    crate::num::lemma_div_trunc_exact(p.x as int, FP as int);
    crate::num::lemma_div_trunc_exact(p.y as int, FP as int);
    crate::num::lemma_div_trunc_exact(p.z as int, FP as int);
    assert(m.m00 * p.x + m.m01 * p.y + m.m02 * p.z + m.m03 * FP == (p.x as int) * (FP as int));
    assert(crate::mat4::spec_transformed_coord(m.m00 as int, m.m01 as int, m.m02 as int, m.m03 as int, p) == p.x);
}

/// A quarter turn about X at the origin carries `(x, y, z)` exactly to
/// `(x, z, -y)`.
proof fn lemma_quarter_model_point(p: Vec3)
    requires
        p.y > i64::MIN,
    ensures
        crate::mat4::spec_transform_point(
            crate::physics::spec_mat_model(
                Physics {
                    pos: Vec3 { x: 0i64, y: 0i64, z: 0i64 },
                    vel: Vec3 { x: 0i64, y: 0i64, z: 0i64 },
                    rot: Quat { w: 1i64, x: (-1) as i64, y: 0i64, z: 0i64 },
                    ang: Vec3 { x: 0i64, y: 0i64, z: 0i64 },
                },
            ),
            p,
        ) == (Vec3 { x: p.x, y: p.z, z: (-(p.y as int)) as i64 }),
{
    let q = Quat { w: 1i64, x: (-1) as i64, y: 0i64, z: 0i64 };
    let m = crate::physics::spec_mat_model(
        Physics {
            pos: Vec3 { x: 0i64, y: 0i64, z: 0i64 },
            vel: Vec3 { x: 0i64, y: 0i64, z: 0i64 },
            rot: q,
            ang: Vec3 { x: 0i64, y: 0i64, z: 0i64 },
        },
    );
    crate::num::lemma_div_trunc_exact(FP as int, 2);
    crate::num::lemma_div_trunc_exact(-(FP as int), 2);
    crate::num::lemma_div_trunc_exact(0, 2);
    vstd::arithmetic::mul::lemma_mul_cancels_negatives(1, 1);
    assert(q.x * q.x == 1);
    assert(q.norm_sq() == 2);
    assert(crate::quat::rm00(q) == 2);
    assert(crate::quat::rm12(q) == 2);
    assert(crate::quat::rm21(q) == -2);
    assert(m.m00 == FP);
    assert(m.m01 == 0);
    assert(m.m02 == 0);
    assert(m.m10 == 0);
    assert(m.m11 == 0);
    assert(m.m12 == FP);
    assert(m.m20 == 0);
    assert(m.m21 == -FP);
    assert(m.m22 == 0);
    assert(m.m03 == 0);
    assert(m.m13 == 0);
    assert(m.m23 == 0);
    crate::num::lemma_div_trunc_exact(p.x as int, FP as int);
    crate::num::lemma_div_trunc_exact(p.z as int, FP as int);
    crate::num::lemma_div_trunc_exact(-(p.y as int), FP as int);
    assert(m.m00 * p.x + m.m01 * p.y + m.m02 * p.z + m.m03 * FP == (p.x as int) * (FP as int));
    assert(m.m10 * p.x + m.m11 * p.y + m.m12 * p.z + m.m13 * FP == (p.z as int) * (FP as int));
    assert(m.m20 * p.x + m.m21 * p.y + m.m22 * p.z + m.m23 * FP == (-(p.y as int)) * (FP as int));
    assert(crate::mat4::spec_transformed_coord(m.m00 as int, m.m01 as int, m.m02 as int, m.m03 as int, p) == p.x);
    assert(crate::mat4::spec_transformed_coord(m.m10 as int, m.m11 as int, m.m12 as int, m.m13 as int, p) == p.z);
    assert(crate::mat4::spec_transformed_coord(m.m20 as int, m.m21 as int, m.m22 as int, m.m23 as int, p) == -(p.y as int));
}

/// Packages the collected axis triangles into an entity at the origin.
fn assemble(mesh: Vec<Triangle>, color: ColorScheme) -> (r: Axes)
    requires
        mesh@.len() <= crate::render::MESH_MAX,
        crate::mesh::mesh_bounded(mesh@, crate::num::COORD_MAX as int),
    ensures
        r.phys == crate::physics::spec_at_rest(0, 0, 0),
        r.gfx.mesh == mesh,
        r.gfx.color == color,
        r.gfx.scale == FP,
        r.gfx.wf(),
        r.phys.wf(),
{
    Axes { phys: crate::physics::new(0, 0, 0), gfx: crate::render::new(FP, mesh, color) }
}

impl Axes {
    /// The draw call for the axes' (static) pose.
    pub fn render(&self, params: &Params) -> (r: DrawCall)
        requires
            self.gfx.wf(),
            self.phys.wf(),
        ensures
            r.model == crate::render::spec_model_matrix(self.phys, self.gfx.scale),
            r.vertex_count == 3 * self.gfx.mesh@.len(),
            r.floats_per_vertex == crate::render::FLOATS_PER_VERTEX,
            r.position_offset == 0,
            r.color_offset == 3,
            r.program == params.program,
            r.camera == params.camera,
            r.clock == params.clock,
            r.width == params.width,
            r.height == params.height,
    {
        self.gfx.render(&self.phys, params)
    }
}

} // verus!
