//! A flat rectangle entity: two triangles in the local XY plane.

use crate::mat4::{spec_transform_triangle, transform_triangle};
use crate::mesh::Triangle;
use crate::num::{div_trunc, COORD_MAX, FP};
use crate::physics::{spec_mat_model, Physics};
use crate::render::{Renderer, Params, DrawCall, spec_model_matrix};
use crate::vec3::Vec3;
use vstd::prelude::*;

verus! {

/// A rectangle: its motion state and its renderer.
pub struct Rectangle {
    pub phys: Physics,
    pub gfx: Renderer,
}

/// The two triangles of a `width x height` quad centered at the local
/// origin in the XY plane, both wound counter-clockwise seen from +Z
/// (the front face): top-left, bottom-right, top-right; then top-left,
/// bottom-left, bottom-right.
pub open spec fn spec_rect_mesh(width: i64, height: i64) -> Seq<Triangle> {
    let hw = div_trunc(width as int, 2);
    let hh = div_trunc(height as int, 2);
    seq![
        Triangle {
            a: Vec3 { x: (-hw) as i64, y: hh as i64, z: 0 },
            b: Vec3 { x: hw as i64, y: (-hh) as i64, z: 0 },
            c: Vec3 { x: hw as i64, y: hh as i64, z: 0 },
        },
        Triangle {
            a: Vec3 { x: (-hw) as i64, y: hh as i64, z: 0 },
            b: Vec3 { x: (-hw) as i64, y: (-hh) as i64, z: 0 },
            c: Vec3 { x: hw as i64, y: (-hh) as i64, z: 0 },
        },
    ]
}

/// Builds a rectangle at `(x, y, z)`: exactly two triangles forming a
/// `width x height` quad centered at the local origin, `z == 0`, every
/// vertex at `(+-width/2, +-height/2)`, both triangles wound
/// counter-clockwise toward +Z ([`lemma_rect_mesh_winding`]); unit
/// scale; at rest.
pub fn new(x: i64, y: i64, z: i64, width: i64, height: i64, color: crate::color::ColorScheme) -> (r:
    Rectangle)
    requires
        0 <= width <= COORD_MAX,
        0 <= height <= COORD_MAX,
    ensures
        r.phys == crate::physics::spec_at_rest(x, y, z),
        r.gfx.scale == FP,
        r.gfx.color == color,
        r.gfx.mesh@ =~= spec_rect_mesh(width, height),
        r.gfx.wf(),
        r.phys.wf(),
{
    let hw = width / 2;
    let hh = height / 2;
    let mut mesh: Vec<Triangle> = Vec::new();
    mesh.push(
        Triangle {
            a: Vec3 { x: -hw, y: hh, z: 0 },
            b: Vec3 { x: hw, y: -hh, z: 0 },
            c: Vec3 { x: hw, y: hh, z: 0 },
        },
    );
    mesh.push(
        Triangle {
            a: Vec3 { x: -hw, y: hh, z: 0 },
            b: Vec3 { x: -hw, y: -hh, z: 0 },
            c: Vec3 { x: hw, y: -hh, z: 0 },
        },
    );
    Rectangle { phys: crate::physics::new(x, y, z), gfx: crate::render::new(FP, mesh, color) }
}

/// Every vertex of the rectangle mesh has `|x| == width / 2`,
/// `|y| == height / 2` and `z == 0`, and there are exactly two
/// triangles (six vertices).
pub proof fn lemma_rect_mesh_extents(width: i64, height: i64)
    requires
        0 <= width,
        0 <= height,
    ensures
        spec_rect_mesh(width, height).len() == 2,
        forall|t: int, v: int|
            0 <= t < 2 && 0 <= v < 3 ==> {
                let p = #[trigger] spec_rect_mesh(width, height)[t].vertex(v);
                &&& (p.x == div_trunc(width as int, 2) || p.x == -div_trunc(width as int, 2))
                &&& (p.y == div_trunc(height as int, 2) || p.y == -div_trunc(height as int, 2))
                &&& p.z == 0
            },
{
    vstd::arithmetic::div_mod::lemma_div_pos_is_pos(width as int, 2);
    vstd::arithmetic::div_mod::lemma_div_pos_is_pos(height as int, 2);
    vstd::arithmetic::div_mod::lemma_div_nonincreasing(width as int, 2);
    vstd::arithmetic::div_mod::lemma_div_nonincreasing(height as int, 2);
}

/// Both triangles of the rectangle mesh carry the same winding: seen
/// from +Z each has the same positive doubled signed area,
/// `4 (width/2) (height/2)` — the front face is the +Z side.
pub proof fn lemma_rect_mesh_winding(width: i64, height: i64)
    requires
        0 <= width,
        0 <= height,
    ensures
        crate::mesh::signed_area_xy(spec_rect_mesh(width, height)[0]) == 4 * (div_trunc(
            width as int,
            2,
        ) * div_trunc(height as int, 2)),
        crate::mesh::signed_area_xy(spec_rect_mesh(width, height)[1]) == 4 * (div_trunc(
            width as int,
            2,
        ) * div_trunc(height as int, 2)),
        crate::mesh::signed_area_xy(spec_rect_mesh(width, height)[0]) >= 0,
{
    let hw = div_trunc(width as int, 2);
    let hh = div_trunc(height as int, 2);
    vstd::arithmetic::div_mod::lemma_div_pos_is_pos(width as int, 2);
    vstd::arithmetic::div_mod::lemma_div_pos_is_pos(height as int, 2);
    vstd::arithmetic::div_mod::lemma_div_nonincreasing(width as int, 2);
    vstd::arithmetic::div_mod::lemma_div_nonincreasing(height as int, 2);
    crate::poly::lemma_four_product(hw, hh);
    crate::poly::lemma_four_product(hw, -hh);
    crate::poly::lemma_neg_mul(hw, hh);
    vstd::arithmetic::mul::lemma_mul_basics(2 * hw);
    vstd::arithmetic::mul::lemma_mul_basics(-(2 * hh));
    vstd::arithmetic::mul::lemma_mul_nonnegative(hw, hh);
}

impl Rectangle {
    /// The draw call for this rectangle's current pose.
    pub fn render(&self, params: &Params) -> (r: DrawCall)
        requires
            self.gfx.wf(),
            self.phys.wf(),
        ensures
            r.model == spec_model_matrix(self.phys, self.gfx.scale),
            r.vertex_count == 3 * self.gfx.mesh@.len(),
            r.floats_per_vertex == crate::render::FLOATS_PER_VERTEX,
            r.position_offset == 0,
            r.color_offset == 3,
            r.program == params.program,
            r.camera == params.camera,
            r.clock == params.clock,
            r.width == params.width,
            r.height == params.height,
    {
        self.gfx.render(&self.phys, params)
    }

    /// The mesh carried into world space by the current model transform,
    /// in reverse triangle order.
    pub fn vertices(&self) -> (r: Vec<Triangle>)
        requires
            self.gfx.wf(),
            self.phys.wf(),
            self.phys.pos.bounded(COORD_MAX as int),
        ensures
            r@.len() == self.gfx.mesh@.len(),
            forall|i: int|
                0 <= i < r@.len() ==> r@[i] == spec_transform_triangle(
                    #[trigger] spec_mat_model(self.phys),
                    self.gfx.mesh@[r@.len() - 1 - i],
                ),
    {
        let model = self.phys.mat_model();
        let ghost ml = FP as int;
        let ghost mt = 3 * (COORD_MAX as int);
        let ghost mp = COORD_MAX as int;
        let mut out: Vec<Triangle> = Vec::new();
        let mut i: usize = 0;
        let n = self.gfx.mesh.len();
        while i < n
            invariant
                n == self.gfx.mesh@.len(),
                i <= n,
                out@.len() == i,
                model == spec_mat_model(self.phys),
                model.lin_bounded(ml),
                model.trans_bounded(mt),
                crate::mesh::mesh_bounded(self.gfx.mesh@, mp),
                ml == FP as int,
                mt == 3 * (COORD_MAX as int),
                mp == COORD_MAX as int,
                forall|k: int|
                    0 <= k < i ==> out@[k] == spec_transform_triangle(
                        #[trigger] spec_mat_model(self.phys),
                        self.gfx.mesh@[n - 1 - k],
                    ),
            decreases n - i,
        {
            let tri = self.gfx.mesh[n - 1 - i];
            let w = transform_triangle(&model, &tri, Ghost(ml), Ghost(mt), Ghost(mp));
            out.push(w);
            i = i + 1;
        }
        out
    }
}

} // verus!
