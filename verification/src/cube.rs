//! A box entity: six rectangular faces, twelve triangles, authored once
//! in local space.

use crate::mesh::Triangle;
use crate::num::{div_trunc, COORD_MAX, FP};
use crate::physics::Physics;
use crate::render::{DrawCall, Params, Renderer, spec_model_matrix};
use crate::vec3::Vec3;
use vstd::prelude::*;

verus! {

/// A cube: its motion state and its renderer.
pub struct Cube {
    pub phys: Physics,
    pub gfx: Renderer,
}

/// The twelve triangles of a `width x height x depth` box centered at
/// the local origin: two per face, every vertex a corner of the box.
/// Each face's corners are taken counter-clockwise as seen from
/// outside the box, and split `(q0, q1, q2)`, `(q0, q2, q3)`, so both
/// triangles of a face share one winding and face outward.
pub open spec fn spec_cube_mesh(width: i64, height: i64, depth: i64) -> Seq<Triangle> {
    let w = div_trunc(width as int, 2);
    let h = div_trunc(height as int, 2);
    let d = div_trunc(depth as int, 2);
    seq![
        // front (+z)
        tri(-w, -h, d, w, -h, d, w, h, d),
        tri(-w, -h, d, w, h, d, -w, h, d),
        // back (-z)
        tri(w, -h, -d, -w, -h, -d, -w, h, -d),
        tri(w, -h, -d, -w, h, -d, w, h, -d),
        // right (+x)
        tri(w, -h, d, w, -h, -d, w, h, -d),
        tri(w, -h, d, w, h, -d, w, h, d),
        // left (-x)
        tri(-w, -h, -d, -w, -h, d, -w, h, d),
        tri(-w, -h, -d, -w, h, d, -w, h, -d),
        // top (+y)
        tri(-w, h, d, w, h, d, w, h, -d),
        tri(-w, h, d, w, h, -d, -w, h, -d),
        // bottom (-y)
        tri(-w, -h, -d, w, -h, -d, w, -h, d),
        tri(-w, -h, -d, w, -h, d, -w, -h, d),
    ]
}

/// A triangle from nine coordinates.
pub open spec fn tri(
    ax: int,
    ay: int,
    az: int,
    bx: int,
    by: int,
    bz: int,
    cx: int,
    cy: int,
    cz: int,
) -> Triangle {
    Triangle {
        a: Vec3 { x: ax as i64, y: ay as i64, z: az as i64 },
        b: Vec3 { x: bx as i64, y: by as i64, z: bz as i64 },
        c: Vec3 { x: cx as i64, y: cy as i64, z: cz as i64 },
    }
}

/// Builds a cube at `(x, y, z)`: twelve triangles (two per face), every
/// vertex a corner of the `[-w/2, w/2] x [-h/2, h/2] x [-d/2, d/2]`
/// box, each face's pair wound counter-clockwise seen from outside
/// ([`lemma_cube_mesh_winding`]); unit scale; at rest.
pub fn new(
    x: i64,
    y: i64,
    z: i64,
    width: i64,
    height: i64,
    depth: i64,
    color: crate::color::ColorScheme,
) -> (r: Cube)
    requires
        0 <= width <= COORD_MAX,
        0 <= height <= COORD_MAX,
        0 <= depth <= COORD_MAX,
    ensures
        r.phys == crate::physics::spec_at_rest(x, y, z),
        r.gfx.scale == FP,
        r.gfx.color == color,
        r.gfx.mesh@ =~= spec_cube_mesh(width, height, depth),
        r.gfx.mesh@.len() == 12,
        r.gfx.wf(),
        r.phys.wf(),
{
    let w = width / 2;
    let h = height / 2;
    let d = depth / 2;
    let mut mesh: Vec<Triangle> = Vec::new();
    mesh.push(tri_at(-w, -h, d, w, -h, d, w, h, d));
    mesh.push(tri_at(-w, -h, d, w, h, d, -w, h, d));
    mesh.push(tri_at(w, -h, -d, -w, -h, -d, -w, h, -d));
    mesh.push(tri_at(w, -h, -d, -w, h, -d, w, h, -d));
    mesh.push(tri_at(w, -h, d, w, -h, -d, w, h, -d));
    mesh.push(tri_at(w, -h, d, w, h, -d, w, h, d));
    mesh.push(tri_at(-w, -h, -d, -w, -h, d, -w, h, d));
    mesh.push(tri_at(-w, -h, -d, -w, h, d, -w, h, -d));
    mesh.push(tri_at(-w, h, d, w, h, d, w, h, -d));
    mesh.push(tri_at(-w, h, d, w, h, -d, -w, h, -d));
    mesh.push(tri_at(-w, -h, -d, w, -h, -d, w, -h, d));
    mesh.push(tri_at(-w, -h, -d, w, -h, d, -w, -h, d));
    Cube { phys: crate::physics::new(x, y, z), gfx: crate::render::new(FP, mesh, color) }
}

/// A triangle from nine coordinates.
fn tri_at(
    ax: i64,
    ay: i64,
    az: i64,
    bx: i64,
    by: i64,
    bz: i64,
    cx: i64,
    cy: i64,
    cz: i64,
) -> (r: Triangle)
    ensures
        r == tri(
            ax as int,
            ay as int,
            az as int,
            bx as int,
            by as int,
            bz as int,
            cx as int,
            cy as int,
            cz as int,
        ),
{
    Triangle {
        a: Vec3 { x: ax, y: ay, z: az },
        b: Vec3 { x: bx, y: by, z: bz },
        c: Vec3 { x: cx, y: cy, z: cz },
    }
}

/// The bounding box of the cube mesh is exactly
/// `[-w/2, w/2] x [-h/2, h/2] x [-d/2, d/2]`: every vertex coordinate
/// sits on a face of the box, and the two opposite extreme corners are
/// both attained.
pub proof fn lemma_cube_bounding_box(width: i64, height: i64, depth: i64)
    requires
        0 <= width,
        0 <= height,
        0 <= depth,
    ensures
        spec_cube_mesh(width, height, depth).len() == 12,
        forall|t: int, v: int|
            0 <= t < 12 && 0 <= v < 3 ==> {
                let p = #[trigger] spec_cube_mesh(width, height, depth)[t].vertex(v);
                &&& (p.x == div_trunc(width as int, 2) || p.x == -div_trunc(width as int, 2))
                &&& (p.y == div_trunc(height as int, 2) || p.y == -div_trunc(height as int, 2))
                &&& (p.z == div_trunc(depth as int, 2) || p.z == -div_trunc(depth as int, 2))
            },
        spec_cube_mesh(width, height, depth)[0].vertex(2) == (Vec3 {
            x: div_trunc(width as int, 2) as i64,
            y: div_trunc(height as int, 2) as i64,
            z: div_trunc(depth as int, 2) as i64,
        }),
        spec_cube_mesh(width, height, depth)[2].vertex(1) == (Vec3 {
            x: -div_trunc(width as int, 2) as i64,
            y: -div_trunc(height as int, 2) as i64,
            z: -div_trunc(depth as int, 2) as i64,
        }),
{
    vstd::arithmetic::div_mod::lemma_div_pos_is_pos(width as int, 2);
    vstd::arithmetic::div_mod::lemma_div_pos_is_pos(height as int, 2);
    vstd::arithmetic::div_mod::lemma_div_pos_is_pos(depth as int, 2);
    vstd::arithmetic::div_mod::lemma_div_nonincreasing(width as int, 2);
    vstd::arithmetic::div_mod::lemma_div_nonincreasing(height as int, 2);
    vstd::arithmetic::div_mod::lemma_div_nonincreasing(depth as int, 2);
}

/// Both triangles of every face share one winding and face outward:
/// on each face the two doubled signed areas, taken in the face's
/// plane, are equal, and their sign is that of the face's outward
/// axis.
pub proof fn lemma_cube_mesh_winding(width: i64, height: i64, depth: i64)
    requires
        0 <= width,
        0 <= height,
        0 <= depth,
    ensures
        ({
            let m = spec_cube_mesh(width, height, depth);
            let wh = 4 * (div_trunc(width as int, 2) * div_trunc(height as int, 2));
            let hd = 4 * (div_trunc(height as int, 2) * div_trunc(depth as int, 2));
            let dw = 4 * (div_trunc(depth as int, 2) * div_trunc(width as int, 2));
            &&& wh >= 0 && hd >= 0 && dw >= 0
            &&& crate::mesh::signed_area_xy(m[0]) == wh
            &&& crate::mesh::signed_area_xy(m[1]) == wh
            &&& crate::mesh::signed_area_xy(m[2]) == -wh
            &&& crate::mesh::signed_area_xy(m[3]) == -wh
            &&& crate::mesh::signed_area_yz(m[4]) == hd
            &&& crate::mesh::signed_area_yz(m[5]) == hd
            &&& crate::mesh::signed_area_yz(m[6]) == -hd
            &&& crate::mesh::signed_area_yz(m[7]) == -hd
            &&& crate::mesh::signed_area_zx(m[8]) == dw
            &&& crate::mesh::signed_area_zx(m[9]) == dw
            &&& crate::mesh::signed_area_zx(m[10]) == -dw
            &&& crate::mesh::signed_area_zx(m[11]) == -dw
        }),
{
    let w = div_trunc(width as int, 2);
    let h = div_trunc(height as int, 2);
    let d = div_trunc(depth as int, 2);
    vstd::arithmetic::div_mod::lemma_div_pos_is_pos(width as int, 2);
    vstd::arithmetic::div_mod::lemma_div_pos_is_pos(height as int, 2);
    vstd::arithmetic::div_mod::lemma_div_pos_is_pos(depth as int, 2);
    vstd::arithmetic::div_mod::lemma_div_nonincreasing(width as int, 2);
    vstd::arithmetic::div_mod::lemma_div_nonincreasing(height as int, 2);
    vstd::arithmetic::div_mod::lemma_div_nonincreasing(depth as int, 2);
    crate::poly::lemma_four_product(w, h);
    crate::poly::lemma_four_product(-w, h);
    crate::poly::lemma_four_product(h, d);
    crate::poly::lemma_four_product(h, -d);
    crate::poly::lemma_four_product(d, w);
    crate::poly::lemma_four_product(-d, w);
    crate::poly::lemma_neg_mul(w, h);
    crate::poly::lemma_neg_mul(h, d);
    crate::poly::lemma_neg_mul(d, w);
    vstd::arithmetic::mul::lemma_mul_basics(2 * w);
    vstd::arithmetic::mul::lemma_mul_basics(2 * h);
    vstd::arithmetic::mul::lemma_mul_basics(2 * d);
    vstd::arithmetic::mul::lemma_mul_basics(-(2 * w));
    vstd::arithmetic::mul::lemma_mul_basics(-(2 * h));
    vstd::arithmetic::mul::lemma_mul_basics(-(2 * d));
    vstd::arithmetic::mul::lemma_mul_nonnegative(w, h);
    vstd::arithmetic::mul::lemma_mul_nonnegative(h, d);
    vstd::arithmetic::mul::lemma_mul_nonnegative(d, w);
}

impl Cube {
    /// The draw call for this cube's current pose.
    pub fn render(&self, params: &Params) -> (r: DrawCall)
        requires
            self.gfx.wf(),
            self.phys.wf(),
        ensures
            r.model == spec_model_matrix(self.phys, self.gfx.scale),
            r.vertex_count == 3 * self.gfx.mesh@.len(),
            r.floats_per_vertex == crate::render::FLOATS_PER_VERTEX,
            r.position_offset == 0,
            r.color_offset == 3,
            r.program == params.program,
            r.camera == params.camera,
            r.clock == params.clock,
            r.width == params.width,
            r.height == params.height,
    {
        self.gfx.render(&self.phys, params)
    }
}

} // verus!
