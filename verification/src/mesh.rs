//! Triangles: the unit every mesh is made of.

use crate::vec3::Vec3;
use vstd::prelude::*;

verus! {

/// One triangle of a mesh, three points in the entity's local space.
#[derive(Clone, Copy, Debug, PartialEq, Eq, Structural)]
pub struct Triangle {
    pub a: Vec3,
    pub b: Vec3,
    pub c: Vec3,
}

impl Triangle {
    /// Vertex `k` of the triangle, in emission order.
    pub open spec fn vertex(self, k: int) -> Vec3 {
        if k == 0 {
            self.a
        } else if k == 1 {
            self.b
        } else {
            self.c
        }
    }

    /// All three corners lie in the coordinate cube `[-m, m]^3`.
    pub open spec fn bounded(self, m: int) -> bool {
        &&& self.a.bounded(m)
        &&& self.b.bounded(m)
        &&& self.c.bounded(m)
    }

    pub fn new(a: Vec3, b: Vec3, c: Vec3) -> (r: Triangle)
        ensures
            r == (Triangle { a, b, c }),
    {
        Triangle { a, b, c }
    }

    /// Vertex `k` of the triangle, in emission order.
    pub fn vertex_at(&self, k: usize) -> (r: Vec3)
        requires
            k < 3,
        ensures
            r == self.vertex(k as int),
    {
        if k == 0 {
            self.a
        } else if k == 1 {
            self.b
        } else {
            self.c
        }
    }
}

/// Twice the signed area of the triangle projected on the XY plane:
/// positive when the vertices run counter-clockwise seen from +Z.
pub open spec fn signed_area_xy(t: Triangle) -> int {
    (t.b.x - t.a.x) * (t.c.y - t.a.y) - (t.c.x - t.a.x) * (t.b.y - t.a.y)
}

/// Twice the signed area projected on the YZ plane: positive when the
/// vertices run counter-clockwise seen from +X.
pub open spec fn signed_area_yz(t: Triangle) -> int {
    (t.b.y - t.a.y) * (t.c.z - t.a.z) - (t.c.y - t.a.y) * (t.b.z - t.a.z)
}

/// Twice the signed area projected on the ZX plane: positive when the
/// vertices run counter-clockwise seen from +Y.
pub open spec fn signed_area_zx(t: Triangle) -> int {
    (t.b.z - t.a.z) * (t.c.x - t.a.x) - (t.c.z - t.a.z) * (t.b.x - t.a.x)
}

/// Every triangle of the mesh lies in the coordinate cube `[-m, m]^3`.
pub open spec fn mesh_bounded(mesh: Seq<Triangle>, m: int) -> bool {
    forall|i: int| 0 <= i < mesh.len() ==> #[trigger] mesh[i].bounded(m)
}

} // verus!
