//! Exercises the library end to end on concrete values.

use rendercore::axes;
use rendercore::camera;
use rendercore::quat::Quat;
use rendercore::color::{Color, ColorScheme};
use rendercore::cube;
use rendercore::input::{action_for_key, Action, Key};
use rendercore::mat4::Mat4;
use rendercore::num::FP;
use rendercore::physics;
use rendercore::rectangle;
use rendercore::render::Params;
use rendercore::scene::{attraction, centroid, isqrt};
use rendercore::vec3::Vec3;

fn solid_gray() -> ColorScheme {
    ColorScheme::Solid(Color { r: FP / 2, g: FP / 2, b: FP / 2 })
}

fn frame_params() -> Params {
    Params { program: 7, camera: Mat4::identity(), clock: 123, width: 800, height: 600 }
}

#[test]
fn advance_position_is_additive() {
    let mut split = physics::new(10 * FP, -3 * FP, 555);
    split.vel = Vec3::new(97, -55, 1234);
    split.ang = Vec3::new(3, -2, 5);
    let mut whole = split;
    split.move_(2000);
    split.move_(3000);
    whole.move_(5000);
    assert_eq!(split.pos, whole.pos);
    assert_eq!(split.vel, whole.vel);
    assert_eq!(split.ang, whole.ang);
}

#[test]
fn advance_zero_changes_nothing() {
    let mut p = physics::new(FP, 2 * FP, 3 * FP);
    p.vel = Vec3::new(100, 200, 300);
    p.ang = Vec3::new(7, 8, 9);
    let before = p;
    p.move_(0);
    // bit for bit: position, velocity, orientation and rates
    assert_eq!(p, before);
    // a step without angular velocity leaves the orientation alone too
    let mut straight = physics::new(0, 0, 0);
    straight.vel = Vec3::new(50, 0, 0);
    let rot_before = straight.rot;
    straight.move_(1000);
    assert_eq!(straight.rot, rot_before);
    assert_eq!(straight.pos, Vec3::new(50000, 0, 0));
}

#[test]
fn basis_vectors_stay_orthonormal_through_steps() {
    let mut p = physics::new(0, 0, 0);
    p.ang = Vec3::new(211, -97, 153);
    for _ in 0..200 {
        p.move_(1000);
    }
    // the stored orientation stays within its bound
    assert!(p.rot.w.abs() <= 4096);
    assert!(p.rot.x.abs() <= 4096);
    assert!(p.rot.y.abs() <= 4096);
    assert!(p.rot.z.abs() <= 4096);
    assert!(p.rot.w != 0 || p.rot.x != 0 || p.rot.y != 0 || p.rot.z != 0);
    let (dx, dy, dz) = p.direction();
    // fixed-point dot products of the basis vectors: zero up to rounding
    let dot = |a: Vec3, b: Vec3| -> i64 { a.x * b.x + a.y * b.y + a.z * b.z };
    let tol = 8 * FP; // each component rounds by under one fixed-point unit
    assert!(dot(dx, dy).abs() <= tol, "x.y = {}", dot(dx, dy));
    assert!(dot(dx, dz).abs() <= tol, "x.z = {}", dot(dx, dz));
    assert!(dot(dy, dz).abs() <= tol, "y.z = {}", dot(dy, dz));
    // and each has unit length up to rounding
    assert!((dot(dx, dx) - FP * FP).abs() <= tol * FP);
    assert!((dot(dy, dy) - FP * FP).abs() <= tol * FP);
    assert!((dot(dz, dz) - FP * FP).abs() <= tol * FP);
}

#[test]
fn rectangle_mesh_extents() {
    let r = rectangle::new(0, 0, 0, 10 * FP, 4 * FP, solid_gray());
    assert_eq!(r.gfx.mesh.len(), 2);
    let mut count = 0;
    for t in r.gfx.mesh.iter() {
        for p in [t.a, t.b, t.c] {
            assert_eq!(p.x.abs(), 5 * FP);
            assert_eq!(p.y.abs(), 2 * FP);
            assert_eq!(p.z, 0);
            count += 1;
        }
    }
    assert_eq!(count, 6);
}

#[test]
fn cube_mesh_bounding_box() {
    let c = cube::new(0, 0, 0, 2 * FP, 4 * FP, 6 * FP, solid_gray());
    assert_eq!(c.gfx.mesh.len(), 12);
    let mut max = (i64::MIN, i64::MIN, i64::MIN);
    let mut min = (i64::MAX, i64::MAX, i64::MAX);
    let mut vertices = 0;
    for t in c.gfx.mesh.iter() {
        for p in [t.a, t.b, t.c] {
            assert_eq!(p.x.abs(), FP);
            assert_eq!(p.y.abs(), 2 * FP);
            assert_eq!(p.z.abs(), 3 * FP);
            max = (max.0.max(p.x), max.1.max(p.y), max.2.max(p.z));
            min = (min.0.min(p.x), min.1.min(p.y), min.2.min(p.z));
            vertices += 1;
        }
    }
    assert_eq!(vertices, 36);
    assert_eq!(max, (FP, 2 * FP, 3 * FP));
    assert_eq!(min, (-FP, -2 * FP, -3 * FP));
}

#[test]
fn vertex_buffer_is_interleaved() {
    let scheme = ColorScheme::Alternating(
        Color { r: FP, g: 0, b: 0 },
        Color { r: 0, g: FP, b: 0 },
    );
    let r = rectangle::new(0, 0, 0, 2 * FP, 2 * FP, scheme);
    // 6 values per vertex, 3 vertices per triangle, 2 triangles
    assert_eq!(r.gfx.buffer.len(), 6 * r.gfx.mesh.len() * 3);
    assert_eq!(r.gfx.buffer.len(), 36);
    // first vertex: position of the top-left corner, then the even color
    assert_eq!(&r.gfx.buffer[0..6], &[-FP, FP, 0, FP, 0, 0]);
    // second vertex: bottom-right corner, odd color
    assert_eq!(&r.gfx.buffer[6..12], &[FP, -FP, 0, 0, FP, 0]);
    // fourth vertex (index 3, second triangle's first): even color again
    assert_eq!(&r.gfx.buffer[18..24], &[-FP, FP, 0, 0, FP, 0]);
}

#[test]
fn draw_call_counts_vertices_exactly() {
    let params = frame_params();
    let r = rectangle::new(0, 0, 0, 2 * FP, 2 * FP, solid_gray());
    let rect_draw = r.render(&params);
    assert_eq!(rect_draw.vertex_count, 6);
    assert_eq!(rect_draw.floats_per_vertex, 6);
    assert_eq!(rect_draw.position_offset, 0);
    assert_eq!(rect_draw.color_offset, 3);
    assert_eq!(rect_draw.program, 7);
    assert_eq!(rect_draw.clock, 123);
    assert_eq!(rect_draw.width, 800);
    assert_eq!(rect_draw.height, 600);
    // a mesh with more triangles changes the count proportionally
    let c = cube::new(0, 0, 0, FP, FP, FP, solid_gray());
    let cube_draw = c.render(&params);
    assert_eq!(cube_draw.vertex_count, 36);
    // and nothing of the rectangle's call depended on the cube
    assert_eq!(rect_draw.vertex_count, 6);
}

#[test]
fn draw_call_model_matrix_translates() {
    let params = frame_params();
    let c = cube::new(5 * FP, -6 * FP, 7 * FP, FP, FP, FP, solid_gray());
    let draw = c.render(&params);
    // identity rotation, unit scale: rotation block is the identity
    assert_eq!(draw.model.m00, FP);
    assert_eq!(draw.model.m11, FP);
    assert_eq!(draw.model.m22, FP);
    assert_eq!(draw.model.m01, 0);
    // translation column carries the position
    assert_eq!(draw.model.m03, 5 * FP);
    assert_eq!(draw.model.m13, -6 * FP);
    assert_eq!(draw.model.m23, 7 * FP);
    // affine bottom row
    assert_eq!(draw.model.m30, 0);
    assert_eq!(draw.model.m33, FP);
}

#[test]
fn camera_transformation_is_deterministic() {
    let fov = 51471; // about a quarter of a turn and a half short: pi/4
    let cam = camera::new(0, 0, -150 * FP, FP, fov);
    let first = cam.transformation();
    let second = cam.transformation();
    assert_eq!(first, second);
}

#[test]
fn camera_focal_value() {
    let fov = 51471;
    let cam = camera::new(0, 0, 0, FP, fov);
    // the same series, written out: t + t^3/3 + 2 t^5/15 at t = fov/2
    let h = fov / 2;
    let h2 = h * h / FP;
    let h4 = h2 * h2 / FP;
    let tan = h + h * h2 / (3 * FP) + 2 * (h * h4) / (15 * FP);
    let f = FP * FP / tan;
    assert_eq!(cam.perspective.m11, f);
    assert_eq!(cam.perspective.m00, f); // aspect ratio 1
    assert_eq!(cam.perspective.m32, -FP);
    assert!(cam.perspective.m22 < 0);
    assert!(cam.perspective.m23 < 0);
}

#[test]
fn camera_move_shifts_view_translation_exactly() {
    let fov = 51471;
    let mut cam = camera::new(3 * FP, 4 * FP, 5 * FP, FP, fov);
    let v1 = cam.view_matrix();
    let t1 = cam.transformation();
    // identity orientation: the view carries the position through its
    // diag(-1, 1, -1) look-at block
    assert_eq!(v1.m03, 3 * FP);
    assert_eq!(v1.m13, -4 * FP);
    assert_eq!(v1.m23, 5 * FP);
    cam.phys.pos = Vec3::new(13 * FP, 3 * FP, -2 * FP);
    let v2 = cam.view_matrix();
    let t2 = cam.transformation();
    // the view translation moved by exactly the displacement, taken
    // into the view frame
    assert_eq!(v2.m03 - v1.m03, 10 * FP);
    assert_eq!(v2.m13 - v1.m13, FP);
    assert_eq!(v2.m23 - v1.m23, -7 * FP);
    // the projection part of the view-projection is untouched
    assert_eq!(t1.m00, t2.m00);
    assert_eq!(t1.m01, t2.m01);
    assert_eq!(t1.m02, t2.m02);
    assert_eq!(t1.m10, t2.m10);
    assert_eq!(t1.m11, t2.m11);
    assert_eq!(t1.m12, t2.m12);
    assert_eq!(t1.m20, t2.m20);
    assert_eq!(t1.m21, t2.m21);
    assert_eq!(t1.m22, t2.m22);
    assert_eq!(t1.m30, t2.m30);
    assert_eq!(t1.m31, t2.m31);
    assert_eq!(t1.m32, t2.m32);
    // while the translation column did change
    assert_ne!(t1.m03, t2.m03);
}

#[test]
fn axes_have_six_triangles_in_three_colors() {
    let a = axes::new();
    assert_eq!(a.gfx.mesh.len(), 6);
    assert_eq!(a.gfx.buffer.len(), 108);
    // first rectangle is long in x and red
    assert_eq!(a.gfx.mesh[0].a.x.abs(), 32768000);
    assert_eq!(a.gfx.mesh[0].a.y.abs(), 6553);
    assert_eq!(a.gfx.mesh[0].a.z, 0);
    assert_eq!(&a.gfx.buffer[3..6], &[FP, 0, 0]);
    // vertex 6 starts the y rectangle: green, long in y
    assert_eq!(a.gfx.mesh[2].a.y.abs(), 32768000);
    assert_eq!(&a.gfx.buffer[6 * 6 + 3..6 * 6 + 6], &[0, FP, 0]);
    // vertex 12 starts the z rectangle: blue, long in z, flat in y
    assert_eq!(a.gfx.mesh[4].a.z.abs(), 32768000);
    assert_eq!(a.gfx.mesh[4].a.y, 0);
    assert_eq!(&a.gfx.buffer[12 * 6 + 3..12 * 6 + 6], &[0, 0, FP]);
}

#[test]
fn color_scheme_is_pure_and_ranged() {
    let s = ColorScheme::Ranged(
        Color { r: FP, g: 0, b: 0 },
        Color { r: 0, g: FP, b: 0 },
        Color { r: 0, g: 0, b: FP },
    );
    assert_eq!(s.color_at(0).r, FP);
    assert_eq!(s.color_at(5).r, FP);
    assert_eq!(s.color_at(6).g, FP);
    assert_eq!(s.color_at(11).g, FP);
    assert_eq!(s.color_at(12).b, FP);
    assert_eq!(s.color_at(100).b, FP);
    let alt = ColorScheme::Alternating(Color { r: 1, g: 2, b: 3 }, Color { r: 4, g: 5, b: 6 });
    assert_eq!(alt.color_at(0).r, 1);
    assert_eq!(alt.color_at(1).r, 4);
    assert_eq!(alt.color_at(2).r, 1);
    // the same index always gives the same color
    assert_eq!(alt.color_at(9), alt.color_at(9));
}

#[test]
fn rectangle_vertices_transform_to_world_space() {
    let mut r = rectangle::new(0, 0, 0, 2 * FP, 2 * FP, solid_gray());
    r.phys.pos = Vec3::new(10 * FP, 0, 0);
    let world = r.vertices();
    assert_eq!(world.len(), 2);
    // reversed order: the first world triangle is the second local one
    assert_eq!(world[0].a, Vec3::new(9 * FP, FP, 0));
    assert_eq!(world[0].b, Vec3::new(9 * FP, -FP, 0));
    assert_eq!(world[0].c, Vec3::new(11 * FP, -FP, 0));
    assert_eq!(world[1].a, Vec3::new(9 * FP, FP, 0));
    assert_eq!(world[1].b, Vec3::new(11 * FP, -FP, 0));
    assert_eq!(world[1].c, Vec3::new(11 * FP, FP, 0));
}

#[test]
fn key_actions_match_the_bindings() {
    assert_eq!(action_for_key(Key::Escape), Action::Quit);
    assert_eq!(action_for_key(Key::W), Action::Forward);
    assert_eq!(action_for_key(Key::S), Action::Backward);
    assert_eq!(action_for_key(Key::D), Action::Right);
    assert_eq!(action_for_key(Key::A), Action::Left);
    assert_eq!(action_for_key(Key::ArrowDown), Action::PanDown);
    assert_eq!(action_for_key(Key::ArrowUp), Action::PanUp);
    assert_eq!(action_for_key(Key::ArrowRight), Action::PanRight);
    assert_eq!(action_for_key(Key::ArrowLeft), Action::PanLeft);
    assert_eq!(action_for_key(Key::Space), Action::Stop);
    assert_eq!(action_for_key(Key::Q), Action::YawLeft);
    assert_eq!(action_for_key(Key::E), Action::YawRight);
    assert_eq!(action_for_key(Key::RightBracket), Action::TimeFaster);
    assert_eq!(action_for_key(Key::LeftBracket), Action::TimeSlower);
    assert_eq!(action_for_key(Key::Semicolon), Action::BoxFaster);
    assert_eq!(action_for_key(Key::Quote), Action::BoxSlower);
    assert_eq!(action_for_key(Key::Other), Action::Continue);
}

#[test]
fn quarter_turn_spins_the_basis() {
    let mut p = physics::new(0, 0, 0);
    // a quarter turn about x, exactly
    p.rot = Quat { w: 1, x: -1, y: 0, z: 0 };
    let (dx, dy, dz) = p.direction();
    assert_eq!(dx, Vec3::new(FP, 0, 0));
    assert_eq!(dy, Vec3::new(0, 0, -FP));
    assert_eq!(dz, Vec3::new(0, FP, 0));
}

#[test]
fn isqrt_exact_values() {
    assert_eq!(isqrt(0), 0);
    assert_eq!(isqrt(1), 1);
    assert_eq!(isqrt(3), 1);
    assert_eq!(isqrt(4), 2);
    assert_eq!(isqrt(24), 4);
    assert_eq!(isqrt(25), 5);
    assert_eq!(isqrt(0x3FFF_FFFF_FFFF_FFFF), 0x7FFF_FFFF);
}

#[test]
fn centroid_is_the_component_mean() {
    let ps = vec![
        Vec3::new(FP, 2 * FP, -3 * FP),
        Vec3::new(3 * FP, 2 * FP, -3 * FP),
        Vec3::new(5 * FP, 5 * FP, 0),
    ];
    let c = centroid(&ps);
    assert_eq!(c.x, 3 * FP);
    assert_eq!(c.y, 3 * FP);
    assert_eq!(c.z, -2 * FP);
}

#[test]
fn attraction_follows_the_inverse_square() {
    let pos = Vec3::new(0, 0, 0);
    let target = Vec3::new(3 * FP, 4 * FP, 0);
    // distance exactly 5: the nudge is the offset over 25, times the gain
    let a = attraction(pos, target, FP, 5 * FP);
    assert_eq!(a.x, 3 * FP / 25);
    assert_eq!(a.y, 4 * FP / 25);
    assert_eq!(a.z, 0);
}

#[test]
fn attraction_clamps_the_minimum_distance() {
    // a body one six-hundredth of a unit from its target: the divisor
    // is the cap, not the true distance, so the nudge stays tiny
    let pos = Vec3::new(0, 0, 0);
    let target = Vec3::new(100, 0, 0);
    let a = attraction(pos, target, FP, 5 * FP);
    assert_eq!(a.x, 4);
    assert_eq!(a.y, 0);
    assert_eq!(a.z, 0);
    // a body exactly on its target is not pushed at all
    let b = attraction(target, target, FP, 5 * FP);
    assert_eq!(b, Vec3::new(0, 0, 0));
}

#[test]
fn vector_sum_and_difference() {
    let a = Vec3::new(5, -7, 9);
    let b = Vec3::new(1, 2, -3);
    assert_eq!(a.add(b), Vec3::new(6, -5, 6));
    assert_eq!(a.sub(b), Vec3::new(4, -9, 12));
}

#[test]
fn camera_faces_its_forward_axis() {
    // identity orientation at the origin: the camera looks along +z
    let cam = camera::new(0, 0, 0, FP, 51471);
    let v = cam.view_matrix();
    // look-at block diag(-1, 1, -1): forward goes to -z
    assert_eq!(v.m00, -FP);
    assert_eq!(v.m11, FP);
    assert_eq!(v.m22, -FP);
    let t = cam.transformation();
    // clip w of a point p is row 3 of the transform applied to (p, 1):
    // a point ahead of the camera must get a positive w
    assert_eq!(t.m30, 0);
    assert_eq!(t.m31, 0);
    assert_eq!(t.m32, FP);
    assert_eq!(t.m33, 0);
    let ahead = Vec3::new(0, 0, 10 * FP);
    let w = (t.m30 * ahead.x + t.m31 * ahead.y + t.m32 * ahead.z + t.m33 * FP) / FP;
    assert!(w > 0, "a point ahead of the camera must be in front: w = {}", w);
}

fn doubled_area(ax: i64, ay: i64, bx: i64, by: i64, cx: i64, cy: i64) -> i64 {
    (bx - ax) * (cy - ay) - (cx - ax) * (by - ay)
}

#[test]
fn rectangle_triangles_share_one_winding() {
    let r = rectangle::new(0, 0, 0, 10 * FP, 4 * FP, solid_gray());
    for t in r.gfx.mesh.iter() {
        let area = doubled_area(t.a.x, t.a.y, t.b.x, t.b.y, t.c.x, t.c.y);
        assert!(area > 0, "front face must be toward +z: area = {}", area);
        assert_eq!(area, 4 * (5 * FP) * (2 * FP));
    }
}

#[test]
fn cube_faces_wind_outward() {
    let c = cube::new(0, 0, 0, 2 * FP, 4 * FP, 6 * FP, solid_gray());
    for t in c.gfx.mesh.iter() {
        // each face's triangle lies in a plane where one coordinate is
        // pinned at +-half; its normal must point out of the box
        if t.a.z == t.b.z && t.b.z == t.c.z {
            let area = doubled_area(t.a.x, t.a.y, t.b.x, t.b.y, t.c.x, t.c.y);
            assert_eq!(area.signum(), t.a.z.signum(), "z face winds inward");
        } else if t.a.x == t.b.x && t.b.x == t.c.x {
            let area = doubled_area(t.a.y, t.a.z, t.b.y, t.b.z, t.c.y, t.c.z);
            assert_eq!(area.signum(), t.a.x.signum(), "x face winds inward");
        } else {
            assert!(t.a.y == t.b.y && t.b.y == t.c.y);
            let area = doubled_area(t.a.z, t.a.x, t.b.z, t.b.x, t.c.z, t.c.x);
            assert_eq!(area.signum(), t.a.y.signum(), "y face winds inward");
        }
    }
}

#[test]
fn axes_triangles_share_one_winding_per_rectangle() {
    let a = axes::new();
    // the x and y rectangles lie in the xy plane, front toward +z
    for t in a.gfx.mesh.iter().take(4) {
        let area = doubled_area(t.a.x, t.a.y, t.b.x, t.b.y, t.c.x, t.c.y);
        assert!(area > 0);
    }
    // the z rectangle was turned a quarter turn about x: its front,
    // formerly +z, now faces +y
    for t in a.gfx.mesh.iter().skip(4) {
        let area = doubled_area(t.a.z, t.a.x, t.b.z, t.b.x, t.c.z, t.c.x);
        assert!(area > 0);
    }
}
