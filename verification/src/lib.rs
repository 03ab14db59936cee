//! A verified core for a small 3D rendering sandbox.
//!
//! All geometry is carried in signed 64-bit fixed-point numbers (see
//! [`num::FP`]): positions, velocities, matrix entries and colors are
//! multiples of `1 / FP`.  Orientations are integer quaternions, which
//! represent exactly orthonormal rotations without any trigonometry.
//! The modules build up from scalars to the frame loop's data:
//! vectors and quaternions, matrices, the physics state of one entity,
//! mesh builders, the renderer's vertex buffer and draw call, and the
//! camera's view-projection transform.  A thin unverified shell owns
//! the window and the graphics context and converts fixed-point values
//! to the floating-point form the graphics API expects.

pub mod num;
pub mod poly;
pub mod vec3;
pub mod quat;
pub mod mesh;
pub mod mat4;
pub mod physics;
pub mod color;
pub mod render;
pub mod rectangle;
pub mod cube;
pub mod axes;
pub mod camera;
pub mod input;
pub mod scene;
