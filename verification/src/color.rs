//! Vertex colors and the pure index-to-color assignment.
//!
//! A color channel is fixed point: `0` is black, `FP` full intensity.
//! A [`ColorScheme`] is a pure mapping from a vertex's position in the
//! emitted sequence to its color, so the vertex buffer built once at
//! construction stays correct for the mesh's lifetime.

use crate::num::FP;
use vstd::prelude::*;

verus! {

/// An RGB color, each channel in `[0, FP]`.
#[derive(Clone, Copy, Debug, PartialEq, Eq, Structural)]
pub struct Color {
    pub r: i64,
    pub g: i64,
    pub b: i64,
}

impl Color {
    /// Channels lie in `[0, FP]`.
    pub open spec fn wf(self) -> bool {
        &&& 0 <= self.r <= FP
        &&& 0 <= self.g <= FP
        &&& 0 <= self.b <= FP
    }

    pub fn new(r: i64, g: i64, b: i64) -> (c: Color)
        ensures
            c == (Color { r, g, b }),
    {
        Color { r, g, b }
    }
}

/// A pure, deterministic mapping from vertex index to color.
#[derive(Clone, Copy, Debug, PartialEq, Eq, Structural)]
pub enum ColorScheme {
    /// Every vertex the same color.
    Solid(Color),
    /// Even-indexed vertices the first color, odd the second.
    Alternating(Color, Color),
    /// The first six vertices, the next six, and all later ones, each
    /// their own color (the axes' three rectangles).
    Ranged(Color, Color, Color),
}

impl ColorScheme {
    /// The color of vertex `i`.
    pub open spec fn spec_color_at(self, i: int) -> Color {
        match self {
            ColorScheme::Solid(c) => c,
            ColorScheme::Alternating(even, odd) => if i % 2 == 0 {
                even
            } else {
                odd
            },
            ColorScheme::Ranged(first, second, rest) => if i < 6 {
                first
            } else if i < 12 {
                second
            } else {
                rest
            },
        }
    }

    /// Every color of the scheme has its channels in `[0, FP]`.
    pub open spec fn wf(self) -> bool {
        match self {
            ColorScheme::Solid(c) => c.wf(),
            ColorScheme::Alternating(even, odd) => even.wf() && odd.wf(),
            ColorScheme::Ranged(first, second, rest) => first.wf() && second.wf() && rest.wf(),
        }
    }

    /// The color of vertex `i`.
    pub fn color_at(&self, i: usize) -> (c: Color)
        ensures
            c == self.spec_color_at(i as int),
    {
        match self {
            ColorScheme::Solid(c) => *c,
            ColorScheme::Alternating(even, odd) => if i % 2 == 0 {
                *even
            } else {
                *odd
            },
            ColorScheme::Ranged(first, second, rest) => if i < 6 {
                *first
            } else if i < 12 {
                *second
            } else {
                *rest
            },
        }
    }
}

} // verus!
