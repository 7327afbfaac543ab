//! A 2D software rasterizer over an exact integer grid.
//!
//! Geometric primitives (points, line segments, axis-aligned rectangles,
//! triangles) are scan-converted into discrete pixel coordinates, optionally
//! carrying exact per-pixel interpolation weights, and folded into a
//! double-buffered pixel store by a generic renderer.
//!
//! All coordinates are integers and every interpolation weight is kept in an
//! exact form: a triangle weight is a numerator over the triangle's
//! determinant, a line weight is a pair of squared euclidean distances. A
//! caller that wants fractional weights divides (or takes the square root)
//! itself, choosing its own precision.
#![verifier::loop_isolation(false)]

use vstd::prelude::*;

pub mod line;
pub mod point;
pub mod rect;
pub mod renderer;
pub mod shape;
pub mod tri;

pub use line::Line;
pub use point::Point;
pub use rect::Rectangle;
pub use renderer::{Coord, Drawable, RasterIter, Renderer, SimpleRenderer};
pub use shape::Shape;
pub use tri::Triangle;

verus! {

/// A 2D euclidean grid point.
pub type Point2 = (i64, i64);

/// Largest magnitude a line or triangle vertex coordinate may have: keeps
/// every intermediate product of coordinate differences within `i64`.
pub const COORD_BOUND: i64 = 1_000_000_000;

/// True when a coordinate lies within the range the line and triangle
/// rasterizers accept.
pub open spec fn coord_in_range(c: int) -> bool {
    -(COORD_BOUND as int) <= c <= COORD_BOUND as int
}

/// True when both coordinates of a point are in range.
pub open spec fn point_in_range(p: (int, int)) -> bool {
    coord_in_range(p.0) && coord_in_range(p.1)
}

/// A product of two differences of in-range coordinates stays well within
/// `i64`: the bound the rasterizers' weight arithmetic rests on.
pub(crate) proof fn lemma_prod_bound(a: int, b: int)
    requires
        -2_000_000_000 <= a <= 2_000_000_000,
        -2_000_000_000 <= b <= 2_000_000_000,
    ensures
        -4_000_000_000_000_000_000 <= a * b <= 4_000_000_000_000_000_000,
{
    assert(-4_000_000_000_000_000_000 <= a * b <= 4_000_000_000_000_000_000)
        by (nonlinear_arith)
        requires
            -2_000_000_000 <= a <= 2_000_000_000,
            -2_000_000_000 <= b <= 2_000_000_000,
    ;
}

} // verus!
