//! Uniform dispatch over the four primitive kinds.
//!
//! A [`Shape`] wraps exactly one primitive and exposes the unified vertex
//! count and point stream of the wrapped value; the weight component of line
//! and triangle coordinates is discarded, giving a plain point sequence.

use vstd::prelude::*;

use crate::line::{self, Line};
use crate::point::{self, Point};
use crate::rect::{self, Rectangle};
use crate::renderer::{Coord, Drawable, RasterIter};
use crate::tri::{self, Triangle};
use crate::Point2;

verus! {

/// A tagged union over the four primitive kinds.
#[derive(Clone, Copy, Debug)]
pub enum Shape {
    /// A single point.
    Point(Point),
    /// A line segment.
    Line(Line),
    /// An axis-aligned rectangle.
    Rect(Rectangle),
    /// A triangle.
    Tri(Triangle),
}

impl Drawable for Shape {
    type Iter = IntoIter;

    open spec fn vertices_spec(&self) -> int {
        match *self {
            Shape::Point(p) => p.vertices_spec(),
            Shape::Line(l) => l.vertices_spec(),
            Shape::Rect(r) => r.vertices_spec(),
            Shape::Tri(t) => t.vertices_spec(),
        }
    }

    open spec fn points_spec(&self) -> Seq<(int, int)> {
        match *self {
            Shape::Point(p) => p.points_spec(),
            Shape::Line(l) => l.points_spec(),
            Shape::Rect(r) => r.points_spec(),
            Shape::Tri(t) => t.points_spec(),
        }
    }

    fn vertices(&self) -> (n: usize) {
        match *self {
            Shape::Point(ref p) => p.vertices(),
            Shape::Line(ref l) => l.vertices(),
            Shape::Rect(ref r) => r.vertices(),
            Shape::Tri(ref t) => t.vertices(),
        }
    }

    fn into_iter(self) -> (it: IntoIter) {
        match self {
            Shape::Point(p) => IntoIter::Point(p.into_iter()),
            Shape::Line(l) => IntoIter::Line(l.into_iter()),
            Shape::Rect(r) => IntoIter::Rect(r.into_iter()),
            Shape::Tri(t) => IntoIter::Tri(t.into_iter()),
        }
    }
}

impl From<Point> for Shape {
    fn from(point: Point) -> (s: Shape) {
        Shape::Point(point)
    }
}

impl vstd::std_specs::convert::FromSpecImpl<Point> for Shape {
    open spec fn obeys_from_spec() -> bool {
        true
    }

    open spec fn from_spec(point: Point) -> Shape {
        Shape::Point(point)
    }
}

impl From<Line> for Shape {
    fn from(line: Line) -> (s: Shape) {
        Shape::Line(line)
    }
}

impl vstd::std_specs::convert::FromSpecImpl<Line> for Shape {
    open spec fn obeys_from_spec() -> bool {
        true
    }

    open spec fn from_spec(line: Line) -> Shape {
        Shape::Line(line)
    }
}

impl From<Rectangle> for Shape {
    fn from(rect: Rectangle) -> (s: Shape) {
        Shape::Rect(rect)
    }
}

impl vstd::std_specs::convert::FromSpecImpl<Rectangle> for Shape {
    open spec fn obeys_from_spec() -> bool {
        true
    }

    open spec fn from_spec(rect: Rectangle) -> Shape {
        Shape::Rect(rect)
    }
}

impl From<Triangle> for Shape {
    fn from(tri: Triangle) -> (s: Shape) {
        Shape::Tri(tri)
    }
}

impl vstd::std_specs::convert::FromSpecImpl<Triangle> for Shape {
    open spec fn obeys_from_spec() -> bool {
        true
    }

    open spec fn from_spec(tri: Triangle) -> Shape {
        Shape::Tri(tri)
    }
}

/// The raster stream of a [`Shape`]: delegates to the wrapped primitive's
/// stream and drops the weight component of its coordinates.
#[derive(Debug)]
pub enum IntoIter {
    /// Stream of a point.
    Point(point::IntoIter),
    /// Stream of a line segment.
    Line(line::IntoIter),
    /// Stream of a rectangle.
    Rect(rect::IntoIter),
    /// Stream of a triangle.
    Tri(tri::IntoIter),
}

impl RasterIter for IntoIter {
    type Item = Point2;

    open spec fn wf(&self) -> bool {
        match *self {
            IntoIter::Point(it) => it.wf(),
            IntoIter::Line(it) => it.wf(),
            IntoIter::Rect(it) => it.wf(),
            IntoIter::Tri(it) => it.wf(),
        }
    }

    open spec fn remaining(&self) -> Seq<(int, int)> {
        match *self {
            IntoIter::Point(it) => it.remaining(),
            IntoIter::Line(it) => it.remaining(),
            IntoIter::Rect(it) => it.remaining(),
            IntoIter::Tri(it) => it.remaining(),
        }
    }

    fn next(&mut self) -> (r: Option<Point2>) {
        match self {
            IntoIter::Point(it) => it.next(),
            IntoIter::Line(it) => match it.next() {
                Some(c) => Some(c.point()),
                None => None,
            },
            IntoIter::Rect(it) => it.next(),
            IntoIter::Tri(it) => match it.next() {
                Some(c) => Some(c.point()),
                None => None,
            },
        }
    }
}

} // verus!
