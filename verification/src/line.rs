//! Line segment rasterization with exact interpolation data.
//!
//! The grid walk itself comes from the `line_drawing` crate; each walked
//! point is paired with the squared euclidean distance travelled from the
//! start and the squared length of the whole segment. The interpolation
//! fraction `f = |current - start| / |end - start|` is `sqrt(dist_sq /
//! len_sq)`; keeping the two squares keeps the data exact and leaves the
//! rounding policy to the caller.
//!
//! A zero-length segment walks its single point once, with both squares
//! zero: the caller decides how to read the undefined fraction.

use vstd::math::{max, min};
use vstd::prelude::*;

use crate::renderer::{Coord, Drawable, RasterIter};
use crate::{lemma_prod_bound, point_in_range, Point2};

verus! {

/// A grid point, as a mathematical pair.
pub open spec fn point_model(p: Point2) -> (int, int) {
    (p.0 as int, p.1 as int)
}

/// The grid points Bresenham's line algorithm walks from `(sx, sy)` to
/// `(ex, ey)`, in walking order, both endpoints included.
pub uninterp spec fn line_points(sx: int, sy: int, ex: int, ey: int) -> Seq<(int, int)>;

/// The squared euclidean distance between two grid points.
pub open spec fn dist_sq(a: (int, int), b: (int, int)) -> int {
    (b.0 - a.0) * (b.0 - a.0) + (b.1 - a.1) * (b.1 - a.1)
}

/// Relies on `line_drawing::Bresenham`: it walks the grid from `start` to
/// `end`, includes both endpoints, takes one step along the driving axis per
/// point, and never leaves the bounding box of the two endpoints.
#[verifier::external_body]
fn bresenham_points(start: Point2, end: Point2) -> (r: Vec<Point2>)
    requires
        point_in_range(point_model(start)),
        point_in_range(point_model(end)),
    ensures
        r@.map_values(|p: Point2| point_model(p)) == line_points(
            start.0 as int,
            start.1 as int,
            end.0 as int,
            end.1 as int,
        ),
        r@.len() == 1 + max(
            vstd::math::abs(end.0 as int - start.0 as int) as int,
            vstd::math::abs(end.1 as int - start.1 as int) as int,
        ),
        point_model(r@[0]) == point_model(start),
        point_model(r@[r@.len() - 1]) == point_model(end),
        forall|k: int|
            0 <= k < r@.len() ==> {
                &&& min(start.0 as int, end.0 as int) <= (#[trigger] r@[k]).0 as int <= max(
                    start.0 as int,
                    end.0 as int,
                )
                &&& min(start.1 as int, end.1 as int) <= r@[k].1 as int <= max(
                    start.1 as int,
                    end.1 as int,
                )
            },
{
    line_drawing::Bresenham::new(start, end).collect()
}

/// Exact interpolation data of one rasterized line point. The fraction of
/// the segment travelled at this point is `sqrt(dist_sq / len_sq)`, and the
/// two interpolation weights `[f, 1 - f]` are that fraction and one minus it.
#[derive(Clone, Copy, Debug)]
pub struct LineWeight {
    /// Squared euclidean distance from the segment's start to this point.
    pub dist_sq: i64,
    /// Squared euclidean length of the whole segment.
    pub len_sq: i64,
}

/// A rasterized line point: the grid point and its interpolation data.
pub type Coordinate = (Point2, LineWeight);

impl Coord for (Point2, LineWeight) {
    open spec fn point_spec(&self) -> (int, int) {
        (self.0.0 as int, self.0.1 as int)
    }

    open spec fn weights_spec(&self) -> Option<Seq<int>> {
        Some(seq![self.1.dist_sq as int, self.1.len_sq as int])
    }

    fn point(&self) -> (p: Point2) {
        self.0
    }

    fn barycentric(&self) -> (r: Option<Vec<i64>>) {
        let v = vec![self.1.dist_sq, self.1.len_sq];
        proof {
            assert(self.weights_spec().unwrap() =~= v@.map_values(|w: i64| w as int));
        }
        Some(v)
    }
}

/// A line segment between two grid points.
#[derive(Clone, Copy, Debug)]
pub struct Line {
    start: Point2,
    end: Point2,
}

impl Line {
    /// The start point, as a mathematical pair.
    pub closed spec fn spec_start(&self) -> (int, int) {
        point_model(self.start)
    }

    /// The end point, as a mathematical pair.
    pub closed spec fn spec_end(&self) -> (int, int) {
        point_model(self.end)
    }

    #[verifier::type_invariant]
    spec fn inv(&self) -> bool {
        point_in_range(self.spec_start()) && point_in_range(self.spec_end())
    }

    /// Create a line segment from its two endpoints.
    pub fn new(start: Point2, end: Point2) -> (l: Line)
        requires
            point_in_range(point_model(start)),
            point_in_range(point_model(end)),
        ensures
            l.spec_start() == point_model(start),
            l.spec_end() == point_model(end),
    {
        Line { start, end }
    }
}

impl Drawable for Line {
    type Iter = IntoIter;

    open spec fn vertices_spec(&self) -> int {
        2
    }

    open spec fn points_spec(&self) -> Seq<(int, int)> {
        line_points(self.spec_start().0, self.spec_start().1, self.spec_end().0, self.spec_end().1)
    }

    fn vertices(&self) -> (n: usize) {
        2
    }

    fn into_iter(self) -> (it: IntoIter)
        ensures
            it.remaining().len() == 1 + max(
                vstd::math::abs(self.spec_end().0 - self.spec_start().0) as int,
                vstd::math::abs(self.spec_end().1 - self.spec_start().1) as int,
            ),
            it.remaining()[0] == self.spec_start(),
            it.remaining().last() == self.spec_end(),
            forall|k: int|
                0 <= k < it.remaining().len() ==> {
                    &&& min(self.spec_start().0, self.spec_end().0) <= (
                    #[trigger] it.remaining()[k]).0 <= max(self.spec_start().0, self.spec_end().0)
                    &&& min(self.spec_start().1, self.spec_end().1) <= it.remaining()[k].1 <= max(
                        self.spec_start().1,
                        self.spec_end().1,
                    )
                },
    {
        proof {
            use_type_invariant(&self);
        }
        let pts = bresenham_points(self.start, self.end);
        let (sx, sy) = self.start;
        let (ex, ey) = self.end;
        proof {
            lemma_prod_bound(ex as int - sx as int, ex as int - sx as int);
            lemma_prod_bound(ey as int - sy as int, ey as int - sy as int);
        }
        let dx = ex - sx;
        let dy = ey - sy;
        let len_sq = dx * dx + dy * dy;
        let it = IntoIter { pts, idx: 0, start: self.start, end: self.end, len_sq };
        proof {
            assert(it.remaining() =~= self.points_spec());
        }
        it
    }
}

/// The raster stream of a [`Line`]: hands out the walked grid points one by
/// one, each with its interpolation data.
#[derive(Debug)]
pub struct IntoIter {
    /// The walked grid points.
    pub pts: Vec<Point2>,
    /// Index of the next point to yield.
    pub idx: usize,
    /// The segment's start point.
    pub start: Point2,
    /// The segment's end point.
    pub end: Point2,
    /// Squared euclidean length of the segment.
    pub len_sq: i64,
}

impl RasterIter for IntoIter {
    type Item = (Point2, LineWeight);

    open spec fn wf(&self) -> bool {
        &&& self.idx <= self.pts@.len()
        &&& point_in_range(point_model(self.start))
        &&& self.len_sq as int == dist_sq(point_model(self.start), point_model(self.end))
        &&& forall|k: int|
            0 <= k < self.pts@.len() ==> point_in_range(point_model(#[trigger] self.pts@[k]))
    }

    open spec fn remaining(&self) -> Seq<(int, int)> {
        self.pts@.map_values(|p: Point2| point_model(p)).skip(self.idx as int)
    }

    fn next(&mut self) -> (r: Option<(Point2, LineWeight)>)
        ensures
            match r {
                Some(c) => {
                    &&& c.1.dist_sq as int == dist_sq(
                        point_model(old(self).start),
                        c.point_spec(),
                    )
                    &&& c.1.len_sq as int == dist_sq(
                        point_model(old(self).start),
                        point_model(old(self).end),
                    )
                },
                None => true,
            },
    {
        if self.idx < self.pts.len() {
            let p = self.pts[self.idx];
            self.idx = self.idx + 1;
            let (px, py) = p;
            let (sx, sy) = self.start;
            proof {
                lemma_prod_bound(px as int - sx as int, px as int - sx as int);
                lemma_prod_bound(py as int - sy as int, py as int - sy as int);
            }
            let dx = px - sx;
            let dy = py - sy;
            let d = dx * dx + dy * dy;
            let w = LineWeight { dist_sq: d, len_sq: self.len_sq };
            proof {
                assert(final(self).remaining() =~= old(self).remaining().skip(1));
            }
            Some((p, w))
        } else {
            proof {
                assert(old(self).remaining() =~= Seq::<(int, int)>::empty());
            }
            None
        }
    }
}

} // verus!
