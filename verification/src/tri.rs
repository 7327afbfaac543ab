//! Triangle rasterization with exact barycentric weights.
//!
//! The triangle's bounding box is scanned with the rectangle rasterizer and
//! each candidate point is kept iff its first two barycentric coordinates are
//! non-negative and sum to at most one. Weights are kept exact: each accepted
//! point carries the three barycentric numerators and the determinant they
//! are divided by; a degenerate triangle (determinant zero) accepts nothing.

use vstd::math::{max, min};
use vstd::prelude::*;

use crate::rect::{self, rect_seq, Rectangle};
use crate::renderer::{Coord, Drawable, RasterIter};
use crate::{lemma_prod_bound, point_in_range, Point2, COORD_BOUND};

verus! {

/// Twice the signed area of the triangle `(v1, v2, v3)`.
pub open spec fn tri_det(v1: (int, int), v2: (int, int), v3: (int, int)) -> int {
    (v2.1 - v3.1) * (v1.0 - v3.0) + (v3.0 - v2.0) * (v1.1 - v3.1)
}

/// Numerator of the first barycentric coordinate of `p` in `(v1, v2, v3)`:
/// the first coordinate itself is this divided by the determinant.
pub open spec fn tri_n1(v2: (int, int), v3: (int, int), p: (int, int)) -> int {
    (v2.1 - v3.1) * (p.0 - v3.0) + (v3.0 - v2.0) * (p.1 - v3.1)
}

/// Numerator of the second barycentric coordinate of `p` in `(v1, v2, v3)`.
pub open spec fn tri_n2(v1: (int, int), v3: (int, int), p: (int, int)) -> int {
    (v3.1 - v1.1) * (p.0 - v3.0) + (v1.0 - v3.0) * (p.1 - v3.1)
}

/// The containment rule: `p1 >= 0 && p2 >= 0 && p1 + p2 <= 1` over the
/// rational coordinates `n1 / det` and `n2 / det`, written without division.
/// A degenerate triangle (determinant zero) accepts no point at all.
pub open spec fn tri_accepts(v1: (int, int), v2: (int, int), v3: (int, int), p: (int, int)) -> bool {
    let det = tri_det(v1, v2, v3);
    let n1 = tri_n1(v2, v3, p);
    let n2 = tri_n2(v1, v3, p);
    if det > 0 {
        n1 >= 0 && n2 >= 0 && n1 + n2 <= det
    } else if det < 0 {
        n1 <= 0 && n2 <= 0 && n1 + n2 >= det
    } else {
        false
    }
}

/// The subsequence of `s` accepted by the containment rule, in order.
pub open spec fn accepted_seq(
    v1: (int, int),
    v2: (int, int),
    v3: (int, int),
    s: Seq<(int, int)>,
) -> Seq<(int, int)>
    decreases s.len(),
{
    if s.len() == 0 {
        Seq::empty()
    } else {
        let rest = accepted_seq(v1, v2, v3, s.skip(1));
        if tri_accepts(v1, v2, v3, s[0]) {
            seq![s[0]] + rest
        } else {
            rest
        }
    }
}

/// A degenerate triangle accepts no point of any scan sequence.
proof fn lemma_accepted_seq_degenerate(
    v1: (int, int),
    v2: (int, int),
    v3: (int, int),
    s: Seq<(int, int)>,
)
    requires
        tri_det(v1, v2, v3) == 0,
    ensures
        accepted_seq(v1, v2, v3, s) == Seq::<(int, int)>::empty(),
    decreases s.len(),
{
    if s.len() > 0 {
        lemma_accepted_seq_degenerate(v1, v2, v3, s.skip(1));
        assert(accepted_seq(v1, v2, v3, s) =~= Seq::<(int, int)>::empty());
    }
}

/// Exact barycentric weights of one accepted triangle point: the three
/// numerators, each to be divided by the determinant. The numerators always
/// sum to the determinant, so the three rational weights sum to one exactly;
/// see [`TriWeight::weights_sum_to_det`].
#[derive(Clone, Copy, Debug)]
pub struct TriWeight {
    n1: i64,
    n2: i64,
    n3: i64,
    det: i64,
}

impl TriWeight {
    /// The first numerator, as a mathematical integer.
    pub closed spec fn spec_n1(&self) -> int {
        self.n1 as int
    }

    /// The second numerator, as a mathematical integer.
    pub closed spec fn spec_n2(&self) -> int {
        self.n2 as int
    }

    /// The third numerator, as a mathematical integer.
    pub closed spec fn spec_n3(&self) -> int {
        self.n3 as int
    }

    /// The common denominator, as a mathematical integer.
    pub closed spec fn spec_det(&self) -> int {
        self.det as int
    }

    #[verifier::type_invariant]
    spec fn inv(&self) -> bool {
        self.n1 as int + self.n2 as int + self.n3 as int == self.det as int
    }

    /// The numerator of the first barycentric coordinate.
    pub fn n1(&self) -> (r: i64)
        ensures
            r as int == self.spec_n1(),
    {
        self.n1
    }

    /// The numerator of the second barycentric coordinate.
    pub fn n2(&self) -> (r: i64)
        ensures
            r as int == self.spec_n2(),
    {
        self.n2
    }

    /// The numerator of the third barycentric coordinate.
    pub fn n3(&self) -> (r: i64)
        ensures
            r as int == self.spec_n3(),
    {
        self.n3
    }

    /// The common denominator of the three barycentric coordinates.
    pub fn det(&self) -> (r: i64)
        ensures
            r as int == self.spec_det(),
    {
        self.det
    }

    /// The three barycentric coordinates of the weight sum to one exactly:
    /// the numerators sum to the shared denominator, by construction of the
    /// third numerator.
    pub fn weights_sum_to_det(&self)
        ensures
            self.spec_n1() + self.spec_n2() + self.spec_n3() == self.spec_det(),
    {
        proof {
            use_type_invariant(self);
        }
    }
}

/// A rasterized triangle point: the grid point and its exact weights.
pub type Coordinate = (Point2, TriWeight);

impl Coord for (Point2, TriWeight) {
    open spec fn point_spec(&self) -> (int, int) {
        (self.0.0 as int, self.0.1 as int)
    }

    open spec fn weights_spec(&self) -> Option<Seq<int>> {
        Some(seq![self.1.spec_n1(), self.1.spec_n2(), self.1.spec_n3()])
    }

    fn point(&self) -> (p: Point2) {
        self.0
    }

    fn barycentric(&self) -> (r: Option<Vec<i64>>) {
        let v = vec![self.1.n1(), self.1.n2(), self.1.n3()];
        proof {
            assert(self.weights_spec().unwrap() =~= v@.map_values(|w: i64| w as int));
        }
        Some(v)
    }
}

/// A triangle given by three vertices. The vertex order decides the sign of
/// the determinant but not the final weight values.
#[derive(Clone, Copy, Debug)]
pub struct Triangle {
    points: [Point2; 3],
}

impl Triangle {
    /// The first vertex, as a mathematical pair.
    pub closed spec fn spec_v1(&self) -> (int, int) {
        (self.points[0].0 as int, self.points[0].1 as int)
    }

    /// The second vertex, as a mathematical pair.
    pub closed spec fn spec_v2(&self) -> (int, int) {
        (self.points[1].0 as int, self.points[1].1 as int)
    }

    /// The third vertex, as a mathematical pair.
    pub closed spec fn spec_v3(&self) -> (int, int) {
        (self.points[2].0 as int, self.points[2].1 as int)
    }

    #[verifier::type_invariant]
    spec fn inv(&self) -> bool {
        point_in_range(self.spec_v1()) && point_in_range(self.spec_v2()) && point_in_range(
            self.spec_v3(),
        )
    }

    /// Create a triangle from its three vertices.
    pub fn with_points(points: [Point2; 3]) -> (t: Triangle)
        requires
            point_in_range((points[0].0 as int, points[0].1 as int)),
            point_in_range((points[1].0 as int, points[1].1 as int)),
            point_in_range((points[2].0 as int, points[2].1 as int)),
        ensures
            t.spec_v1() == (points[0].0 as int, points[0].1 as int),
            t.spec_v2() == (points[1].0 as int, points[1].1 as int),
            t.spec_v3() == (points[2].0 as int, points[2].1 as int),
    {
        Triangle { points }
    }

    /// Twice the signed area of the triangle.
    pub fn det(&self) -> (d: i64)
        ensures
            d as int == tri_det(self.spec_v1(), self.spec_v2(), self.spec_v3()),
    {
        proof {
            use_type_invariant(self);
        }
        let (x1, y1) = self.points[0];
        let (x2, y2) = self.points[1];
        let (x3, y3) = self.points[2];
        proof {
            lemma_prod_bound(y2 as int - y3 as int, x1 as int - x3 as int);
            lemma_prod_bound(x3 as int - x2 as int, y1 as int - y3 as int);
        }
        (y2 - y3) * (x1 - x3) + (x3 - x2) * (y1 - y3)
    }
}

/// A degenerate triangle (collinear vertices, determinant zero) rasterizes
/// to the empty sequence.
pub proof fn lemma_degenerate_triangle_empty(t: Triangle)
    requires
        tri_det(t.spec_v1(), t.spec_v2(), t.spec_v3()) == 0,
    ensures
        t.points_spec() == Seq::<(int, int)>::empty(),
{
    lemma_accepted_seq_degenerate(
        t.spec_v1(),
        t.spec_v2(),
        t.spec_v3(),
        rect_seq(
            min(min(t.spec_v1().0, t.spec_v2().0), t.spec_v3().0),
            max(max(t.spec_v1().0, t.spec_v2().0), t.spec_v3().0),
            min(min(t.spec_v1().1, t.spec_v2().1), t.spec_v3().1),
            max(max(t.spec_v1().1, t.spec_v2().1), t.spec_v3().1),
        ),
    );
}

impl Drawable for Triangle {
    type Iter = IntoIter;

    open spec fn vertices_spec(&self) -> int {
        3
    }

    open spec fn points_spec(&self) -> Seq<(int, int)> {
        accepted_seq(
            self.spec_v1(),
            self.spec_v2(),
            self.spec_v3(),
            rect_seq(
                min(min(self.spec_v1().0, self.spec_v2().0), self.spec_v3().0),
                max(max(self.spec_v1().0, self.spec_v2().0), self.spec_v3().0),
                min(min(self.spec_v1().1, self.spec_v2().1), self.spec_v3().1),
                max(max(self.spec_v1().1, self.spec_v2().1), self.spec_v3().1),
            ),
        )
    }

    fn vertices(&self) -> (n: usize) {
        3
    }

    fn into_iter(self) -> (it: IntoIter) {
        proof {
            use_type_invariant(&self);
        }
        let det = self.det();
        let p = self.points;
        let (x1, y1) = p[0];
        let (x2, y2) = p[1];
        let (x3, y3) = p[2];
        let min_x = if x1 < x2 {
            x1
        } else {
            x2
        };
        let min_x = if min_x < x3 {
            min_x
        } else {
            x3
        };
        let max_x = if x1 > x2 {
            x1
        } else {
            x2
        };
        let max_x = if max_x > x3 {
            max_x
        } else {
            x3
        };
        let min_y = if y1 < y2 {
            y1
        } else {
            y2
        };
        let min_y = if min_y < y3 {
            min_y
        } else {
            y3
        };
        let max_y = if y1 > y2 {
            y1
        } else {
            y2
        };
        let max_y = if max_y > y3 {
            max_y
        } else {
            y3
        };
        let rect_it = Rectangle::new(min_x, max_x, min_y, max_y).into_iter();
        let it = IntoIter { det, rect: rect_it, points: p };
        proof {
            assert(min_x as int == min(min(self.spec_v1().0, self.spec_v2().0), self.spec_v3().0));
            assert(max_x as int == max(max(self.spec_v1().0, self.spec_v2().0), self.spec_v3().0));
            assert(min_y as int == min(min(self.spec_v1().1, self.spec_v2().1), self.spec_v3().1));
            assert(max_y as int == max(max(self.spec_v1().1, self.spec_v2().1), self.spec_v3().1));
            assert(it.v1() == self.spec_v1());
            assert(it.v2() == self.spec_v2());
            assert(it.v3() == self.spec_v3());
            assert(rect_it.remaining() == rect_seq(
                min_x as int,
                max_x as int,
                min_y as int,
                max_y as int,
            ));
            assert(it.remaining() == self.points_spec());
        }
        it
    }
}

/// The raster stream of a [`Triangle`]: scans the bounding box and yields
/// the accepted points with their exact weights.
#[derive(Debug)]
pub struct IntoIter {
    /// The triangle's determinant.
    pub det: i64,
    /// The bounding-box scan this stream filters.
    pub rect: rect::IntoIter,
    /// The triangle's vertices.
    pub points: [Point2; 3],
}

impl IntoIter {
    /// The first vertex, as a mathematical pair.
    pub open spec fn v1(&self) -> (int, int) {
        (self.points[0].0 as int, self.points[0].1 as int)
    }

    /// The second vertex, as a mathematical pair.
    pub open spec fn v2(&self) -> (int, int) {
        (self.points[1].0 as int, self.points[1].1 as int)
    }

    /// The third vertex, as a mathematical pair.
    pub open spec fn v3(&self) -> (int, int) {
        (self.points[2].0 as int, self.points[2].1 as int)
    }
}

impl RasterIter for IntoIter {
    type Item = (Point2, TriWeight);

    open spec fn wf(&self) -> bool {
        &&& self.rect.wf()
        &&& point_in_range(self.v1())
        &&& point_in_range(self.v2())
        &&& point_in_range(self.v3())
        &&& self.det as int == tri_det(self.v1(), self.v2(), self.v3())
        &&& -COORD_BOUND <= self.rect.x0
        &&& self.rect.x1 <= COORD_BOUND
        &&& -COORD_BOUND <= self.rect.y
        &&& self.rect.y1 <= COORD_BOUND
    }

    open spec fn remaining(&self) -> Seq<(int, int)> {
        accepted_seq(self.v1(), self.v2(), self.v3(), self.rect.remaining())
    }

    fn next(&mut self) -> (r: Option<(Point2, TriWeight)>)
        ensures
            match r {
                Some(c) => {
                    &&& c.1.spec_n1() == tri_n1(old(self).v2(), old(self).v3(), c.point_spec())
                    &&& c.1.spec_n2() == tri_n2(old(self).v1(), old(self).v3(), c.point_spec())
                    &&& c.1.spec_det() == tri_det(old(self).v1(), old(self).v2(), old(self).v3())
                    &&& c.1.spec_n1() + c.1.spec_n2() + c.1.spec_n3() == c.1.spec_det()
                    &&& tri_accepts(old(self).v1(), old(self).v2(), old(self).v3(), c.point_spec())
                },
                None => true,
            },
    {
        loop
            invariant
                self.wf(),
                self.points == old(self).points,
                self.det == old(self).det,
                self.remaining() == old(self).remaining(),
            decreases self.rect.remaining().len(),
        {
            let ghost rect_pre = self.rect;
            match self.rect.next() {
                None => {
                    return None;
                },
                Some(p) => {
                    proof {
                        rect::lemma_remaining_bounds(rect_pre, 0);
                    }
                    let (px, py) = p;
                    let (x1, y1) = self.points[0];
                    let (x2, y2) = self.points[1];
                    let (x3, y3) = self.points[2];
                    proof {
                        lemma_prod_bound(y2 as int - y3 as int, px as int - x3 as int);
                        lemma_prod_bound(x3 as int - x2 as int, py as int - y3 as int);
                        lemma_prod_bound(y3 as int - y1 as int, px as int - x3 as int);
                        lemma_prod_bound(x1 as int - x3 as int, py as int - y3 as int);
                    }
                    let n1 = (y2 - y3) * (px - x3) + (x3 - x2) * (py - y3);
                    let n2 = (y3 - y1) * (px - x3) + (x1 - x3) * (py - y3);
                    let det = self.det;
                    let ok = if det > 0 {
                        n1 >= 0 && n2 >= 0 && n2 <= det - n1
                    } else if det < 0 {
                        n1 <= 0 && n2 <= 0 && n2 >= det - n1
                    } else {
                        false
                    };
                    if ok {
                        let n3 = det - n1 - n2;
                        let w = TriWeight { n1, n2, n3, det };
                        proof {
                            assert(self.remaining() =~= old(self).remaining().skip(1));
                        }
                        return Some((p, w));
                    }
                    proof {
                        assert(self.remaining() == old(self).remaining());
                    }
                },
            }
        }
    }
}

} // verus!
