//! Axis-aligned rectangle rasterization: the scanning substrate reused by the
//! triangle rasterizer.

use vstd::prelude::*;

use crate::renderer::{Drawable, RasterIter};
use crate::Point2;

verus! {

/// The number of columns a half-open coordinate range `[x0, x1)` spans;
/// zero when the range is reversed or empty.
pub open spec fn rect_width(x0: int, x1: int) -> int {
    if x0 < x1 {
        x1 - x0
    } else {
        0
    }
}

/// One raster row: the points `(x0, y), (x0 + 1, y), ..., (x1 - 1, y)`.
pub open spec fn row_seq(x0: int, x1: int, y: int) -> Seq<(int, int)> {
    Seq::new(rect_width(x0, x1) as nat, |i: int| (x0 + i, y))
}

/// Every grid point of the half-open box `[x0, x1) x [y0, y1)` in row-major
/// order: for y in `[y0, y1)`, for x in `[x0, x1)`, the point `(x, y)`.
/// Reversed or zero-extent bounds give the empty sequence.
pub open spec fn rect_seq(x0: int, x1: int, y0: int, y1: int) -> Seq<(int, int)>
    decreases rect_width(y0, y1),
{
    if y0 < y1 {
        row_seq(x0, x1, y0) + rect_seq(x0, x1, y0 + 1, y1)
    } else {
        Seq::empty()
    }
}

/// The rasterization of a box covers exactly `width * height` points.
pub proof fn lemma_rect_seq_len(x0: int, x1: int, y0: int, y1: int)
    ensures
        rect_seq(x0, x1, y0, y1).len() == rect_width(x0, x1) * rect_width(y0, y1),
    decreases rect_width(y0, y1),
{
    if y0 < y1 {
        lemma_rect_seq_len(x0, x1, y0 + 1, y1);
        let w = rect_width(x0, x1);
        let h = rect_width(y0, y1);
        assert(w + w * (h - 1) == w * h) by (nonlinear_arith);
    }
}

/// A reversed or zero-extent box rasterizes to the empty sequence.
pub proof fn lemma_rect_seq_empty(x0: int, x1: int, y0: int, y1: int)
    requires
        x0 >= x1 || y0 >= y1,
    ensures
        rect_seq(x0, x1, y0, y1) == Seq::<(int, int)>::empty(),
{
    lemma_rect_seq_len(x0, x1, y0, y1);
    assert(rect_width(x0, x1) * rect_width(y0, y1) == 0) by (nonlinear_arith)
        requires
            rect_width(x0, x1) == 0 || rect_width(y0, y1) == 0,
    ;
    assert(rect_seq(x0, x1, y0, y1) =~= Seq::<(int, int)>::empty());
}

/// The rasterization of a box is exactly row-major: the point in row `r`,
/// column `c` stands at index `r * width + c` and is `(x0 + c, y0 + r)`.
pub proof fn lemma_rect_seq_index(x0: int, x1: int, y0: int, y1: int, r: int, c: int)
    requires
        x0 < x1,
        0 <= r,
        y0 + r < y1,
        0 <= c < x1 - x0,
    ensures
        0 <= r * (x1 - x0) + c < rect_seq(x0, x1, y0, y1).len(),
        rect_seq(x0, x1, y0, y1)[r * (x1 - x0) + c] == (x0 + c, y0 + r),
    decreases r,
{
    let w = x1 - x0;
    lemma_rect_seq_len(x0, x1, y0, y1);
    lemma_rect_seq_len(x0, x1, y0 + 1, y1);
    if r == 0 {
        assert(rect_seq(x0, x1, y0, y1)[c] == row_seq(x0, x1, y0)[c]);
    } else {
        assert(r * w + c - w == (r - 1) * w + c) by (nonlinear_arith);
        assert((r - 1) * w >= 0) by (nonlinear_arith)
            requires
                r >= 1 && w >= 0,
        ;
        lemma_rect_seq_index(x0, x1, y0 + 1, y1, r - 1, c);
        assert(rect_seq(x0, x1, y0, y1)[r * w + c] == rect_seq(x0, x1, y0 + 1, y1)[(r - 1) * w
            + c]);
    }
}

/// Every rasterized point of a box lies within the box.
pub proof fn lemma_rect_seq_bounds(x0: int, x1: int, y0: int, y1: int, k: int)
    requires
        0 <= k < rect_seq(x0, x1, y0, y1).len(),
    ensures
        x0 <= rect_seq(x0, x1, y0, y1)[k].0 < x1,
        y0 <= rect_seq(x0, x1, y0, y1)[k].1 < y1,
    decreases rect_width(y0, y1),
{
    if y0 < y1 {
        let w = rect_width(x0, x1);
        if k < w {
            assert(rect_seq(x0, x1, y0, y1)[k] == row_seq(x0, x1, y0)[k]);
        } else {
            lemma_rect_seq_bounds(x0, x1, y0 + 1, y1, k - w);
        }
    }
}

/// Every point a rectangle stream has yet to yield lies within the stream's
/// box, at or below the stream's current row.
pub proof fn lemma_remaining_bounds(it: IntoIter, k: int)
    requires
        it.wf(),
        0 <= k < it.remaining().len(),
    ensures
        it.x0 as int <= it.remaining()[k].0 < it.x1 as int,
        it.y as int <= it.remaining()[k].1 < it.y1 as int,
{
    if it.y < it.y1 {
        let row = row_seq(it.x as int, it.x1 as int, it.y as int);
        if k >= row.len() {
            lemma_rect_seq_bounds(
                it.x0 as int,
                it.x1 as int,
                it.y as int + 1,
                it.y1 as int,
                k - row.len(),
            );
        }
    }
}

/// An axis-aligned rectangle given by four half-open scalar bounds. Reversed
/// bounds are allowed and rasterize to nothing.
#[derive(Clone, Copy, Debug)]
pub struct Rectangle {
    x0: i64,
    x1: i64,
    y0: i64,
    y1: i64,
}

impl Rectangle {
    /// The left bound, as a mathematical integer.
    pub closed spec fn spec_x0(&self) -> int {
        self.x0 as int
    }

    /// The right (excluded) bound, as a mathematical integer.
    pub closed spec fn spec_x1(&self) -> int {
        self.x1 as int
    }

    /// The top bound, as a mathematical integer.
    pub closed spec fn spec_y0(&self) -> int {
        self.y0 as int
    }

    /// The bottom (excluded) bound, as a mathematical integer.
    pub closed spec fn spec_y1(&self) -> int {
        self.y1 as int
    }

    /// Create a rectangle from its bounds; `x1` and `y1` are excluded.
    pub fn new(x0: i64, x1: i64, y0: i64, y1: i64) -> (r: Self)
        ensures
            r.spec_x0() == x0 as int,
            r.spec_x1() == x1 as int,
            r.spec_y0() == y0 as int,
            r.spec_y1() == y1 as int,
    {
        Rectangle { x0, x1, y0, y1 }
    }
}

impl Drawable for Rectangle {
    type Iter = IntoIter;

    open spec fn vertices_spec(&self) -> int {
        4
    }

    open spec fn points_spec(&self) -> Seq<(int, int)> {
        rect_seq(self.spec_x0(), self.spec_x1(), self.spec_y0(), self.spec_y1())
    }

    fn vertices(&self) -> (n: usize) {
        4
    }

    fn into_iter(self) -> (it: IntoIter)
        ensures
            it.x0 as int == self.spec_x0(),
            it.x1 as int == self.spec_x1(),
            it.y1 as int == self.spec_y1(),
            it.y as int == self.spec_y0() || it.y as int == self.spec_y1(),
    {
        let y_start = if self.x0 < self.x1 {
            self.y0
        } else {
            self.y1
        };
        let it = IntoIter { x: self.x0, y: y_start, x0: self.x0, x1: self.x1, y1: self.y1 };
        proof {
            if self.x0 < self.x1 && self.y0 < self.y1 {
                assert(it.remaining() == self.points_spec());
            } else {
                lemma_rect_seq_empty(
                    self.spec_x0(),
                    self.spec_x1(),
                    self.spec_y0(),
                    self.spec_y1(),
                );
                assert(it.remaining() =~= self.points_spec());
            }
        }
        it
    }
}

/// The raster stream of a [`Rectangle`]: walks the box row by row. The fields
/// are the iteration state; mutating them by hand merely restarts the stream
/// somewhere else.
#[derive(Debug)]
pub struct IntoIter {
    /// Column of the next point.
    pub x: i64,
    /// Row of the next point.
    pub y: i64,
    /// First column of every row.
    pub x0: i64,
    /// Excluded last column.
    pub x1: i64,
    /// Excluded last row.
    pub y1: i64,
}

impl RasterIter for IntoIter {
    type Item = Point2;

    open spec fn wf(&self) -> bool {
        self.y < self.y1 ==> self.x0 <= self.x < self.x1
    }

    open spec fn remaining(&self) -> Seq<(int, int)> {
        if self.y < self.y1 {
            row_seq(self.x as int, self.x1 as int, self.y as int) + rect_seq(
                self.x0 as int,
                self.x1 as int,
                self.y as int + 1,
                self.y1 as int,
            )
        } else {
            Seq::empty()
        }
    }

    fn next(&mut self) -> (r: Option<Point2>)
        ensures
            final(self).x0 == old(self).x0,
            final(self).x1 == old(self).x1,
            final(self).y1 == old(self).y1,
            old(self).y <= final(self).y,
    {
        if self.y < self.y1 {
            let p = (self.x, self.y);
            if self.x + 1 < self.x1 {
                self.x = self.x + 1;
                proof {
                    assert(final(self).remaining() =~= old(self).remaining().skip(1));
                }
            } else {
                self.x = self.x0;
                self.y = self.y + 1;
                proof {
                    assert(final(self).remaining() =~= old(self).remaining().skip(1));
                }
            }
            Some(p)
        } else {
            proof {
                assert(old(self).remaining() =~= Seq::<(int, int)>::empty());
            }
            None
        }
    }
}

} // verus!
