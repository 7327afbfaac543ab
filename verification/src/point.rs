//! The base geometric unit: a single drawable point.

use vstd::prelude::*;

use crate::renderer::{Coord, Drawable, RasterIter};
use crate::Point2;

verus! {

impl Coord for Point2 {
    open spec fn point_spec(&self) -> (int, int) {
        (self.0 as int, self.1 as int)
    }

    open spec fn weights_spec(&self) -> Option<Seq<int>> {
        None
    }

    fn point(&self) -> (p: Point2) {
        *self
    }

    fn barycentric(&self) -> (r: Option<Vec<i64>>) {
        None
    }
}

/// Primitive drawable point.
#[derive(Clone, Copy, Debug)]
pub struct Point(pub Point2);

impl Drawable for Point {
    type Iter = IntoIter;

    open spec fn vertices_spec(&self) -> int {
        1
    }

    open spec fn points_spec(&self) -> Seq<(int, int)> {
        seq![(self.0.0 as int, self.0.1 as int)]
    }

    fn vertices(&self) -> (n: usize) {
        1
    }

    fn into_iter(self) -> (it: IntoIter) {
        let it = IntoIter { item: Some(self.0) };
        proof {
            assert(it.remaining() =~= self.points_spec());
        }
        it
    }
}

/// Yields the wrapped point exactly once.
#[derive(Debug)]
pub struct IntoIter {
    /// The point not yet yielded, if any.
    pub item: Option<Point2>,
}

impl RasterIter for IntoIter {
    type Item = Point2;

    open spec fn wf(&self) -> bool {
        true
    }

    open spec fn remaining(&self) -> Seq<(int, int)> {
        match self.item {
            Some(p) => seq![(p.0 as int, p.1 as int)],
            None => Seq::empty(),
        }
    }

    fn next(&mut self) -> (r: Option<Point2>) {
        let r = self.item;
        self.item = None;
        proof {
            if r is Some {
                assert(final(self).remaining() =~= old(self).remaining().skip(1));
            } else {
                assert(old(self).remaining() =~= Seq::<(int, int)>::empty());
            }
        }
        r
    }
}

} // verus!
