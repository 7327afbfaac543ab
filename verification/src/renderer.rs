//! Traits for rendering generic and arbitrary meshes and primitives.

use vstd::prelude::*;

use crate::Point2;

verus! {

/// A type which can represent a screenspace point and, optionally, a local
/// interpolation weight.
///
/// The weights, when present, are exact integers: a triangle coordinate
/// carries its three barycentric numerators (their sum is the triangle's
/// determinant), a line coordinate carries two squared euclidean distances.
pub trait Coord {
    /// The euclidean point, as a mathematical pair.
    spec fn point_spec(&self) -> (int, int);

    /// The interpolation weights, as mathematical integers; `None` for a
    /// coordinate without weights.
    spec fn weights_spec(&self) -> Option<Seq<int>>;

    /// Get the euclidean point.
    fn point(&self) -> (p: Point2)
        ensures
            (p.0 as int, p.1 as int) == self.point_spec(),
    ;

    /// Get the interpolation weights.
    ///
    /// # Returns
    ///
    /// - `None` if `Self` doesn't carry interpolation weights.
    /// - `Some(weights)` if `Self` carries interpolation weights.
    fn barycentric(&self) -> (r: Option<Vec<i64>>)
        ensures
            match r {
                Some(v) => self.weights_spec() == Some(v@.map_values(|w: i64| w as int)),
                None => self.weights_spec() is None,
            },
    ;
}

/// A lazy, finite, non-restartable stream of raster coordinates.
///
/// `remaining()` is the mathematical sequence of points the stream has yet to
/// yield; `next` pops its head. A primitive's rasterization is pulled from
/// such a stream one point at a time, so no point list is ever materialized
/// for rectangles and triangles.
pub trait RasterIter where Self: Sized {
    /// The coordinate type the stream yields.
    type Item: Coord;

    /// True of every state `next` can be called in.
    spec fn wf(&self) -> bool;

    /// The points not yet yielded, in order.
    spec fn remaining(&self) -> Seq<(int, int)>;

    /// Yield the next coordinate, or `None` once the stream is exhausted.
    fn next(&mut self) -> (r: Option<Self::Item>)
        requires
            old(self).wf(),
        ensures
            final(self).wf(),
            match r {
                Some(c) => {
                    &&& old(self).remaining().len() > 0
                    &&& c.point_spec() == old(self).remaining()[0]
                    &&& final(self).remaining() == old(self).remaining().skip(1)
                },
                None => {
                    &&& old(self).remaining() == Seq::<(int, int)>::empty()
                    &&& final(self).remaining() == Seq::<(int, int)>::empty()
                },
            },
    ;
}

/// A primitive which can be drawn.
///
/// A drawable exposes a vertex count, used purely for statistics, and turns
/// into a [`RasterIter`] which yields every raster point of the primitive.
pub trait Drawable where Self: Sized {
    /// The raster stream type of this primitive.
    type Iter: RasterIter;

    /// The declared vertex count, as a mathematical integer.
    spec fn vertices_spec(&self) -> int;

    /// The full sequence of raster points this primitive covers, in the
    /// order its stream yields them.
    spec fn points_spec(&self) -> Seq<(int, int)>;

    /// The count of vertices this `Drawable` has.
    fn vertices(&self) -> (n: usize)
        ensures
            n as int == self.vertices_spec(),
    ;

    /// Turn the primitive into its raster stream.
    fn into_iter(self) -> (it: Self::Iter)
        ensures
            it.wf(),
            it.remaining() == self.points_spec(),
    ;
}

/// True when a point lies within a `w` by `h` viewport.
pub open spec fn in_viewport(p: (int, int), w: int, h: int) -> bool {
    0 <= p.0 < w && 0 <= p.1 < h
}

/// How many points of `s` lie within a `w` by `h` viewport.
pub open spec fn frag_count(s: Seq<(int, int)>, w: int, h: int) -> int
    decreases s.len(),
{
    if s.len() == 0 {
        0
    } else {
        (if in_viewport(s[0], w, h) {
            1int
        } else {
            0int
        }) + frag_count(s.skip(1), w, h)
    }
}

/// The sum of the vertex counts of a mesh's drawables.
pub open spec fn total_vertices<D: Drawable>(mesh: Seq<D>) -> int
    decreases mesh.len(),
{
    if mesh.len() == 0 {
        0
    } else {
        total_vertices(mesh.drop_last()) + mesh.last().vertices_spec()
    }
}

/// How many in-viewport points the drawables of a mesh yield in all.
pub open spec fn total_fragments<D: Drawable>(mesh: Seq<D>, w: int, h: int) -> int
    decreases mesh.len(),
{
    if mesh.len() == 0 {
        0
    } else {
        total_fragments(mesh.drop_last(), w, h) + frag_count(mesh.last().points_spec(), w, h)
    }
}

/// A count capped at the largest value a `usize` statistic can hold.
pub open spec fn saturated(v: int) -> int {
    if v <= usize::MAX as int {
        v
    } else {
        usize::MAX as int
    }
}

proof fn lemma_frag_count_nonneg(s: Seq<(int, int)>, w: int, h: int)
    ensures
        0 <= frag_count(s, w, h) <= s.len(),
    decreases s.len(),
{
    if s.len() > 0 {
        lemma_frag_count_nonneg(s.skip(1), w, h);
    }
}

proof fn lemma_frag_count_no_hits(s: Seq<(int, int)>, w: int, h: int)
    requires
        forall|k: int| 0 <= k < s.len() ==> !in_viewport(#[trigger] s[k], w, h),
    ensures
        frag_count(s, w, h) == 0,
    decreases s.len(),
{
    if s.len() > 0 {
        assert(forall|k: int| 0 <= k < s.skip(1).len() ==> !in_viewport(#[trigger] s.skip(1)[k], w, h));
        lemma_frag_count_no_hits(s.skip(1), w, h);
    }
}

/// Clipping leaves nothing of a primitive that lies entirely outside the
/// viewport: such a drawable contributes zero to `draw`'s fragment count,
/// while its shape and vertex counts are unaffected, since `draw` counts
/// those from the mesh alone.
pub proof fn lemma_offscreen_contributes_no_fragments<D: Drawable>(d: D, w: int, h: int)
    requires
        forall|k: int| 0 <= k < d.points_spec().len() ==> !in_viewport(#[trigger] d.points_spec()[k], w, h),
    ensures
        frag_count(d.points_spec(), w, h) == 0,
{
    lemma_frag_count_no_hits(d.points_spec(), w, h);
}

proof fn lemma_total_vertices_step<D: Drawable>(mesh: Seq<D>, i: int)
    requires
        0 <= i < mesh.len(),
    ensures
        total_vertices(mesh.take(i + 1)) == total_vertices(mesh.take(i)) + mesh[i].vertices_spec(),
{
    assert(mesh.take(i + 1).drop_last() =~= mesh.take(i));
    assert(mesh.take(i + 1).last() == mesh[i]);
}

proof fn lemma_total_fragments_step<D: Drawable>(mesh: Seq<D>, w: int, h: int, i: int)
    requires
        0 <= i < mesh.len(),
    ensures
        total_fragments(mesh.take(i + 1), w, h) == total_fragments(mesh.take(i), w, h)
            + frag_count(mesh[i].points_spec(), w, h),
{
    assert(mesh.take(i + 1).drop_last() =~= mesh.take(i));
    assert(mesh.take(i + 1).last() == mesh[i]);
}

/// Add two statistics counters, capping at the largest `usize`.
fn sat_add(a: usize, b: usize) -> (r: usize)
    ensures
        r as int == saturated(a as int + b as int),
{
    if a > usize::MAX - b {
        usize::MAX
    } else {
        a + b
    }
}

/// A type which can draw meshes and primitives into an owned pixel store.
///
/// `draw` is the core orchestration algorithm and comes with the trait; an
/// implementer supplies the pixel store (`put_pixel`, `swap`, `width`,
/// `height`) and the attribute slots (`get_attr`, `set_attr`), with the
/// abstract dimensions and slots (`width_spec`, `height_spec`, `attr_spec`)
/// they answer for.
pub trait Renderer: Sized {
    /// The pixel type that gets drawn to the buffer.
    type Pixel;

    /// The auxiliary attribute type, e.g. the current draw color. Converts
    /// into a pixel when a fragment is written.
    type Attr: Into<Self::Pixel>;

    /// The potential error that the `draw` method can return. The provided
    /// `draw` never fails; the channel stands open for renderers with
    /// fallible backing stores.
    type Error;

    /// The buffer width, as a mathematical integer.
    spec fn width_spec(&self) -> int;

    /// The buffer height, as a mathematical integer.
    spec fn height_spec(&self) -> int;

    /// The attribute stored in a slot, if any.
    spec fn attr_spec(&self, slot: int) -> Option<Self::Attr>;

    /// Put `px` at coordinate `p` of the back buffer. The caller clips:
    /// `p` must be within the buffer.
    fn put_pixel(&mut self, p: (usize, usize), px: Self::Pixel)
        requires
            (p.0 as int) < old(self).width_spec(),
            (p.1 as int) < old(self).height_spec(),
        ensures
            final(self).width_spec() == old(self).width_spec(),
            final(self).height_spec() == old(self).height_spec(),
            forall|s: int| final(self).attr_spec(s) == old(self).attr_spec(s),
    ;

    /// Swap back and front buffers.
    fn swap(&mut self)
        ensures
            final(self).width_spec() == old(self).width_spec(),
            final(self).height_spec() == old(self).height_spec(),
            forall|s: int| final(self).attr_spec(s) == old(self).attr_spec(s),
    ;

    /// Get the width of the buffer.
    fn width(&self) -> (w: usize)
        ensures
            w as int == self.width_spec(),
    ;

    /// Get the height of the buffer.
    fn height(&self) -> (h: usize)
        ensures
            h as int == self.height_spec(),
    ;

    /// Get the n'th attribute.
    ///
    /// # Returns
    ///
    /// - `Some(attr)` if `Self` supports auxiliary attributes and one is set.
    /// - `None` if it doesn't, or none is set.
    fn get_attr(&self, attr: usize) -> (r: Option<Self::Attr>)
        ensures
            r == self.attr_spec(attr as int),
    ;

    /// Set the n'th attribute. A renderer without attribute support keeps
    /// `attr_spec` at `None` and lets this do nothing; what a supporting
    /// renderer stores is part of its own contract.
    fn set_attr(&mut self, attr: usize, val: Self::Attr)
        ensures
            final(self).width_spec() == old(self).width_spec(),
            final(self).height_spec() == old(self).height_spec(),
    ;

    /// Draw the `mesh` (a finite sequence of `Drawable`s) with previously
    /// set attributes.
    ///
    /// Folds over the mesh accumulating `(shapes, vertices, fragments)`:
    /// one shape per drawable, the drawable's declared vertex count, and one
    /// fragment per rasterized point that survives clipping to the viewport
    /// — whether or not an attribute was set and a pixel actually written.
    /// Each counter saturates at `usize::MAX` instead of overflowing.
    ///
    /// # Returns
    ///
    /// - `Ok((shapes, vertices, fragments))`, always, for this provided
    ///   implementation.
    fn draw<D: Drawable + Copy>(&mut self, mesh: &Vec<D>) -> (r: Result<
        (usize, usize, usize),
        Self::Error,
    >)
        ensures
            r is Ok,
            r->Ok_0.0 as int == mesh@.len() as int,
            r->Ok_0.1 as int == saturated(total_vertices(mesh@)),
            r->Ok_0.2 as int == saturated(
                total_fragments(mesh@, old(self).width_spec(), old(self).height_spec()),
            ),
            final(self).width_spec() == old(self).width_spec(),
            final(self).height_spec() == old(self).height_spec(),
    {
        let ghost w = self.width_spec();
        let ghost h = self.height_spec();
        let width = self.width();
        let height = self.height();
        let mut shapes: usize = 0;
        let mut verts: usize = 0;
        let mut frags: usize = 0;
        let mut i: usize = 0;
        while i < mesh.len()
            invariant
                i <= mesh@.len(),
                shapes as int == i as int,
                verts as int == saturated(total_vertices(mesh@.take(i as int))),
                frags as int == saturated(total_fragments(mesh@.take(i as int), w, h)),
                self.width_spec() == w,
                self.height_spec() == h,
            decreases mesh@.len() - i as int,
        {
            let d = mesh[i];
            let dv = d.vertices();
            proof {
                lemma_total_vertices_step(mesh@, i as int);
            }
            verts = sat_add(verts, dv);
            let mut it = d.into_iter();
            let mut done = false;
            while !done
                invariant
                    it.wf(),
                    frags as int == saturated(
                        total_fragments(mesh@.take(i as int), w, h) + frag_count(
                            d.points_spec(),
                            w,
                            h,
                        ) - frag_count(it.remaining(), w, h),
                    ),
                    done ==> frag_count(it.remaining(), w, h) == 0,
                    self.width_spec() == w,
                    self.height_spec() == h,
                decreases it.remaining().len() + (if done {
                    0int
                } else {
                    1int
                }),
            {
                proof {
                    lemma_frag_count_nonneg(it.remaining(), w, h);
                    lemma_frag_count_nonneg(d.points_spec(), w, h);
                }
                match it.next() {
                    None => {
                        done = true;
                    },
                    Some(c) => {
                        let p = c.point();
                        if p.0 >= 0 && (p.0 as u64) < (width as u64) && p.1 >= 0 && (p.1 as u64)
                            < (height as u64) {
                            match self.get_attr(0) {
                                Some(attr) => {
                                    let px: Self::Pixel = attr.into();
                                    self.put_pixel((p.0 as usize, p.1 as usize), px);
                                },
                                None => {},
                            }
                            frags = sat_add(frags, 1);
                        }
                    },
                }
            }
            proof {
                lemma_total_fragments_step(mesh@, w, h, i as int);
            }
            shapes = shapes + 1;
            i = i + 1;
        }
        proof {
            assert(mesh@.take(i as int) =~= mesh@);
        }
        Ok((shapes, verts, frags))
    }
}

/// A simple renderer for quick-start and as the reference implementation of
/// the [`Renderer`] trait. It draws any mesh or primitive with a single
/// color into a heap-allocated double buffer.
///
/// # Parameters
///
/// - `Px` represents the pixel type, a.k.a. a color.
pub struct SimpleRenderer<Px> {
    /// The currently selected color, if any.
    color: Option<Px>,
    /// The width of the internal buffers.
    width: usize,
    /// The height of the internal buffers.
    height: usize,
    /// The public "read-only" buffer.
    front: Vec<Px>,
    /// The private "write-only" buffer.
    back: Vec<Px>,
}

impl<Px> SimpleRenderer<Px> {
    /// The buffer width, as a mathematical integer.
    pub closed spec fn spec_width(&self) -> int {
        self.width as int
    }

    /// The buffer height, as a mathematical integer.
    pub closed spec fn spec_height(&self) -> int {
        self.height as int
    }

    /// The currently selected color, if any.
    pub closed spec fn spec_color(&self) -> Option<Px> {
        self.color
    }

    /// The published front buffer, in row-major order.
    pub closed spec fn front_spec(&self) -> Seq<Px> {
        self.front@
    }

    /// The in-progress back buffer, in row-major order.
    pub closed spec fn back_spec(&self) -> Seq<Px> {
        self.back@
    }

    #[verifier::type_invariant]
    spec fn inv(&self) -> bool {
        self.front@.len() == self.width as int * self.height as int && self.back@.len()
            == self.width as int * self.height as int
    }

    /// Get a reference to the public "read-only" buffer.
    pub fn buffer(&self) -> (r: &[Px])
        ensures
            r@ == self.front_spec(),
            r@.len() == self.spec_width() * self.spec_height(),
    {
        proof {
            use_type_invariant(self);
        }
        self.front.as_slice()
    }
}

impl<Px: Default> SimpleRenderer<Px> {
    /// Create a new `SimpleRenderer` with the specified size; the buffers
    /// are allocated on the heap and filled with the default pixel.
    pub fn new(width: usize, height: usize) -> (r: Self)
        requires
            width as int * height as int <= usize::MAX as int,
        ensures
            r.spec_width() == width as int,
            r.spec_height() == height as int,
            r.spec_color() is None,
            r.front_spec().len() == width as int * height as int,
            r.back_spec().len() == width as int * height as int,
            forall|k: int|
                0 <= k < r.front_spec().len() ==> call_ensures(
                    Px::default,
                    (),
                    #[trigger] r.front_spec()[k],
                ),
            forall|k: int|
                0 <= k < r.back_spec().len() ==> call_ensures(
                    Px::default,
                    (),
                    #[trigger] r.back_spec()[k],
                ),
    {
        let size = width * height;
        let mut front: Vec<Px> = Vec::new();
        while front.len() < size
            invariant
                front@.len() <= size,
                forall|k: int|
                    0 <= k < front@.len() ==> call_ensures(Px::default, (), #[trigger] front@[k]),
            decreases size - front@.len(),
        {
            front.push(Px::default());
        }
        let mut back: Vec<Px> = Vec::new();
        while back.len() < size
            invariant
                back@.len() <= size,
                forall|k: int|
                    0 <= k < back@.len() ==> call_ensures(Px::default, (), #[trigger] back@[k]),
            decreases size - back@.len(),
        {
            back.push(Px::default());
        }
        SimpleRenderer { color: None, width, height, front, back }
    }
}

impl<Px: Copy> Renderer for SimpleRenderer<Px> {
    type Pixel = Px;

    type Attr = Px;

    type Error = ();

    open spec fn width_spec(&self) -> int {
        self.spec_width()
    }

    open spec fn height_spec(&self) -> int {
        self.spec_height()
    }

    open spec fn attr_spec(&self, slot: int) -> Option<Px> {
        self.spec_color()
    }

    fn put_pixel(&mut self, p: (usize, usize), px: Px)
        ensures
            final(self).back_spec() == old(self).back_spec().update(
                p.1 as int * old(self).spec_width() + p.0 as int,
                px,
            ),
            final(self).front_spec() == old(self).front_spec(),
            final(self).spec_color() == old(self).spec_color(),
    {
        proof {
            use_type_invariant(&*self);
            assert(0 <= (p.1 as int) * (self.width as int) && (p.1 as int) * (self.width as int)
                + (p.0 as int) < (self.width as int) * (self.height as int)) by (nonlinear_arith)
                requires
                    (p.0 as int) < self.width as int,
                    (p.1 as int) < self.height as int,
                    0 <= p.0 as int,
                    0 <= p.1 as int,
            ;
        }
        let n = self.back.len();
        let idx = p.1 * self.width + p.0;
        self.back[idx] = px;
    }

    fn swap(&mut self)
        ensures
            final(self).front_spec() == old(self).back_spec(),
            final(self).back_spec() == old(self).front_spec(),
            final(self).spec_color() == old(self).spec_color(),
    {
        proof {
            use_type_invariant(&*self);
        }
        core::mem::swap(&mut self.front, &mut self.back);
    }

    fn width(&self) -> (w: usize) {
        self.width
    }

    fn height(&self) -> (h: usize) {
        self.height
    }

    fn get_attr(&self, attr: usize) -> (r: Option<Px>) {
        proof {
            assert(self.attr_spec(attr as int) == self.spec_color());
        }
        self.color
    }

    fn set_attr(&mut self, attr: usize, val: Px)
        ensures
            final(self).front_spec() == old(self).front_spec(),
            final(self).back_spec() == old(self).back_spec(),
            final(self).spec_color() == Some(val),
            forall|s: int| final(self).attr_spec(s) == Some(val),
    {
        proof {
            use_type_invariant(&*self);
        }
        self.color = Some(val);
    }
}

} // verus!
