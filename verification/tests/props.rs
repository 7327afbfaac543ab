use qr::{Coord, Drawable, Line, Point, RasterIter, Rectangle, Renderer, Shape, SimpleRenderer, Triangle};

fn collect_points<I: RasterIter>(mut it: I) -> Vec<(i64, i64)>
where
    I::Item: Coord,
{
    let mut got: Vec<(i64, i64)> = Vec::new();
    while let Some(c) = it.next() {
        got.push(c.point());
    }
    got
}

#[test]
fn rect_count_and_row_major_order() {
    let pts = collect_points(Rectangle::new(2, 5, 10, 12).into_iter());
    assert_eq!(pts.len(), 3 * 2);
    assert_eq!(pts, [(2, 10), (3, 10), (4, 10), (2, 11), (3, 11), (4, 11)]);
}

#[test]
fn rect_reversed_or_zero_extent_is_empty() {
    assert!(collect_points(Rectangle::new(2, 0, 0, 2).into_iter()).is_empty());
    assert!(collect_points(Rectangle::new(0, 2, 5, 3).into_iter()).is_empty());
    assert!(collect_points(Rectangle::new(1, 1, 0, 9).into_iter()).is_empty());
    assert!(collect_points(Rectangle::new(0, 9, 4, 4).into_iter()).is_empty());
}

#[test]
fn tri_weights_sum_to_det() {
    let mut it = Triangle::with_points([(0, 0), (7, 2), (3, 9)]).into_iter();
    let mut seen = 0;
    while let Some((_, w)) = it.next() {
        assert_eq!(w.n1() + w.n2() + w.n3(), w.det());
        w.weights_sum_to_det();
        seen += 1;
    }
    assert!(seen > 0);
}

#[test]
fn tri_clockwise_covers_same_points() {
    // Reversing the vertex order flips the determinant's sign; the covered
    // points stay the same and each weight still belongs to its vertex.
    let mut it = Triangle::with_points([(0, 0), (0, 3), (3, 0)]).into_iter();
    let mut got: Vec<((i64, i64), (i64, i64, i64))> = Vec::new();
    while let Some((p, w)) = it.next() {
        let det = w.det();
        assert!(det < 0);
        got.push((
            (p.0, p.1),
            (w.n1() * 3 / det, w.n2() * 3 / det, w.n3() * 3 / det),
        ));
    }
    assert_eq!(
        got,
        [
            ((0, 0), (3, 0, 0)),
            ((1, 0), (2, 0, 1)),
            ((2, 0), (1, 0, 2)),
            ((0, 1), (2, 1, 0)),
            ((1, 1), (1, 1, 1)),
            ((2, 1), (0, 1, 2)),
            ((0, 2), (1, 2, 0)),
            ((1, 2), (0, 2, 1)),
        ]
    );
}

#[test]
fn tri_degenerate_is_empty() {
    let mut it = Triangle::with_points([(0, 0), (1, 1), (2, 2)]).into_iter();
    assert!(it.next().is_none());
}

#[test]
fn line_diagonal_points_and_weights() {
    let mut it = Line::new((0, 0), (3, 3)).into_iter();
    let mut got: Vec<((i64, i64), i64, i64)> = Vec::new();
    while let Some((p, w)) = it.next() {
        got.push((p, w.dist_sq, w.len_sq));
    }
    assert_eq!(
        got,
        [
            ((0, 0), 0, 18),
            ((1, 1), 2, 18),
            ((2, 2), 8, 18),
            ((3, 3), 18, 18),
        ]
    );
}

#[test]
fn line_shallow_walks_driving_axis() {
    let pts = collect_points(Line::new((0, 0), (5, 2)).into_iter());
    assert_eq!(pts, [(0, 0), (1, 0), (2, 0), (3, 1), (4, 1), (5, 2)]);
}

#[test]
fn line_zero_length_yields_single_point() {
    let mut it = Line::new((5, 5), (5, 5)).into_iter();
    let (p, w) = it.next().unwrap();
    assert_eq!(p, (5, 5));
    assert_eq!((w.dist_sq, w.len_sq), (0, 0));
    assert!(it.next().is_none());
}

#[test]
fn barycentric_accessors() {
    let mut it = Triangle::with_points([(0, 0), (3, 0), (0, 3)]).into_iter();
    let c = it.next().unwrap();
    assert_eq!(c.barycentric(), Some(vec![c.1.n1(), c.1.n2(), c.1.n3()]));

    let mut it = Line::new((0, 0), (2, 0)).into_iter();
    let c = it.next().unwrap();
    assert_eq!(c.barycentric(), Some(vec![c.1.dist_sq, c.1.len_sq]));

    let p: (i64, i64) = (1, 2);
    assert_eq!(Coord::point(&p), (1, 2));
    assert!(Coord::barycentric(&p).is_none());
}

#[test]
fn point_yields_itself_once() {
    let mut it = Point((3, 4)).into_iter();
    assert_eq!(it.next(), Some((3, 4)));
    assert_eq!(it.next(), None);
}

#[test]
fn shape_vertices_and_dispatch() {
    let mesh: Vec<Shape> = vec![
        Shape::from(Point((1, 1))),
        Shape::from(Line::new((0, 0), (2, 0))),
        Shape::from(Rectangle::new(0, 2, 0, 2)),
        Shape::from(Triangle::with_points([(0, 0), (3, 0), (0, 3)])),
    ];
    assert_eq!(mesh[0].vertices(), 1);
    assert_eq!(mesh[1].vertices(), 2);
    assert_eq!(mesh[2].vertices(), 4);
    assert_eq!(mesh[3].vertices(), 3);

    assert_eq!(collect_points(mesh[1].into_iter()), [(0, 0), (1, 0), (2, 0)]);
    assert_eq!(
        collect_points(mesh[3].into_iter()).len(),
        8,
    );

    let mut renderer = SimpleRenderer::<u8>::new(8, 8);
    renderer.set_attr(0, 7);
    // 1 point + 3 line points + 4 rectangle points + 8 triangle points, all
    // within the 8x8 viewport.
    assert_eq!(renderer.draw(&mesh), Ok((4, 10, 16)));
}

#[test]
fn draw_counts_fragments_without_attribute() {
    let mut renderer = SimpleRenderer::<u8>::new(4, 4);
    let rect = Rectangle::new(0, 2, 0, 2);
    // No attribute set: nothing is written, fragments are counted anyway.
    assert_eq!(renderer.draw(&vec![rect]), Ok((1, 4, 4)));
    renderer.swap();
    assert_eq!(renderer.buffer(), [0_u8; 16].as_ref());
}

#[test]
fn draw_clips_offscreen_primitive_but_counts_its_vertices() {
    let mut renderer = SimpleRenderer::<u8>::new(16, 16);
    renderer.set_attr(0, 9);
    let offscreen = Triangle::with_points([(20, 20), (30, 20), (20, 30)]);
    assert_eq!(renderer.draw(&vec![offscreen]), Ok((1, 3, 0)));
    renderer.swap();
    assert_eq!(renderer.buffer(), [0_u8; 16 * 16].as_ref());
}

#[test]
fn draw_clips_partly_offscreen_rectangle() {
    let mut renderer = SimpleRenderer::<u8>::new(4, 4);
    renderer.set_attr(0, 2);
    // Covers x in [-2, 2) and y in [2, 6): only [0, 2) x [2, 4) survives.
    let rect = Rectangle::new(-2, 2, 2, 6);
    assert_eq!(renderer.draw(&vec![rect]), Ok((1, 4, 4)));
    renderer.swap();
    let buffer = renderer.buffer();
    for y in 0..4_usize {
        for x in 0..4_usize {
            let expect = if x < 2 && y >= 2 { 2 } else { 0 };
            assert_eq!(buffer[y * 4 + x], expect);
        }
    }
}

#[test]
fn draw_empty_mesh() {
    let mut renderer = SimpleRenderer::<u8>::new(4, 4);
    let mesh: Vec<Shape> = Vec::new();
    assert_eq!(renderer.draw(&mesh), Ok((0, 0, 0)));
}
