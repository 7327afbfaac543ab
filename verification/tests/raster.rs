use qr::{Drawable, RasterIter, Rectangle, Renderer, SimpleRenderer, Triangle};

#[test]
fn rect() {
    let mut it = Rectangle::new(0, 2, 0, 2).into_iter();
    let mut got: Vec<(i64, i64)> = Vec::new();
    while let Some(p) = it.next() {
        got.push(p);
    }
    assert_eq!(got, [(0, 0), (1, 0), (0, 1), (1, 1),]);
}

#[test]
fn tri() {
    let mut it = Triangle::with_points([(0, 0), (3, 0), (0, 3)]).into_iter();
    let mut got: Vec<((i64, i64), (i64, i64, i64))> = Vec::new();
    while let Some((p, w)) = it.next() {
        let det = w.det();
        got.push((
            (p.0, p.1),
            (w.n1() * 3 / det, w.n2() * 3 / det, w.n3() * 3 / det),
        ));
    }
    assert_eq!(
        got,
        [
            ((0, 0), (3, 0, 0)),
            ((1, 0), (2, 1, 0)),
            ((2, 0), (1, 2, 0)),
            ((0, 1), (2, 0, 1)),
            ((1, 1), (1, 1, 1)),
            ((2, 1), (0, 2, 1)),
            ((0, 2), (1, 0, 2)),
            ((1, 2), (0, 1, 2)),
        ]
    );
}

#[test]
fn simple() {
    let mut renderer = SimpleRenderer::<u8>::new(16, 16);

    let v1 = (0, 0);
    let v2 = (100, 0);
    let v3 = (0, 100);

    let triangle = Triangle::with_points([v1, v2, v3]);

    renderer.set_attr(0, 1);
    assert!(renderer.draw(&vec![triangle]).is_ok());

    renderer.swap();
    assert_eq!(renderer.buffer(), [1_u8; 16 * 16].as_ref());
}
