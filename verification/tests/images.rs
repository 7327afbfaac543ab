use image::{ImageBuffer, Rgb};
use qr::{Drawable, RasterIter, Triangle};

#[test]
fn random_tri() {
    const BPP: usize = 24;
    const WIDTH: usize = 1024;
    const HEIGHT: usize = 1024;
    const SIZE: usize = WIDTH * HEIGHT * BPP / 8;

    let buffer = vec![0_u8; SIZE];
    let image = ImageBuffer::from_raw(WIDTH as u32, HEIGHT as u32, buffer);
    let mut image: ImageBuffer<Rgb<u8>, Vec<u8>> = image.unwrap();

    let x0 = (rand::random::<u32>() % WIDTH as u32) as i64;
    let x1 = (rand::random::<u32>() % WIDTH as u32) as i64;
    let x2 = (rand::random::<u32>() % WIDTH as u32) as i64;

    let y0 = (rand::random::<u32>() % HEIGHT as u32) as i64;
    let y1 = (rand::random::<u32>() % HEIGHT as u32) as i64;
    let y2 = (rand::random::<u32>() % HEIGHT as u32) as i64;

    let r0 = rand::random::<f64>() * 255.0;
    let r1 = rand::random::<f64>() * 255.0;
    let r2 = rand::random::<f64>() * 255.0;

    let g0 = rand::random::<f64>() * 255.0;
    let g1 = rand::random::<f64>() * 255.0;
    let g2 = rand::random::<f64>() * 255.0;

    let b0 = rand::random::<f64>() * 255.0;
    let b1 = rand::random::<f64>() * 255.0;
    let b2 = rand::random::<f64>() * 255.0;

    let v1 = (x0, y0);
    let v2 = (x1, y1);
    let v3 = (x2, y2);

    let triangle = Triangle::with_points([v1, v2, v3]);

    let mut it = triangle.into_iter();
    while let Some(((x, y), w)) = it.next() {
        let det = w.det() as f64;
        let p0 = w.n1() as f64 / det;
        let p1 = w.n2() as f64 / det;
        let p2 = w.n3() as f64 / det;
        let r = p0 * r0 + p1 * r1 + p2 * r2;
        let g = p0 * g0 + p1 * g1 + p2 * g2;
        let b = p0 * b0 + p1 * b1 + p2 * b2;
        image.put_pixel(x as u32, y as u32, Rgb([r as u8, g as u8, b as u8]));
    }

    image.save("/tmp/test1.png").expect("couldn't save image");
}
