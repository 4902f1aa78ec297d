use raytracer::graphics::{put_pixel, CanvasColour, PixelBuf, Point, Vec3, SCREEN_HEIGHT, SCREEN_WIDTH};

fn blank_frame() -> PixelBuf {
    vec![[0u8, 0, 0]; SCREEN_WIDTH * SCREEN_HEIGHT]
}

#[test]
fn colour_new_keeps_channels() {
    let c = CanvasColour::new(1, 2, 3);
    assert_eq!((c.r, c.g, c.b), (1, 2, 3));
}

#[test]
fn colour_white_is_all_full() {
    assert_eq!(CanvasColour::white().as_pixels(), [255, 255, 255]);
}

#[test]
fn colour_as_pixels_is_rgb_order() {
    assert_eq!(CanvasColour::new(255, 0, 7).as_pixels(), [255, 0, 7]);
}

#[test]
fn colour_from_tuple() {
    let c: CanvasColour = (10, 20, 30).into();
    assert_eq!(c, CanvasColour::new(10, 20, 30));
}

#[test]
fn point_dot_product() {
    let a = Point::new(1i64, 2, 3);
    let b = Point::new(4i64, -5, 6);
    assert_eq!(a.dot(b), 12);
}

#[test]
fn point_mul_scalar() {
    let p = Point::new(1i64, -2, 3).mul_scalar(&-3);
    assert_eq!(p, Point::new(-3, 6, -9));
}

#[test]
fn point_div_rounds_toward_zero() {
    let p = Point::new(-7i64, 7, -8).div(2);
    assert_eq!(p, Point::new(-3, 3, -4));
    let q = Point::new(-7i64, 7, 9).div(-2);
    assert_eq!(q, Point::new(3, -3, -4));
}

#[test]
fn point_div_extreme_values() {
    let p = Point::new(i64::MIN, i64::MAX, 0).div(1);
    assert_eq!(p, Point::new(i64::MIN, i64::MAX, 0));
    let q = Point::new(i64::MIN, i64::MAX, 1).div(-2);
    assert_eq!(q, Point::new(i64::MIN / -2, i64::MAX / -2, 0));
}

#[test]
fn point_add_and_sub_are_componentwise() {
    let a = Point::new(1i64, 2, 3);
    let b = Point::new(10i64, 20, 30);
    assert_eq!(a.add(b), Point::new(11, 22, 33));
    assert_eq!(a.sub(b), Point::new(-9, -18, -27));
}

#[test]
fn vec3_dot_add_sub() {
    let a = Vec3::new(2i64, 3, 4);
    let b = Vec3::new(-1i64, 0, 5);
    assert_eq!(a.dot(b), 18);
    assert_eq!(a.add(b), Vec3::new(1, 3, 9));
    assert_eq!(a.sub(b), Vec3::new(3, 3, -1));
}

#[test]
fn put_pixel_centre() {
    let mut frame = blank_frame();
    put_pixel(&mut frame, 0, 0, CanvasColour::new(9, 8, 7));
    assert_eq!(frame[299 + 299 * 600], [9, 8, 7]);
    assert_eq!(frame.iter().filter(|p| **p != [0, 0, 0]).count(), 1);
}

#[test]
fn put_pixel_corners() {
    let mut frame = blank_frame();
    put_pixel(&mut frame, 299, 299, CanvasColour::new(1, 1, 1));
    put_pixel(&mut frame, -300, 299, CanvasColour::new(2, 2, 2));
    put_pixel(&mut frame, 299, -300, CanvasColour::new(3, 3, 3));
    put_pixel(&mut frame, -300, -300, CanvasColour::new(4, 4, 4));
    assert_eq!(frame[0], [1, 1, 1]);
    assert_eq!(frame[599], [2, 2, 2]);
    assert_eq!(frame[599 * 600], [3, 3, 3]);
    assert_eq!(frame[600 * 600 - 1], [4, 4, 4]);
}

#[test]
fn put_pixel_outside_buffer_is_skipped() {
    let mut frame = blank_frame();
    put_pixel(&mut frame, 0, 300, CanvasColour::white());
    put_pixel(&mut frame, 0, -301, CanvasColour::white());
    put_pixel(&mut frame, i32::MIN, i32::MAX, CanvasColour::white());
    assert!(frame.iter().all(|p| *p == [0, 0, 0]));
}

#[test]
fn put_pixel_on_short_buffer_is_skipped() {
    let mut frame: PixelBuf = vec![[0, 0, 0]; 10];
    put_pixel(&mut frame, 0, 0, CanvasColour::white());
    assert_eq!(frame, vec![[0, 0, 0]; 10]);
    put_pixel(&mut frame, 290, 299, CanvasColour::white());
    assert_eq!(frame[9], [255, 255, 255]);
}
