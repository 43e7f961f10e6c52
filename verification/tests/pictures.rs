use raytracer::camera::{primary_dir, render_sized, HEIGHT, WIDTH};
use raytracer::customtypes::{Sphere, Vec3};
use raytracer::image::{channel, push_decimal, push_pixel_line, Image};
use raytracer::scalar::Scalar;
use raytracer::tracer::trace;

fn s(v: f64) -> Scalar {
    Scalar::from_bits(v.to_bits())
}

fn v3(x: f64, y: f64, z: f64) -> Vec3 {
    Vec3::new(s(x), s(y), s(z))
}

fn bits(v: &Vec3) -> (u64, u64, u64) {
    (v.x().to_bits(), v.y().to_bits(), v.z().to_bits())
}

fn text(bytes: Vec<u8>) -> String {
    String::from_utf8(bytes).unwrap()
}

fn head(width: u32, height: u32) -> String {
    format!("{}{}\n{} {}\n255\n", 'P', 3, width, height)
}

#[test]
fn channel_caps_scales_and_truncates() {
    assert_eq!(channel(s(0.0)), 0);
    assert_eq!(channel(s(1.0)), 255);
    assert_eq!(channel(s(2.0)), 255);
    assert_eq!(channel(s(0.5)), 127);
    assert_eq!(channel(s(0.2)), 51);
    assert_eq!(channel(s(0.999)), 254);
    assert_eq!(channel(s(-0.5)), 0);
    assert_eq!(channel(s(f64::NAN)), 255);
    assert_eq!(channel(s(f64::INFINITY)), 255);
    let mut c = -0.25f64;
    while c < 1.5 {
        assert_eq!(channel(s(c)), (f64::min(1.0, c) * 255.0) as u8, "{}", c);
        c += 0.0137;
    }
}

#[test]
fn decimal_digits() {
    for n in [0u32, 5, 9, 10, 42, 99, 100, 255, 480, 640, 1000, 4294967295] {
        let mut out = vec![b'>'];
        push_decimal(&mut out, n);
        assert_eq!(text(out), format!(">{}", n));
    }
}

#[test]
fn pixel_line_holds_three_channels() {
    let mut out = Vec::new();
    push_pixel_line(&mut out, &v3(1.0, 0.5, 0.0));
    push_pixel_line(&mut out, &v3(2.0, 0.2, -1.0));
    assert_eq!(text(out), "255 127 0\n255 51 0\n");
}

#[test]
fn picture_needs_as_many_pixels_as_its_size_says() {
    let px = v3(0.0, 0.0, 0.0);
    assert!(Image::from_pixels(2, 2, vec![px; 3]).is_none());
    assert!(Image::from_pixels(2, 2, vec![px; 5]).is_none());
    assert!(Image::from_pixels(0, 3, vec![px; 1]).is_none());
    assert!(Image::from_pixels(0, 3, Vec::new()).is_some());
    let image = Image::from_pixels(3, 2, vec![px; 6]).unwrap();
    assert_eq!((image.width(), image.height(), image.pixels().len()), (3, 2, 6));
}

#[test]
fn pixels_are_found_row_by_row() {
    let mut pixels = Vec::new();
    for i in 0..6 {
        pixels.push(v3(i as f64, 0.0, 0.0));
    }
    let image = Image::from_pixels(3, 2, pixels).unwrap();
    assert_eq!(image.pixel(0, 0).x().to_bits(), 0.0f64.to_bits());
    assert_eq!(image.pixel(2, 0).x().to_bits(), 2.0f64.to_bits());
    assert_eq!(image.pixel(0, 1).x().to_bits(), 3.0f64.to_bits());
    assert_eq!(image.pixel(2, 1).x().to_bits(), 5.0f64.to_bits());
}

#[test]
fn picture_is_written_as_a_plain_pixel_map() {
    let pixels = vec![
        v3(1.0, 0.5, 0.0),
        v3(2.0, 2.0, 2.0),
        v3(0.2, 0.2, 0.2),
        v3(-1.0, f64::NAN, 0.999),
        v3(0.0, 0.0, 0.0),
        v3(0.1, 0.01, 0.001),
    ];
    let image = Image::from_pixels(3, 2, pixels).unwrap();
    assert_eq!(head(3, 2).into_bytes(), vec![80, 51, 10, 51, 32, 50, 10, 50, 53, 53, 10]);
    assert_eq!(
        text(image.encode()),
        head(3, 2) + "255 127 0\n255 255 255\n51 51 51\n0 255 254\n0 0 0\n25 2 0\n"
    );
}

#[test]
fn empty_picture_is_only_a_head() {
    let image = Image::from_pixels(0, 0, Vec::new()).unwrap();
    assert_eq!(text(image.encode()), head(0, 0));
    let image = Image::from_pixels(640, 0, Vec::new()).unwrap();
    assert_eq!(text(image.encode()), head(640, 0));
}

#[test]
fn picture_of_an_empty_scene_is_all_background() {
    let scene: Vec<Sphere> = Vec::new();
    let image = render_sized(&scene, 5, 4);
    assert_eq!((image.width(), image.height()), (5, 4));
    assert_eq!(image.pixels().len(), 20);
    for p in image.pixels() {
        assert_eq!(bits(p), (2.0f64.to_bits(), 2.0f64.to_bits(), 2.0f64.to_bits()));
    }
    let mut want = head(5, 4);
    for _ in 0..20 {
        want.push_str("255 255 255\n");
    }
    assert_eq!(text(image.encode()), want);
}

#[test]
fn picture_without_pixels() {
    let scene: Vec<Sphere> = Vec::new();
    assert_eq!(render_sized(&scene, 0, 7).pixels().len(), 0);
    assert_eq!(render_sized(&scene, 7, 0).pixels().len(), 0);
}

#[test]
fn picture_is_filled_in_scan_order() {
    let ball = Sphere::new(
        v3(-1.5, 1.0, -10.0),
        s(1.0),
        v3(1.0, 1.0, 1.0),
        s(0.0),
        s(0.0),
        v3(0.25, 0.5, 0.75),
    );
    let scene = vec![ball];
    let (w, h) = (7u32, 5u32);
    let image = render_sized(&scene, w, h);
    let origin = Vec3::origin();
    let mut lit = 0;
    for y in 0..h {
        for x in 0..w {
            let want = trace(&origin, &primary_dir(x, y, w, h), &scene, 0);
            assert_eq!(bits(&image.pixels()[(y * w + x) as usize]), bits(&want));
            assert_eq!(bits(&image.pixel(x, y)), bits(&want));
            if want.x().to_bits() == 0.25f64.to_bits() {
                lit += 1;
                assert!(x < w / 2 && y < h / 2);
            }
        }
    }
    assert!(lit > 0);
}

#[test]
fn default_picture_size() {
    assert_eq!((WIDTH, HEIGHT), (640, 480));
}
