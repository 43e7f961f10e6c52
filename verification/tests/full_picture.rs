use raytracer::camera::primary_dir;
use raytracer::customtypes::{Sphere, Vec3};
use raytracer::image::channel;
use raytracer::scalar::Scalar;
use raytracer::tracer::trace;

fn s(v: f64) -> Scalar {
    Scalar::from_bits(v.to_bits())
}

fn f(v: Scalar) -> f64 {
    f64::from_bits(v.to_bits())
}

#[derive(Clone, Copy, Debug)]
struct V(f64, f64, f64);

impl V {
    fn dot(self, o: V) -> f64 {
        self.0 * o.0 + self.1 * o.1 + self.2 * o.2
    }

    fn add(self, o: V) -> V {
        V(self.0 + o.0, self.1 + o.1, self.2 + o.2)
    }

    fn sub(self, o: V) -> V {
        V(self.0 - o.0, self.1 - o.1, self.2 - o.2)
    }

    fn mul(self, o: V) -> V {
        V(self.0 * o.0, self.1 * o.1, self.2 * o.2)
    }

    fn scale(self, k: f64) -> V {
        V(self.0 * k, self.1 * k, self.2 * k)
    }

    fn normalized(self) -> V {
        let nor2 = self.dot(self);
        if nor2 > 0.0 {
            self.scale(1.0 / nor2.sqrt())
        } else {
            self
        }
    }
}

#[derive(Clone, Copy)]
struct Ball {
    center: V,
    radius: f64,
    surface: V,
    reflection: f64,
    transparency: f64,
    emission: V,
}

impl Ball {
    fn intersect(&self, orig: V, dir: V) -> Option<(f64, f64)> {
        let l = self.center.sub(orig);
        let tca = l.dot(dir);
        if tca < 0.0 {
            return None;
        }
        let d2 = l.dot(l) - tca * tca;
        if d2 > self.radius * self.radius {
            return None;
        }
        let thc = (self.radius * self.radius - d2).sqrt();
        Some((tca - thc, tca + thc))
    }
}

fn float_trace(orig: V, dir: V, balls: &[Ball], depth: i32) -> V {
    let mut tnear = f64::INFINITY;
    let mut found: Option<&Ball> = None;
    for b in balls {
        if let Some((mut t0, t1)) = b.intersect(orig, dir) {
            if t0 < 0.0 {
                t0 = t1;
            }
            if t0 < tnear {
                tnear = t0;
                found = Some(b);
            }
        }
    }
    let ball = match found {
        None => return V(2.0, 2.0, 2.0),
        Some(b) => b,
    };
    let mut color = V(0.0, 0.0, 0.0);
    let p = orig.add(dir.scale(tnear));
    let mut n = p.sub(ball.center).normalized();
    let bias = 1e-4;
    let mut inside = false;
    if dir.dot(n) > 0.0 {
        n = n.scale(-1.0);
        inside = true;
    }
    if (ball.transparency < 0.0 || ball.reflection > 0.0) && depth < 5 {
        let facing = -dir.dot(n);
        let a = f64::powf(1.0 - facing, 3.0);
        let fresnel = 1.0 * 0.1 + a * (1.0 - 0.1);
        let refl_dir = dir.sub(n.scale(2.0).scale(dir.dot(n))).normalized();
        let reflection = float_trace(p.add(n.scale(bias)), refl_dir, balls, depth + 1);
        let mut refraction = V(0.0, 0.0, 0.0);
        if ball.transparency != 0.0 {
            let ior = 1.1;
            let eta = if inside { ior } else { 1.0 / ior };
            let cos_i = -n.dot(dir);
            let k = 1.0 - eta * eta * (1.0 - cos_i * cos_i);
            let refr_dir = dir.scale(eta).add(n.scale(eta * cos_i - k.sqrt())).normalized();
            refraction = float_trace(p.sub(n.scale(bias)), refr_dir, balls, depth + 1);
        }
        color = reflection.scale(fresnel).add(
            refraction.scale(1.0 - fresnel).scale(ball.transparency).mul(ball.surface),
        );
    } else {
        for (i, light) in balls.iter().enumerate() {
            if light.emission.0 > 0.0 {
                let mut transmission = V(1.0, 1.0, 1.0);
                let light_dir = light.center.sub(p).normalized();
                for (j, other) in balls.iter().enumerate() {
                    if i != j && other.intersect(p.add(n.scale(bias)), light_dir).is_some() {
                        transmission = V(0.0, 0.0, 0.0);
                        break;
                    }
                }
                let sum = transmission.mul(ball.surface).mul(light.emission).scale(f64::max(
                    0.0,
                    n.dot(light_dir),
                ));
                color = color.add(sum);
            }
        }
    }
    color.add(ball.emission)
}

fn float_primary_dir(x: u32, y: u32, width: u32, height: u32) -> V {
    let inv_width = 1.0 / width as f64;
    let inv_height = 1.0 / height as f64;
    let fov = 30.0;
    let aspect_ratio = width as f64 / height as f64;
    let angle = f64::tan(std::f64::consts::PI * 0.5 * fov / 180.0);
    let xx = (2.0 * ((x as f64 + 0.5) * inv_width) - 1.0) * angle * aspect_ratio;
    let yy = (1.0 - 2.0 * ((y as f64 + 0.5) * inv_height)) * angle;
    V(xx, yy, -1.0).normalized()
}

fn six_balls() -> Vec<Ball> {
    let none = V(0.0, 0.0, 0.0);
    vec![
        Ball {
            center: V(0.0, -10004.0, -20.0),
            radius: 10000.0,
            surface: V(0.20, 0.20, 0.20),
            reflection: 0.0,
            transparency: 0.0,
            emission: none,
        },
        Ball {
            center: V(0.0, 0.0, -20.0),
            radius: 4.0,
            surface: V(1.00, 0.32, 0.36),
            reflection: 1.0,
            transparency: 0.5,
            emission: none,
        },
        Ball {
            center: V(5.0, -1.0, -15.0),
            radius: 2.0,
            surface: V(0.90, 0.76, 0.46),
            reflection: 1.0,
            transparency: 0.0,
            emission: none,
        },
        Ball {
            center: V(5.0, 0.0, -25.0),
            radius: 3.0,
            surface: V(0.65, 0.77, 0.97),
            reflection: 1.0,
            transparency: 0.0,
            emission: none,
        },
        Ball {
            center: V(-5.5, 0.0, -15.0),
            radius: 3.0,
            surface: V(0.90, 0.90, 0.90),
            reflection: 1.0,
            transparency: 0.0,
            emission: none,
        },
        Ball {
            center: V(0.0, 20.0, -30.0),
            radius: 3.0,
            surface: V(0.00, 0.00, 0.00),
            reflection: 0.0,
            transparency: 0.0,
            emission: V(3.0, 3.0, 3.0),
        },
    ]
}

fn vec3(v: V) -> Vec3 {
    Vec3::new(s(v.0), s(v.1), s(v.2))
}

fn scene_of(balls: &[Ball]) -> Vec<Sphere> {
    balls
        .iter()
        .map(|b| {
            Sphere::new(
                vec3(b.center),
                s(b.radius),
                vec3(b.surface),
                s(b.reflection),
                s(b.transparency),
                vec3(b.emission),
            )
        })
        .collect()
}

fn quantize(c: f64) -> u8 {
    (f64::min(1.0, c) * 255.0) as u8
}

fn close(a: f64, b: f64) -> bool {
    (a.is_nan() && b.is_nan()) || (a - b).abs() <= 1e-9 * f64::max(1.0, b.abs())
}

fn assert_same_pixel(got: &Vec3, want: V, place: (u32, u32)) {
    let got = (f(got.x()), f(got.y()), f(got.z()));
    assert!(
        close(got.0, want.0) && close(got.1, want.1) && close(got.2, want.2),
        "pixel {:?}: {:?} against {:?}",
        place,
        got,
        want
    );
    for (g, w) in [(got.0, want.0), (got.1, want.1), (got.2, want.2)] {
        let a = channel(s(g)) as i32;
        let b = quantize(w) as i32;
        assert!((a - b).abs() <= 1, "pixel {:?}: channel {} against {}", place, a, b);
    }
}

/// Checks every pixel of the given rows of the 640 by 480 picture.
fn check_rows(rows: std::ops::Range<u32>) {
    let balls = six_balls();
    let scene = scene_of(&balls);
    let origin = Vec3::origin();
    let mut histogram = [0u32; 256];
    let mut wanted = [0u32; 256];
    for y in rows {
        for x in 0..640 {
            let dir = primary_dir(x, y, 640, 480);
            let got = trace(&origin, &dir, &scene, 0);
            let want = float_trace(V(0.0, 0.0, 0.0), float_primary_dir(x, y, 640, 480), &balls, 0);
            assert_same_pixel(&got, want, (x, y));
            histogram[channel(got.x()) as usize] += 1;
            wanted[quantize(want.0) as usize] += 1;
        }
    }
    let moved: u32 = (0..256).map(|i| histogram[i].abs_diff(wanted[i])).sum();
    assert!(moved <= 2, "{} pixels changed their red channel", moved);
}

#[test]
fn full_picture_rows_0_to_59_match_floating_point() {
    check_rows(0..60);
}

#[test]
fn full_picture_rows_60_to_119_match_floating_point() {
    check_rows(60..120);
}

#[test]
fn full_picture_rows_120_to_179_match_floating_point() {
    check_rows(120..180);
}

#[test]
fn full_picture_rows_180_to_239_match_floating_point() {
    check_rows(180..240);
}

#[test]
fn full_picture_rows_240_to_299_match_floating_point() {
    check_rows(240..300);
}

#[test]
fn full_picture_rows_300_to_359_match_floating_point() {
    check_rows(300..360);
}

#[test]
fn full_picture_rows_360_to_419_match_floating_point() {
    check_rows(360..420);
}

#[test]
fn full_picture_rows_420_to_479_match_floating_point() {
    check_rows(420..480);
}
