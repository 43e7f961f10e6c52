//! The pinhole camera: one primary ray for every pixel.

use vstd::prelude::*;
use crate::customtypes::{Sphere, Vec3};
use crate::image::Image;
use crate::scalar::Scalar;
use crate::tracer::{spec_trace, trace};

verus! {

/// The width of the picture that `render` makes.
pub const WIDTH: u32 = 640;

/// The height of the picture that `render` makes.
pub const HEIGHT: u32 = 480;

/// The bits of `0.5`, the offset of a pixel's centre.
pub const HALF_BITS: u64 = 0x3fe0_0000_0000_0000;

/// The bits of the tangent of fifteen degrees, half the field of view of
/// thirty: the binary64 value `0.2679491924311227`.
pub const FOV_SCALE_BITS: u64 = 0x3fd1_2614_5e9e_cd56;

/// One half.
pub open spec fn spec_half() -> Scalar {
    Scalar { bits: HALF_BITS }
}

/// The tangent of half the field of view.
pub open spec fn spec_fov_scale() -> Scalar {
    Scalar { bits: FOV_SCALE_BITS }
}

/// Where the centre of pixel `i` of `count` lies between zero and one:
/// `(i + 0.5) * (1 / count)`.
pub open spec fn spec_pixel_center(i: u32, count: u32) -> Scalar {
    Scalar::from_u32(i).add(spec_half()).mul(Scalar::one().div(Scalar::from_u32(count)))
}

/// The direction of the ray through pixel `(x, y)`, for a camera at the
/// origin that looks down the negative `z` axis: `(xx, yy, -1)` scaled to
/// unit length, with `xx = (2 * cx - 1) * angle * aspect` and
/// `yy = (1 - 2 * cy) * angle`, where `cx` and `cy` are the pixel's centre
/// and `aspect` is `width / height`.
pub open spec fn spec_primary_dir(x: u32, y: u32, width: u32, height: u32) -> Vec3 {
    let aspect_ratio = Scalar::from_u32(width).div(Scalar::from_u32(height));
    let xx = Scalar::two().mul(spec_pixel_center(x, width)).sub(Scalar::one()).mul(
        spec_fov_scale(),
    ).mul(aspect_ratio);
    let yy = Scalar::one().sub(Scalar::two().mul(spec_pixel_center(y, height))).mul(
        spec_fov_scale(),
    );
    (Vec3 { x: xx, y: yy, z: Scalar::one().neg() }).spec_normalized()
}

/// The colour that the primary ray through pixel `(x, y)` brings back.
pub open spec fn spec_pixel_at(
    scene: Seq<Sphere>,
    width: u32,
    height: u32,
    x: u32,
    y: u32,
) -> Vec3 {
    spec_trace(Vec3::spec_origin(), spec_primary_dir(x, y, width, height), scene, 0)
}

/// The colour of pixel `i`, counted row by row from the top left.
pub open spec fn spec_pixel(scene: Seq<Sphere>, width: u32, height: u32, i: int) -> Vec3 {
    spec_pixel_at(scene, width, height, (i % width as int) as u32, (i / width as int) as u32)
}

/// The picture of a scene: `width * height` pixels, row by row.
pub open spec fn spec_render(scene: Seq<Sphere>, width: u32, height: u32) -> Seq<Vec3> {
    Seq::new((width * height) as nat, |i: int| spec_pixel(scene, width, height, i))
}

/// In the picture of a scene, pixel `(x, y)` stands at place
/// `y * width + x` and holds the colour of the primary ray through it.
pub proof fn lemma_render_is_row_major(
    scene: Seq<Sphere>,
    width: u32,
    height: u32,
    x: u32,
    y: u32,
)
    requires
        x < width,
        y < height,
    ensures
        y * width + x < spec_render(scene, width, height).len(),
        spec_render(scene, width, height)[y * width + x] == spec_pixel_at(
            scene,
            width,
            height,
            x,
            y,
        ),
{
    lemma_row_major(x, y, width);
    assert(y * width + x < width * height) by (nonlinear_arith)
        requires
            x < width,
            y < height,
    ;
}

/// Computes the direction of the primary ray through a pixel.
pub fn primary_dir(x: u32, y: u32, width: u32, height: u32) -> (dir: Vec3)
    ensures
        dir == spec_primary_dir(x, y, width, height),
{
    let inv_width = Scalar::one().div(Scalar::from_u32(width));
    let inv_height = Scalar::one().div(Scalar::from_u32(height));
    let aspect_ratio = Scalar::from_u32(width).div(Scalar::from_u32(height));
    let angle = Scalar::from_bits(FOV_SCALE_BITS);
    let half = Scalar::from_bits(HALF_BITS);
    let xx = Scalar::two().mul(Scalar::from_u32(x).add(half).mul(inv_width)).sub(
        Scalar::one(),
    ).mul(angle).mul(aspect_ratio);
    let yy = Scalar::one().sub(
        Scalar::two().mul(Scalar::from_u32(y).add(half).mul(inv_height)),
    ).mul(angle);
    let mut dir = Vec3::new(xx, yy, Scalar::one().neg());
    dir.normalize();
    dir
}

/// Renders the scene into a picture of the given size, one ray per pixel,
/// the top row first and each row from the left.
pub fn render_sized(spheres: &Vec<Sphere>, width: u32, height: u32) -> (image: Image)
    requires
        width * height <= usize::MAX,
    ensures
        image.spec_width() == width,
        image.spec_height() == height,
        image.spec_pixels() == spec_render(spheres@, width, height),
{
    let mut pixels: Vec<Vec3> = Vec::new();
    let mut y: u32 = 0;
    while y < height
        invariant
            y <= height,
            pixels@.len() == y * width,
            forall|i: int|
                0 <= i < pixels@.len() ==> pixels@[i] == spec_pixel(spheres@, width, height, i),
        decreases height - y,
    {
        let mut x: u32 = 0;
        while x < width
            invariant
                x <= width,
                y < height,
                pixels@.len() == y * width + x,
                forall|i: int|
                    0 <= i < pixels@.len() ==> pixels@[i] == spec_pixel(spheres@, width, height, i),
            decreases width - x,
        {
            let dir = primary_dir(x, y, width, height);
            let color = trace(&Vec3::origin(), &dir, spheres, 0);
            proof {
                lemma_row_major(x, y, width);
            }
            pixels.push(color);
            x += 1;
        }
        proof {
            assert((y + 1) * width == y * width + width) by (nonlinear_arith);
        }
        y += 1;
    }
    assert(height * width == width * height) by (nonlinear_arith);
    assert(pixels@ =~= spec_render(spheres@, width, height));
    Image::from_pixels(width, height, pixels).unwrap()
}

/// Renders the scene at 640 by 480 pixels.
pub fn render(spheres: &Vec<Sphere>) -> (image: Image)
    ensures
        image.spec_width() == WIDTH,
        image.spec_height() == HEIGHT,
        image.spec_pixels() == spec_render(spheres@, WIDTH, HEIGHT),
{
    render_sized(spheres, WIDTH, HEIGHT)
}

/// Pixel `(x, y)` stands at place `y * width + x`, and that place gives back
/// the column and the row.
pub proof fn lemma_row_major(x: u32, y: u32, width: u32)
    requires
        x < width,
    ensures
        (y * width + x) % (width as int) == x,
        (y * width + x) / (width as int) == y,
{
    vstd::arithmetic::div_mod::lemma_fundamental_div_mod_converse(
        y * width + x,
        width as int,
        y as int,
        x as int,
    );
}

} // verus!
