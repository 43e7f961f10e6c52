//! The pixel buffer and its encoding as a plain-text pixel map.

use vstd::prelude::*;
use crate::customtypes::Vec3;
use crate::scalar::Scalar;

verus! {

/// The bits of `255.0`, the largest channel value of the pixel map.
pub const CHANNEL_MAX_BITS: u64 = 0x406f_e000_0000_0000;

/// The largest channel value.
pub open spec fn spec_channel_max() -> Scalar {
    Scalar { bits: CHANNEL_MAX_BITS }
}

/// A colour component as a byte: the component, capped at one, times 255,
/// cut off to its integer part.
pub open spec fn spec_channel(c: Scalar) -> u8 {
    c.min_one().mul(spec_channel_max()).to_u8()
}

/// The decimal digits of `n`, as ASCII, without leading zeros.
pub open spec fn spec_decimal(n: nat) -> Seq<u8>
    decreases n,
{
    if n < 10 {
        seq![(48 + n) as u8]
    } else {
        spec_decimal(n / 10).push((48 + n % 10) as u8)
    }
}

/// The head of the pixel map: the mark of the plain-text format (the letter
/// `P` and the digit three), the width and the height on one line, and the
/// largest channel value on the next.
pub open spec fn spec_header(width: u32, height: u32) -> Seq<u8> {
    seq![80u8, 51u8, 10u8] + spec_decimal(width as nat) + seq![32u8] + spec_decimal(height as nat)
        + seq![10u8, 50u8, 53u8, 53u8, 10u8]
}

/// One pixel: its red, green and blue channel in decimal, a space between
/// them and a line feed behind.
pub open spec fn spec_pixel_line(pixel: Vec3) -> Seq<u8> {
    spec_decimal(spec_channel(pixel.x) as nat) + seq![32u8] + spec_decimal(
        spec_channel(pixel.y) as nat,
    ) + seq![32u8] + spec_decimal(spec_channel(pixel.z) as nat) + seq![10u8]
}

/// The lines of the first `n` pixels, in order.
pub open spec fn spec_pixel_lines(pixels: Seq<Vec3>, n: int) -> Seq<u8>
    decreases n,
{
    if n <= 0 {
        Seq::empty()
    } else {
        spec_pixel_lines(pixels, n - 1) + spec_pixel_line(pixels[n - 1])
    }
}

/// The whole pixel map: the head, then a line for every pixel.
pub open spec fn spec_ppm(width: u32, height: u32, pixels: Seq<Vec3>) -> Seq<u8> {
    spec_header(width, height) + spec_pixel_lines(pixels, pixels.len() as int)
}

/// Quantizes a colour component to a byte.
#[verifier::when_used_as_spec(spec_channel)]
pub fn channel(c: Scalar) -> (r: u8)
    ensures
        r == spec_channel(c),
{
    c.min_one().mul(Scalar::from_bits(CHANNEL_MAX_BITS)).to_u8()
}

/// Appends the decimal digits of `n`.
pub fn push_decimal(out: &mut Vec<u8>, n: u32)
    ensures
        final(out)@ == old(out)@ + spec_decimal(n as nat),
    decreases n,
{
    if n >= 10 {
        push_decimal(out, n / 10);
    }
    let digit: u8 = 48 + (n % 10) as u8;
    out.push(digit);
    assert(out@ =~= old(out)@ + spec_decimal(n as nat));
}

/// Appends the line of one pixel.
pub fn push_pixel_line(out: &mut Vec<u8>, pixel: &Vec3)
    ensures
        final(out)@ == old(out)@ + spec_pixel_line(*pixel),
{
    push_decimal(out, channel(pixel.x()) as u32);
    out.push(32);
    push_decimal(out, channel(pixel.y()) as u32);
    out.push(32);
    push_decimal(out, channel(pixel.z()) as u32);
    out.push(10);
    assert(out@ =~= old(out)@ + spec_pixel_line(*pixel));
}

/// The product of two `u32` values fits in 64 bits.
proof fn lemma_product_fits(a: u32, b: u32)
    ensures
        a * b <= 0xffff_fffe_0000_0001,
{
    assert(a * b <= 0xffff_ffff * 0xffff_ffff) by (nonlinear_arith)
        requires
            0 <= a <= 0xffff_ffff,
            0 <= b <= 0xffff_ffff,
    ;
}

/// A picture: its pixels row by row from the top, each row from the left.
/// There are always `width * height` of them.
#[derive(Debug)]
pub struct Image {
    width: u32,
    height: u32,
    pixels: Vec<Vec3>,
}

impl Image {
    #[verifier::type_invariant]
    spec fn is_filled(self) -> bool {
        self.pixels@.len() == self.width * self.height
    }

    /// The number of columns.
    pub closed spec fn spec_width(self) -> u32 {
        self.width
    }

    /// The number of rows.
    pub closed spec fn spec_height(self) -> u32 {
        self.height
    }

    /// The pixels, row by row.
    pub closed spec fn spec_pixels(self) -> Seq<Vec3> {
        self.pixels@
    }

    /// The text of the picture as a pixel map.
    pub open spec fn spec_encode(self) -> Seq<u8> {
        spec_ppm(self.spec_width(), self.spec_height(), self.spec_pixels())
    }

    /// Makes a picture of pixels that are given row by row; `None` unless
    /// there are exactly `width * height` of them.
    pub fn from_pixels(width: u32, height: u32, pixels: Vec<Vec3>) -> (r: Option<Image>)
        ensures
            r is Some <==> pixels@.len() == width * height,
            r is Some ==> r->0.spec_width() == width && r->0.spec_height() == height
                && r->0.spec_pixels() == pixels@,
    {
        proof {
            lemma_product_fits(width, height);
        }
        let count: u64 = width as u64 * height as u64;
        if pixels.len() as u64 == count {
            Some(Image { width, height, pixels })
        } else {
            None
        }
    }

    /// The number of columns.
    pub fn width(&self) -> (r: u32)
        ensures
            r == self.spec_width(),
    {
        self.width
    }

    /// The number of rows.
    pub fn height(&self) -> (r: u32)
        ensures
            r == self.spec_height(),
    {
        self.height
    }

    /// The pixels, row by row.
    pub fn pixels(&self) -> (r: &Vec<Vec3>)
        ensures
            r@ == self.spec_pixels(),
            r@.len() == self.spec_width() * self.spec_height(),
    {
        proof {
            use_type_invariant(self);
        }
        &self.pixels
    }

    /// The pixel in column `x` of row `y`.
    pub fn pixel(&self, x: u32, y: u32) -> (r: Vec3)
        requires
            x < self.spec_width(),
            y < self.spec_height(),
        ensures
            y * self.spec_width() + x < self.spec_pixels().len(),
            r == self.spec_pixels()[y * self.spec_width() + x],
    {
        proof {
            use_type_invariant(self);
            lemma_product_fits(y, self.width);
            assert(y * self.width + x < self.width * self.height) by (nonlinear_arith)
                requires
                    x < self.width,
                    y < self.height,
            ;
        }
        let i: u64 = y as u64 * self.width as u64 + x as u64;
        let count: usize = self.pixels.len();
        assert(i < count);
        self.pixels[i as usize]
    }

    /// Writes the picture as a plain-text pixel map.
    pub fn encode(&self) -> (out: Vec<u8>)
        ensures
            out@ == self.spec_encode(),
    {
        let mut out: Vec<u8> = Vec::new();
        out.push(80);
        out.push(51);
        out.push(10);
        push_decimal(&mut out, self.width);
        out.push(32);
        push_decimal(&mut out, self.height);
        out.push(10);
        out.push(50);
        out.push(53);
        out.push(53);
        out.push(10);
        assert(out@ =~= spec_header(self.width, self.height));
        let mut i: usize = 0;
        while i < self.pixels.len()
            invariant
                i <= self.pixels.len(),
                out@ == spec_header(self.width, self.height) + spec_pixel_lines(
                    self.pixels@,
                    i as int,
                ),
            decreases self.pixels.len() - i,
        {
            push_pixel_line(&mut out, &self.pixels[i]);
            assert(out@ =~= spec_header(self.width, self.height) + spec_pixel_lines(
                self.pixels@,
                i + 1,
            ));
            i += 1;
        }
        out
    }
}

} // verus!
