use crate::canvas::{Canvas, CanvasView, Rgba};
use vstd::prelude::*;

verus! {

/// ASCII `P`.
pub const LETTER_P: u8 = 80;

/// ASCII space.
pub const SPACE: u8 = 32;

/// ASCII line feed.
pub const NEWLINE: u8 = 10;

/// ASCII `0`; the digit `d` is `ZERO + d`.
pub const ZERO: u8 = 48;

/// The ASCII digit for `d < 10`.
pub open spec fn digit_byte(d: nat) -> u8 {
    (ZERO + d) as u8
}

/// Decimal notation of `n`, without leading zeros.
pub open spec fn decimal(n: nat) -> Seq<u8>
    decreases n,
{
    if n < 10 {
        seq![digit_byte(n)]
    } else {
        decimal(n / 10).push(digit_byte(n % 10))
    }
}

/// `P3`, the width and height, and the largest channel value, one per line.
pub open spec fn ppm_header(width: nat, height: nat) -> Seq<u8> {
    seq![LETTER_P, digit_byte(3), NEWLINE] + decimal(width) + seq![SPACE] + decimal(height)
        + seq![NEWLINE] + decimal(255) + seq![NEWLINE]
}

/// One pixel as `r g b` and a line break.
pub open spec fn ppm_pixel(p: Rgba) -> Seq<u8> {
    decimal(p.r as nat) + seq![SPACE] + decimal(p.g as nat) + seq![SPACE] + decimal(p.b as nat)
        + seq![NEWLINE]
}

/// The lines of the given pixels, in order.
pub open spec fn ppm_pixels(pixels: Seq<Rgba>) -> Seq<u8>
    decreases pixels.len(),
{
    if pixels.len() == 0 {
        Seq::empty()
    } else {
        ppm_pixels(pixels.drop_last()) + ppm_pixel(pixels.last())
    }
}

/// A canvas in the plain-text portable pixmap format.
pub open spec fn ppm_image(c: CanvasView) -> Seq<u8> {
    ppm_header(c.width, c.height) + ppm_pixels(c.pixels)
}

/// Appends the decimal notation of `n`.
fn push_decimal(out: &mut Vec<u8>, n: usize)
    ensures
        final(out)@ == old(out)@ + decimal(n as nat),
    decreases n,
{
    if n >= 10 {
        push_decimal(out, n / 10);
    }
    out.push(ZERO + (n % 10) as u8);
    proof {
        assert(old(out)@ + decimal(n as nat) =~= out@);
    }
}

fn push_pixel(out: &mut Vec<u8>, p: Rgba)
    ensures
        final(out)@ == old(out)@ + ppm_pixel(p),
{
    push_decimal(out, p.r as usize);
    out.push(SPACE);
    push_decimal(out, p.g as usize);
    out.push(SPACE);
    push_decimal(out, p.b as usize);
    out.push(NEWLINE);
    proof {
        assert(old(out)@ + ppm_pixel(p) =~= out@);
    }
}

/// Encodes a canvas as a plain-text portable pixmap: a header, then one
/// `r g b` line per pixel in row-major order.
pub fn encode_ppm(canvas: &Canvas) -> (bytes: Vec<u8>)
    ensures
        bytes@ == ppm_image(canvas@),
{
    let mut out: Vec<u8> = Vec::new();
    out.push(LETTER_P);
    out.push(ZERO + 3);
    out.push(NEWLINE);
    push_decimal(&mut out, canvas.width());
    out.push(SPACE);
    push_decimal(&mut out, canvas.height());
    out.push(NEWLINE);
    push_decimal(&mut out, 255);
    out.push(NEWLINE);
    let ghost header = out@;
    assert(header =~= ppm_header(canvas@.width, canvas@.height));
    let data = canvas.data();
    let mut i: usize = 0;
    while i < data.len()
        invariant
            i <= data@.len(),
            data@ == canvas@.pixels,
            out@ == header + ppm_pixels(data@.take(i as int)),
            header == ppm_header(canvas@.width, canvas@.height),
        decreases data@.len() - i,
    {
        push_pixel(&mut out, data[i]);
        proof {
            assert(data@.take(i + 1).drop_last() =~= data@.take(i as int));
        }
        i = i + 1;
    }
    assert(data@.take(i as int) =~= data@);
    out
}

} // verus!
