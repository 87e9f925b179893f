//! The plain-text RGB image format: a type tag line, a `<width> <height>`
//! line, a line with the largest channel value, then one `R G B` line per
//! pixel, row-major from the top scanline.
use vstd::prelude::*;

verus! {

/// One pixel after quantisation: each channel an integer in `[0, max_color]`.
#[derive(Clone, Copy, Debug, PartialEq, Eq, Structural)]
pub struct Rgb {
    pub r: u64,
    pub g: u64,
    pub b: u64,
}

/// Why an image could not be encoded.
#[derive(Clone, Copy, Debug, PartialEq, Eq, Structural)]
pub enum EncodeError {
    /// The number of pixels is not `width * height`.
    PixelCount,
    /// Some channel exceeds the declared largest channel value.
    ChannelRange,
}

/// ASCII line feed.
pub const NEWLINE: u8 = 10;

/// ASCII space.
pub const SPACE: u8 = 32;

/// ASCII `0`.
pub const ZERO: u8 = 48;

/// ASCII `P`.
pub const LETTER_P: u8 = 80;

/// ASCII `3`.
pub const THREE: u8 = 51;

/// The ASCII code of a decimal digit.
pub open spec fn digit_byte(d: nat) -> u8
    recommends
        d < 10,
{
    (ZERO + d) as u8
}

/// The decimal notation of `n`, most significant digit first, without
/// leading zeros (zero is written `0`).
pub open spec fn decimal(n: nat) -> Seq<u8>
    decreases n,
{
    if n < 10 {
        seq![digit_byte(n)]
    } else {
        decimal(n / 10).push(digit_byte(n % 10))
    }
}

/// `P3`, then `<width> <height>`, then `<max_color>`, each on a line of its own.
pub open spec fn header_text(width: nat, height: nat, max_color: nat) -> Seq<u8> {
    seq![LETTER_P, THREE, NEWLINE] + decimal(width) + seq![SPACE] + decimal(height) + seq![
        NEWLINE,
    ] + decimal(max_color) + seq![NEWLINE]
}

/// The line `R G B` of one pixel.
pub open spec fn pixel_text(p: Rgb) -> Seq<u8> {
    decimal(p.r as nat) + seq![SPACE] + decimal(p.g as nat) + seq![SPACE] + decimal(
        p.b as nat,
    ) + seq![NEWLINE]
}

/// The lines of all pixels, in order.
pub open spec fn pixels_text(ps: Seq<Rgb>) -> Seq<u8>
    decreases ps.len(),
{
    if ps.len() == 0 {
        seq![]
    } else {
        pixels_text(ps.drop_last()) + pixel_text(ps.last())
    }
}

/// The whole file: the header, then every pixel's line.
pub open spec fn image_text(width: nat, height: nat, max_color: nat, ps: Seq<Rgb>) -> Seq<u8> {
    header_text(width, height, max_color) + pixels_text(ps)
}

/// Every channel of `p` is at most `max_color`.
pub open spec fn in_range(p: Rgb, max_color: nat) -> bool {
    p.r <= max_color && p.g <= max_color && p.b <= max_color
}

/// Every channel of every pixel is at most `max_color`.
pub open spec fn all_in_range(ps: Seq<Rgb>, max_color: nat) -> bool {
    forall|i: int| 0 <= i < ps.len() ==> in_range(#[trigger] ps[i], max_color)
}

/// Appends the decimal notation of `n` to `out`.
pub fn push_decimal(out: &mut Vec<u8>, n: u64)
    ensures
        final(out)@ == old(out)@ + decimal(n as nat),
    decreases n,
{
    if n >= 10 {
        push_decimal(out, n / 10);
    }
    out.push(ZERO + (n % 10) as u8);
}

/// The header of an image of `width` by `height` pixels whose channels go
/// up to `max_color`.
pub fn header(width: u64, height: u64, max_color: u64) -> (r: Vec<u8>)
    ensures
        r@ == header_text(width as nat, height as nat, max_color as nat),
{
    let mut out: Vec<u8> = Vec::new();
    out.push(LETTER_P);
    out.push(THREE);
    out.push(NEWLINE);
    push_decimal(&mut out, width);
    out.push(SPACE);
    push_decimal(&mut out, height);
    out.push(NEWLINE);
    push_decimal(&mut out, max_color);
    out.push(NEWLINE);
    assert(out@ =~= header_text(width as nat, height as nat, max_color as nat));
    out
}

/// Appends the line of one pixel to `out`.
pub fn push_pixel(out: &mut Vec<u8>, pixel: Rgb)
    ensures
        final(out)@ == old(out)@ + pixel_text(pixel),
{
    let ghost start = out@;
    push_decimal(out, pixel.r);
    out.push(SPACE);
    push_decimal(out, pixel.g);
    out.push(SPACE);
    push_decimal(out, pixel.b);
    out.push(NEWLINE);
    assert(out@ =~= start + pixel_text(pixel));
}

/// Encodes a whole image. The pixels are given row-major from the top
/// scanline.
pub fn encode(width: u64, height: u64, max_color: u64, pixels: &Vec<Rgb>) -> (r: Result<
    Vec<u8>,
    EncodeError,
>)
    ensures
        pixels@.len() != width * height ==> r == Err::<Vec<u8>, EncodeError>(
            EncodeError::PixelCount,
        ),
        pixels@.len() == width * height && !all_in_range(pixels@, max_color as nat) ==> r == Err::<
            Vec<u8>,
            EncodeError,
        >(EncodeError::ChannelRange),
        pixels@.len() == width * height && all_in_range(pixels@, max_color as nat) ==> (r matches Ok(
            v,
        ) && v@ == image_text(width as nat, height as nat, max_color as nat, pixels@)),
{
    proof {
        assert((width as int) * (height as int) <= u64::MAX as int * u64::MAX as int) by (
        nonlinear_arith)
            requires
                width <= u64::MAX,
                height <= u64::MAX,
        ;
    }
    if (pixels.len() as u128) != (width as u128) * (height as u128) {
        return Err(EncodeError::PixelCount);
    }
    let mut k: usize = 0;
    while k < pixels.len()
        invariant
            0 <= k <= pixels@.len(),
            pixels@.len() == width * height,
            forall|i: int| 0 <= i < k ==> in_range(#[trigger] pixels@[i], max_color as nat),
        decreases pixels@.len() - k,
    {
        let p = pixels[k];
        if p.r > max_color || p.g > max_color || p.b > max_color {
            return Err(EncodeError::ChannelRange);
        }
        k = k + 1;
    }
    let mut out = header(width, height, max_color);
    let mut k: usize = 0;
    while k < pixels.len()
        invariant
            0 <= k <= pixels@.len(),
            out@ == header_text(width as nat, height as nat, max_color as nat) + pixels_text(
                pixels@.subrange(0, k as int),
            ),
        decreases pixels@.len() - k,
    {
        proof {
            let s = pixels@.subrange(0, k as int + 1);
            assert(s.drop_last() =~= pixels@.subrange(0, k as int));
            assert(s.last() == pixels@[k as int]);
        }
        push_pixel(&mut out, pixels[k]);
        assert(out@ =~= header_text(width as nat, height as nat, max_color as nat) + pixels_text(
            pixels@.subrange(0, k as int + 1),
        ));
        k = k + 1;
    }
    assert(pixels@.subrange(0, pixels@.len() as int) =~= pixels@);
    Ok(out)
}

} // verus!
