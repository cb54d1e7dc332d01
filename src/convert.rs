use vstd::prelude::*;

use crate::format::{ImageFormat, PixelFormat};
use crate::image::copy_bytes;

verus! {

/// A conversion that could not be made: the pair of formats is not supported, or the
/// bytes do not fit the source format.
#[derive(Debug, Clone, Copy, PartialEq, Eq, Structural)]
pub struct ConvertError;

/// Pixel conversion between formats. Each implementation states which conversions it
/// supports and what it produces; the pixel math is its own business.
pub trait Converter {
    /// Whether converting `src`, laid out as `src_format`, to `dst_format` succeeds.
    spec fn supports(src: Seq<u8>, src_format: ImageFormat, dst_format: PixelFormat) -> bool;

    /// Whether `out` is a conversion of `src`, laid out as `src_format`, to `dst_format`.
    spec fn converts(src: Seq<u8>, src_format: ImageFormat, dst_format: PixelFormat, out: Seq<u8>) -> bool;

    /// Converts `src` into `dst`, replacing what `dst` held.
    fn convert(src: &[u8], src_format: &ImageFormat, dst: &mut Vec<u8>, dst_format: &PixelFormat) -> (r: Result<(), ConvertError>)
        ensures
            r is Ok <==> Self::supports(src@, *src_format, *dst_format),
            r is Ok ==> Self::converts(src@, *src_format, *dst_format, final(dst)@),
    ;
}

/// The converter that supports only conversions into the source's own pixel format,
/// which it performs by copying the bytes.
pub struct IdentityConverter;

impl Converter for IdentityConverter {
    open spec fn supports(src: Seq<u8>, src_format: ImageFormat, dst_format: PixelFormat) -> bool {
        src_format.pixfmt.same(&dst_format)
    }

    open spec fn converts(src: Seq<u8>, src_format: ImageFormat, dst_format: PixelFormat, out: Seq<u8>) -> bool {
        out == src
    }

    fn convert(src: &[u8], src_format: &ImageFormat, dst: &mut Vec<u8>, dst_format: &PixelFormat) -> (r: Result<(), ConvertError>) {
        if src_format.pixfmt != *dst_format {
            return Err(ConvertError);
        }
        *dst = copy_bytes(src);
        Ok(())
    }
}

/// Gray level of an 8-bit red, green, blue triple (integer BT.601 weights).
pub open spec fn luma(r: u8, g: u8, b: u8) -> u8 {
    ((77 * r + 150 * g + 29 * b) / 256) as u8
}

/// Packed three-byte pixels with the first and third byte of each pixel exchanged.
pub open spec fn swapped(src: Seq<u8>) -> Seq<u8> {
    Seq::new(src.len(), |i: int| src[3 * (i / 3) + 2 - i % 3])
}

/// One gray byte per packed three-byte pixel; `red_first` tells whether the first
/// byte of a pixel is red (RGB) or blue (BGR).
pub open spec fn grayed(src: Seq<u8>, red_first: bool) -> Seq<u8> {
    Seq::new(src.len() / 3, |i: int|
        if red_first {
            luma(src[3 * i], src[3 * i + 1], src[3 * i + 2])
        } else {
            luma(src[3 * i + 2], src[3 * i + 1], src[3 * i])
        })
}

/// Whether a pixel layout is packed 24-bit red, green, blue or blue, green, red.
pub open spec fn is_rgb_like(p: PixelFormat) -> bool {
    p == PixelFormat::Rgb(24) || p == PixelFormat::Bgr(24)
}

/// The conversions between 8-bit-per-channel RGB, BGR and gray: a format into
/// itself (a copy), RGB and BGR into each other, and either into 8-bit gray.
pub struct BasicConverter;

impl Converter for BasicConverter {
    open spec fn supports(src: Seq<u8>, src_format: ImageFormat, dst_format: PixelFormat) -> bool {
        ||| src_format.pixfmt.same(&dst_format)
        ||| is_rgb_like(src_format.pixfmt) && (is_rgb_like(dst_format) || dst_format == PixelFormat::Gray(8))
            && src.len() % 3 == 0
    }

    open spec fn converts(src: Seq<u8>, src_format: ImageFormat, dst_format: PixelFormat, out: Seq<u8>) -> bool {
        if src_format.pixfmt.same(&dst_format) {
            out == src
        } else if dst_format == PixelFormat::Gray(8) {
            out == grayed(src, src_format.pixfmt == PixelFormat::Rgb(24))
        } else {
            out == swapped(src)
        }
    }

    fn convert(src: &[u8], src_format: &ImageFormat, dst: &mut Vec<u8>, dst_format: &PixelFormat) -> (r: Result<(), ConvertError>) {
        if src_format.pixfmt == *dst_format {
            return IdentityConverter::convert(src, src_format, dst, dst_format);
        }
        let rgb = src_format.pixfmt == PixelFormat::Rgb(24);
        let bgr = src_format.pixfmt == PixelFormat::Bgr(24);
        if !(rgb || bgr) || src.len() % 3 != 0 {
            return Err(ConvertError);
        }
        if *dst_format == PixelFormat::Gray(8) {
            gray_pixels(src, dst, rgb);
            Ok(())
        } else if *dst_format == PixelFormat::Rgb(24) || *dst_format == PixelFormat::Bgr(24) {
            swap_pixels(src, dst);
            Ok(())
        } else {
            Err(ConvertError)
        }
    }
}

/// Gray level of one pixel, from its red, green and blue bytes.
fn luma_of(r: u8, g: u8, b: u8) -> (y: u8)
    ensures
        y == luma(r, g, b),
{
    let sum: u32 = 77 * (r as u32) + 150 * (g as u32) + 29 * (b as u32);
    (sum / 256) as u8
}

/// Writes the gray levels of the packed pixels of `src` into `dst`.
fn gray_pixels(src: &[u8], dst: &mut Vec<u8>, red_first: bool)
    requires
        src@.len() % 3 == 0,
    ensures
        final(dst)@ == grayed(src@, red_first),
{
    dst.clear();
    let len: usize = src.len();
    let n: usize = len / 3;
    let mut i: usize = 0;
    while i < n
        invariant
            len == src@.len(),
            n == src@.len() / 3,
            src@.len() % 3 == 0,
            i <= n,
            dst@ =~= grayed(src@, red_first).subrange(0, i as int),
        decreases n - i,
    {
        assert(3 * i + 3 <= src@.len()) by (nonlinear_arith)
            requires
                i < n,
                n == src@.len() / 3,
                src@.len() % 3 == 0,
        ;
        let k: usize = 3 * i;
        let (a, g, c) = (src[k], src[k + 1], src[k + 2]);
        let y = if red_first { luma_of(a, g, c) } else { luma_of(c, g, a) };
        dst.push(y);
        i = i + 1;
    }
    assert(dst@ =~= grayed(src@, red_first));
}

/// Writes the pixels of `src` into `dst` with the first and third byte of each
/// pixel exchanged.
fn swap_pixels(src: &[u8], dst: &mut Vec<u8>)
    requires
        src@.len() % 3 == 0,
    ensures
        final(dst)@ == swapped(src@),
{
    dst.clear();
    let mut i: usize = 0;
    while i < src.len()
        invariant
            src@.len() % 3 == 0,
            i <= src@.len(),
            i % 3 == 0,
            dst@ =~= swapped(src@).subrange(0, i as int),
        decreases src@.len() - i,
    {
        dst.push(src[i + 2]);
        dst.push(src[i + 1]);
        dst.push(src[i]);
        assert(dst@ =~= swapped(src@).subrange(0, i + 3));
        i = i + 3;
    }
    assert(dst@ =~= swapped(src@));
}

} // verus!
