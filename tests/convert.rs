use eye::convert::{BasicConverter, ConvertError, Converter, IdentityConverter};
use eye::format::{ImageFormat, PixelFormat};

fn fmt(p: PixelFormat) -> ImageFormat {
    ImageFormat::new(2, 1, p)
}

#[test]
fn identity_copies_same_format() {
    let mut dst = vec![9u8; 5];
    let r = IdentityConverter::convert(&[1u8, 2, 3], &fmt(PixelFormat::Jpeg), &mut dst, &PixelFormat::Jpeg);
    assert_eq!(r, Ok(()));
    assert_eq!(dst, vec![1u8, 2, 3]);
}

#[test]
fn identity_refuses_other_format() {
    let mut dst = Vec::new();
    let r = IdentityConverter::convert(&[1u8, 2, 3], &fmt(PixelFormat::Rgb(24)), &mut dst, &PixelFormat::Bgr(24));
    assert_eq!(r, Err(ConvertError));
}

#[test]
fn basic_swaps_rgb_and_bgr() {
    let mut dst = Vec::new();
    let src = [1u8, 2, 3, 4, 5, 6];
    assert_eq!(BasicConverter::convert(&src, &fmt(PixelFormat::Rgb(24)), &mut dst, &PixelFormat::Bgr(24)), Ok(()));
    assert_eq!(dst, vec![3u8, 2, 1, 6, 5, 4]);
    let mut back = Vec::new();
    assert_eq!(BasicConverter::convert(&dst, &fmt(PixelFormat::Bgr(24)), &mut back, &PixelFormat::Rgb(24)), Ok(()));
    assert_eq!(back, src.to_vec());
}

#[test]
fn basic_grays_rgb_and_bgr() {
    let mut dst = Vec::new();
    let src = [255u8, 255, 255, 30, 60, 90];
    assert_eq!(BasicConverter::convert(&src, &fmt(PixelFormat::Rgb(24)), &mut dst, &PixelFormat::Gray(8)), Ok(()));
    assert_eq!(dst, vec![255u8, 54]);
    let bgr = [90u8, 60, 30, 0, 0, 255];
    assert_eq!(BasicConverter::convert(&bgr, &fmt(PixelFormat::Bgr(24)), &mut dst, &PixelFormat::Gray(8)), Ok(()));
    assert_eq!(dst, vec![54u8, 76]);
}

#[test]
fn basic_copies_same_format() {
    let mut dst = Vec::new();
    assert_eq!(BasicConverter::convert(&[7u8, 8], &fmt(PixelFormat::Gray(8)), &mut dst, &PixelFormat::Gray(8)), Ok(()));
    assert_eq!(dst, vec![7u8, 8]);
}

#[test]
fn basic_refuses_unsupported_pairs() {
    let mut dst = Vec::new();
    assert_eq!(
        BasicConverter::convert(&[1u8, 2, 3], &fmt(PixelFormat::Jpeg), &mut dst, &PixelFormat::Gray(8)),
        Err(ConvertError)
    );
    assert_eq!(
        BasicConverter::convert(&[1u8, 2, 3], &fmt(PixelFormat::Gray(8)), &mut dst, &PixelFormat::Rgb(24)),
        Err(ConvertError)
    );
    assert_eq!(
        BasicConverter::convert(&[1u8, 2, 3], &fmt(PixelFormat::Rgb(24)), &mut dst, &PixelFormat::Gray(16)),
        Err(ConvertError)
    );
}

#[test]
fn basic_refuses_partial_pixels() {
    let mut dst = Vec::new();
    assert_eq!(
        BasicConverter::convert(&[1u8, 2, 3, 4], &fmt(PixelFormat::Rgb(24)), &mut dst, &PixelFormat::Bgr(24)),
        Err(ConvertError)
    );
}
