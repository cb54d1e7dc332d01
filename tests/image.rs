use eye::format::{ImageFormat, PixelFormat};
use eye::image::CowImage;

#[test]
fn view_does_not_own_and_reads_through() {
    let bytes = vec![1u8, 2, 3];
    let img = CowImage::from_view(&bytes, ImageFormat::new(1, 1, PixelFormat::Rgb(24)));
    assert!(!img.is_owned());
    assert_eq!(img.as_bytes(), &[1u8, 2, 3][..]);
    assert_eq!(img.as_bytes().as_ptr(), bytes.as_ptr());
}

#[test]
fn mutation_copies_a_view_and_leaves_the_source() {
    let bytes = vec![1u8, 2, 3];
    let mut img = CowImage::from_view(&bytes, ImageFormat::new(1, 1, PixelFormat::Rgb(24)));
    {
        let buf = img.to_mut();
        assert_eq!(buf.as_slice(), &[1u8, 2, 3][..]);
        buf[0] = 9;
    }
    assert!(img.is_owned());
    assert_eq!(img.as_bytes(), &[9u8, 2, 3][..]);
    assert_eq!(bytes, vec![1u8, 2, 3]);
    assert_eq!(img.format.pixfmt, PixelFormat::Rgb(24));
}

#[test]
fn owned_image_mutates_in_place() {
    let mut img = CowImage::from_bytes(vec![5u8, 6], ImageFormat::new(2, 1, PixelFormat::Gray(8)));
    assert!(img.is_owned());
    img.to_mut().push(7);
    assert_eq!(img.as_bytes(), &[5u8, 6, 7][..]);
}
