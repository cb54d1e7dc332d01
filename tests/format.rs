use eye::format::{ImageFormat, PixelFormat};

#[test]
fn bits_of_fixed_depth_formats() {
    assert_eq!(PixelFormat::Depth(16).bits(), Some(16));
    assert_eq!(PixelFormat::Gray(8).bits(), Some(8));
    assert_eq!(PixelFormat::Bgr(24).bits(), Some(24));
    assert_eq!(PixelFormat::Rgb(32).bits(), Some(32));
}

#[test]
fn bits_of_compressed_and_custom_formats() {
    assert_eq!(PixelFormat::Jpeg.bits(), None);
    assert_eq!(PixelFormat::Custom(String::from("NV12")).bits(), None);
}

#[test]
fn pixel_formats_compare_structurally() {
    assert_eq!(PixelFormat::Rgb(24), PixelFormat::Rgb(24));
    assert_ne!(PixelFormat::Rgb(24), PixelFormat::Bgr(24));
    assert_ne!(PixelFormat::Gray(8), PixelFormat::Gray(16));
    assert_eq!(
        PixelFormat::Custom(String::from("YUYV")),
        PixelFormat::Custom(String::from("YUYV"))
    );
    assert_ne!(
        PixelFormat::Custom(String::from("YUYV")),
        PixelFormat::Custom(String::from("UYVY"))
    );
    assert_ne!(PixelFormat::Jpeg, PixelFormat::Custom(String::from("Jpeg")));
}

#[test]
fn new_derives_stride_from_depth() {
    let f = ImageFormat::new(640, 480, PixelFormat::Rgb(24));
    assert_eq!(f.width, 640);
    assert_eq!(f.height, 480);
    assert_eq!(f.pixfmt, PixelFormat::Rgb(24));
    assert_eq!(f.stride, Some(1920));

    assert_eq!(ImageFormat::new(640, 480, PixelFormat::Gray(8)).stride, Some(640));
    assert_eq!(ImageFormat::new(1280, 720, PixelFormat::Depth(16)).stride, Some(2560));
    assert_eq!(ImageFormat::new(100, 1, PixelFormat::Bgr(32)).stride, Some(400));
}

#[test]
fn new_rounds_sub_byte_depth_down() {
    assert_eq!(ImageFormat::new(640, 480, PixelFormat::Gray(4)).stride, Some(0));
    assert_eq!(ImageFormat::new(10, 10, PixelFormat::Rgb(12)).stride, Some(10));
}

#[test]
fn new_with_largest_width() {
    let f = ImageFormat::new(u32::MAX, 1, PixelFormat::Rgb(32));
    assert_eq!(f.stride, Some((u32::MAX as usize) * 4));
}

#[test]
fn new_leaves_stride_unset_without_depth() {
    assert_eq!(ImageFormat::new(640, 480, PixelFormat::Jpeg).stride, None);
    assert_eq!(
        ImageFormat::new(640, 480, PixelFormat::Custom(String::from("H264"))).stride,
        None
    );
}

#[test]
fn stride_override_wins() {
    let f = ImageFormat::new(640, 480, PixelFormat::Rgb(24)).stride(2048);
    assert_eq!(f.stride, Some(2048));
    assert_eq!(f.width, 640);
    assert_eq!(f.height, 480);
    assert_eq!(f.pixfmt, PixelFormat::Rgb(24));

    let j = ImageFormat::new(640, 480, PixelFormat::Jpeg).stride(1000);
    assert_eq!(j.stride, Some(1000));
}

#[test]
fn format_clone_keeps_fields() {
    let f = ImageFormat::new(3, 2, PixelFormat::Custom(String::from("X"))).stride(7);
    let g = f.clone();
    assert_eq!(g.width, 3);
    assert_eq!(g.height, 2);
    assert_eq!(g.pixfmt, PixelFormat::Custom(String::from("X")));
    assert_eq!(g.stride, Some(7));
}
