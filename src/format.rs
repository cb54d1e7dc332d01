use vstd::prelude::*;

verus! {

/// Pixel layout of an image: a fixed-depth layout that carries the bit depth of a
/// whole pixel, a compressed encoding, or an application-defined format.
#[derive(Debug, Eq, Hash)]
pub enum PixelFormat {
    /// Application-defined format
    Custom(String),
    /// Z buffer
    Depth(u32),
    /// Grayscale
    Gray(u32),
    /// Blue, green, red
    Bgr(u32),
    /// Red, green, blue
    Rgb(u32),
    /// JPEG compression
    Jpeg,
}

impl PixelFormat {
    /// Bit depth of a whole pixel; `None` for compressed and custom formats.
    pub open spec fn bits_spec(&self) -> Option<u32> {
        match self {
            PixelFormat::Custom(_) => None,
            PixelFormat::Depth(b) => Some(*b),
            PixelFormat::Gray(b) => Some(*b),
            PixelFormat::Bgr(b) => Some(*b),
            PixelFormat::Rgb(b) => Some(*b),
            PixelFormat::Jpeg => None,
        }
    }

    /// Returns the number of bits of a whole pixel.
    pub fn bits(&self) -> (r: Option<u32>)
        ensures
            r == self.bits_spec(),
    {
        match self {
            PixelFormat::Custom(_) => None,
            PixelFormat::Depth(b) => Some(*b),
            PixelFormat::Gray(b) => Some(*b),
            PixelFormat::Bgr(b) => Some(*b),
            PixelFormat::Rgb(b) => Some(*b),
            PixelFormat::Jpeg => None,
        }
    }
}


impl PixelFormat {
    /// Structural equality: same variant, same depth, same name for a custom format.
    pub open spec fn same(&self, other: &PixelFormat) -> bool {
        match (self, other) {
            (PixelFormat::Custom(a), PixelFormat::Custom(b)) => a@ == b@,
            (PixelFormat::Depth(a), PixelFormat::Depth(b)) => a == b,
            (PixelFormat::Gray(a), PixelFormat::Gray(b)) => a == b,
            (PixelFormat::Bgr(a), PixelFormat::Bgr(b)) => a == b,
            (PixelFormat::Rgb(a), PixelFormat::Rgb(b)) => a == b,
            (PixelFormat::Jpeg, PixelFormat::Jpeg) => true,
            _ => false,
        }
    }
}

impl Clone for PixelFormat {
    fn clone(&self) -> (r: Self)
        ensures
            r == *self,
    {
        match self {
            PixelFormat::Custom(name) => PixelFormat::Custom(name.clone()),
            PixelFormat::Depth(b) => PixelFormat::Depth(*b),
            PixelFormat::Gray(b) => PixelFormat::Gray(*b),
            PixelFormat::Bgr(b) => PixelFormat::Bgr(*b),
            PixelFormat::Rgb(b) => PixelFormat::Rgb(*b),
            PixelFormat::Jpeg => PixelFormat::Jpeg,
        }
    }
}

impl PartialEq for PixelFormat {
    fn eq(&self, other: &PixelFormat) -> (r: bool) {
        match (self, other) {
            (PixelFormat::Custom(a), PixelFormat::Custom(b)) => *a == *b,
            (PixelFormat::Depth(a), PixelFormat::Depth(b)) => *a == *b,
            (PixelFormat::Gray(a), PixelFormat::Gray(b)) => *a == *b,
            (PixelFormat::Bgr(a), PixelFormat::Bgr(b)) => *a == *b,
            (PixelFormat::Rgb(a), PixelFormat::Rgb(b)) => *a == *b,
            (PixelFormat::Jpeg, PixelFormat::Jpeg) => true,
            _ => false,
        }
    }
}

impl vstd::std_specs::cmp::PartialEqSpecImpl for PixelFormat {
    open spec fn obeys_eq_spec() -> bool {
        true
    }

    open spec fn eq_spec(&self, other: &PixelFormat) -> bool {
        self.same(other)
    }
}

/// Geometry and pixel layout of an image buffer.
#[derive(Debug)]
pub struct ImageFormat {
    /// Width in pixels
    pub width: u32,
    /// Height in pixels
    pub height: u32,
    /// Pixel layout
    pub pixfmt: PixelFormat,
    /// Length of a pixel row in bytes, where known
    pub stride: Option<usize>,
}

impl Clone for ImageFormat {
    fn clone(&self) -> (r: Self)
        ensures
            r == *self,
    {
        ImageFormat {
            width: self.width,
            height: self.height,
            pixfmt: self.pixfmt.clone(),
            stride: self.stride,
        }
    }
}

/// Row length derived from the pixel layout: `width * (bits / 8)` for a fixed-depth
/// layout, unset for a compressed or custom one.
pub open spec fn derived_stride(width: u32, pixfmt: PixelFormat) -> Option<usize> {
    match pixfmt.bits_spec() {
        Some(b) => Some((width * (b / 8)) as usize),
        None => None,
    }
}

impl ImageFormat {
    /// The format that `new` builds from its arguments.
    pub open spec fn new_spec(width: u32, height: u32, pixfmt: PixelFormat) -> ImageFormat {
        ImageFormat { width, height, pixfmt, stride: derived_stride(width, pixfmt) }
    }

    /// The same format with the row length set explicitly.
    pub open spec fn with_stride(self, stride: usize) -> ImageFormat {
        ImageFormat { stride: Some(stride), ..self }
    }

    /// Returns an image format whose stride is derived from the pixel layout.
    pub fn new(width: u32, height: u32, pixfmt: PixelFormat) -> (r: Self)
        ensures
            r == Self::new_spec(width, height, pixfmt),
    {
        let stride = match pixfmt.bits() {
            Some(bits) => {
                let bytes: u32 = bits / 8;
                assert((width as int) * (bytes as int) <= 0xffff_ffff * 0xffff_ffff) by (nonlinear_arith)
                    requires
                        width <= 0xffff_ffff,
                        bytes <= 0xffff_ffff,
                ;
                let len: u64 = (width as u64) * (bytes as u64);
                Some(len as usize)
            },
            None => None,
        };
        ImageFormat { width, height, pixfmt, stride }
    }

    /// Sets the length of a pixel row in bytes, overriding any derived value.
    pub fn stride(self, stride: usize) -> (r: Self)
        ensures
            r == self.with_stride(stride),
    {
        ImageFormat { stride: Some(stride), ..self }
    }
}

/// Constructing a format and then setting its row length yields exactly that row
/// length, whatever the pixel layout, and leaves the other fields as constructed.
pub proof fn lemma_stride_override_wins(width: u32, height: u32, pixfmt: PixelFormat, stride: usize)
    ensures
        ImageFormat::new_spec(width, height, pixfmt).with_stride(stride).stride == Some(stride),
        ImageFormat::new_spec(width, height, pixfmt).with_stride(stride).width == width,
        ImageFormat::new_spec(width, height, pixfmt).with_stride(stride).height == height,
        ImageFormat::new_spec(width, height, pixfmt).with_stride(stride).pixfmt == pixfmt,
{
}

} // verus!
