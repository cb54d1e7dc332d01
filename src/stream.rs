use vstd::prelude::*;

use crate::convert::{Converter, IdentityConverter};
use crate::format::{ImageFormat, PixelFormat};
use crate::image::CowImage;

verus! {

/// Why a pull produced no frame although the stream goes on.
#[derive(Debug, Clone, Copy, PartialEq, Eq, Structural)]
pub enum StreamError {
    /// The device or its driver failed.
    Io,
    /// The frame could not be converted to the emulated format.
    Conversion,
}

/// A source of frames that is pulled one frame at a time. A frame borrows the stream
/// until the caller is done with it; `None` means that no frame will ever come again.
pub trait Stream {
    fn next(&mut self) -> Option<Result<CowImage<'_>, StreamError>>;
}


/// The layout handed to the converter: the frame's geometry, read as `src`.
pub open spec fn source_format(format: ImageFormat, src: PixelFormat) -> ImageFormat {
    ImageFormat { pixfmt: src, ..format }
}

/// Format emulation applied to one pulled frame. Without a mapping the frame passes
/// through as it is. With a mapping `(src, dst)` its bytes, read as `src`, are
/// converted by `C` into `buffer`, and a view of `buffer` is returned in the format
/// `dst` with the frame's width and height.
pub fn emulate<'b, C: Converter>(
    mapping: &Option<(PixelFormat, PixelFormat)>,
    buffer: &'b mut Vec<u8>,
    image: CowImage<'b>,
) -> (r: Result<CowImage<'b>, StreamError>)
    ensures
        *mapping is None ==> r == Ok::<CowImage<'b>, StreamError>(image),
        *mapping matches Some((src, dst)) ==> {
            let from = source_format(image.format, src);
            &&& r is Ok <==> C::supports(image.bytes(), from, dst)
            &&& r is Err ==> r == Err::<CowImage<'b>, StreamError>(StreamError::Conversion)
            &&& r matches Ok(out) ==> {
                &&& out.format == ImageFormat::new_spec(image.format.width, image.format.height, dst)
                &&& C::converts(image.bytes(), from, dst, out.bytes())
                &&& !out.owned()
            }
        },
{
    match mapping {
        None => Ok(image),
        Some((src, dst)) => {
            let from = ImageFormat {
                width: image.format.width,
                height: image.format.height,
                pixfmt: src.clone(),
                stride: image.format.stride,
            };
            match C::convert(image.as_bytes(), &from, buffer, dst) {
                Ok(()) => {
                    let format = ImageFormat::new(image.format.width, image.format.height, dst.clone());
                    Ok(CowImage::from_view(buffer.as_slice(), format))
                },
                Err(_) => Err(StreamError::Conversion),
            }
        },
    }
}

/// Emulating a pixel format from itself with the identity converter always succeeds
/// and yields the frame's bytes unchanged.
pub proof fn lemma_identity_emulation_round_trips(bytes: Seq<u8>, format: ImageFormat, pixfmt: PixelFormat, out: Seq<u8>)
    ensures
        IdentityConverter::supports(bytes, source_format(format, pixfmt), pixfmt),
        IdentityConverter::converts(bytes, source_format(format, pixfmt), pixfmt, out) ==> out == bytes,
{
}

/// A stream that hands on the frames of another one, converting them where it
/// emulates a pixel format that the wrapped stream cannot produce.
pub struct TransparentStream<S, C> {
    stream: S,
    format: ImageFormat,
    mapping: Option<(PixelFormat, PixelFormat)>,
    buffer: Vec<u8>,
    converter: core::marker::PhantomData<C>,
}

impl<S: Stream, C: Converter> TransparentStream<S, C> {
    /// The wrapped stream.
    pub closed spec fn inner(&self) -> S {
        self.stream
    }

    /// The format that callers believe the stream produces.
    pub closed spec fn nominal_format(&self) -> ImageFormat {
        self.format
    }

    /// The pixel formats converted from and to, if any.
    pub closed spec fn mapping(&self) -> Option<(PixelFormat, PixelFormat)> {
        self.mapping
    }

    /// Wraps `stream`, whose frames callers take to be in `format`; nothing is
    /// converted until a mapping is set.
    pub fn new(stream: S, format: ImageFormat) -> (r: Self)
        ensures
            r.inner() == stream,
            r.nominal_format() == format,
            r.mapping() is None,
    {
        TransparentStream {
            stream,
            format,
            mapping: None,
            buffer: Vec::new(),
            converter: core::marker::PhantomData,
        }
    }

    /// Emulates `dst`: the wrapped stream yields `src` frames, and each is converted
    /// to `dst` before it is returned.
    pub fn map(&mut self, src: PixelFormat, dst: PixelFormat)
        ensures
            final(self).mapping() == Some((src, dst)),
            final(self).inner() == old(self).inner(),
            final(self).nominal_format() == old(self).nominal_format(),
    {
        self.mapping = Some((src, dst));
    }

    /// Pulls one frame from the wrapped stream and applies the format emulation to it.
    /// A conversion failure is reported for this pull only.
    pub fn pull(&mut self) -> (r: Option<Result<CowImage<'_>, StreamError>>)
        ensures
            final(self).mapping() == old(self).mapping(),
            final(self).nominal_format() == old(self).nominal_format(),
            old(self).mapping() is Some ==> (r matches Some(Ok(out)) ==> out.format == ImageFormat::new_spec(
                out.format.width,
                out.format.height,
                old(self).mapping()->Some_0.1,
            )),
    {
        match self.stream.next() {
            None => None,
            Some(Err(e)) => Some(Err(e)),
            Some(Ok(image)) => Some(emulate::<C>(&self.mapping, &mut self.buffer, image)),
        }
    }
}

impl<S: Stream, C: Converter> Stream for TransparentStream<S, C> {
    fn next(&mut self) -> Option<Result<CowImage<'_>, StreamError>> {
        self.pull()
    }
}

} // verus!
