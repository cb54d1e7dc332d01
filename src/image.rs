use vstd::prelude::*;

use crate::format::ImageFormat;

verus! {

/// Pixel bytes of an image: a borrowed view over memory owned elsewhere, or a buffer
/// of the image's own.
pub enum ImageData<'a> {
    Borrowed(&'a [u8]),
    Owned(Vec<u8>),
}

impl<'a> ImageData<'a> {
    /// The bytes, wherever they are held.
    pub open spec fn bytes(&self) -> Seq<u8> {
        match self {
            ImageData::Borrowed(s) => s@,
            ImageData::Owned(v) => v@,
        }
    }
}

/// An image whose bytes are borrowed until the first mutation, which moves them into
/// a buffer of the image's own (copy on write).
pub struct CowImage<'a> {
    pub data: ImageData<'a>,
    pub format: ImageFormat,
}

impl<'a> CowImage<'a> {
    /// The pixel bytes of the image.
    pub open spec fn bytes(&self) -> Seq<u8> {
        self.data.bytes()
    }

    /// Whether the image holds its bytes itself.
    pub open spec fn owned(&self) -> bool {
        self.data is Owned
    }

    /// Wraps bytes owned elsewhere, without copying them.
    pub fn from_view(bytes: &'a [u8], format: ImageFormat) -> (r: Self)
        ensures
            r.bytes() == bytes@,
            r.format == format,
            !r.owned(),
    {
        CowImage { data: ImageData::Borrowed(bytes), format }
    }

    /// Takes ownership of a byte buffer.
    pub fn from_bytes(bytes: Vec<u8>, format: ImageFormat) -> (r: Self)
        ensures
            r.bytes() == bytes@,
            r.format == format,
            r.owned(),
    {
        CowImage { data: ImageData::Owned(bytes), format }
    }

    /// Read access to the pixel bytes.
    pub fn as_bytes(&self) -> (r: &[u8])
        ensures
            r@ == self.bytes(),
    {
        match &self.data {
            ImageData::Borrowed(s) => *s,
            ImageData::Owned(v) => v.as_slice(),
        }
    }

    /// Whether the image holds its bytes itself rather than borrowing them.
    pub fn is_owned(&self) -> (r: bool)
        ensures
            r == self.owned(),
    {
        match &self.data {
            ImageData::Borrowed(_) => false,
            ImageData::Owned(_) => true,
        }
    }

    /// Mutable access to the pixel bytes. A borrowed image first copies its bytes into
    /// a buffer of its own; the borrowed memory is never written.
    pub fn to_mut(&mut self) -> (r: &mut Vec<u8>)
        ensures
            r@ == old(self).bytes(),
            final(self).format == old(self).format,
            final(self).owned(),
            final(self).bytes() == final(r)@,
    {
        if let ImageData::Borrowed(s) = &self.data {
            let copy = copy_bytes(s);
            self.data = ImageData::Owned(copy);
        }
        match &mut self.data {
            ImageData::Owned(v) => v,
            ImageData::Borrowed(_) => vstd::pervasive::unreached(),
        }
    }
}

/// A fresh buffer holding the same bytes as `s`.
pub fn copy_bytes(s: &[u8]) -> (r: Vec<u8>)
    ensures
        r@ == s@,
{
    let mut out: Vec<u8> = Vec::with_capacity(s.len());
    let mut i: usize = 0;
    while i < s.len()
        invariant
            i <= s@.len(),
            out@ == s@.subrange(0, i as int),
        decreases s@.len() - i,
    {
        out.push(s[i]);
        i = i + 1;
    }
    assert(out@ =~= s@);
    out
}

} // verus!
