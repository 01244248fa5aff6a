//! The canonical single-channel pixel buffer: one byte per pixel, row-major,
//! either owning its bytes or borrowing externally owned memory without a
//! copy.

use vstd::prelude::*;

verus! {

/// The bytes behind a pixel buffer: owned by the buffer, or a zero-copy
/// borrow of memory someone else owns. A borrowed buffer's backing memory is
/// kept alive by the borrow itself: whoever lends the slice must outlive the
/// buffer, so it cannot be reclaimed while the buffer is read.
#[derive(Debug)]
pub enum PixelData<'a> {
    Owned(Vec<u8>),
    Borrowed(&'a [u8]),
}

impl<'a> PixelData<'a> {
    /// The byte contents, regardless of ownership.
    pub open spec fn bytes(&self) -> Seq<u8> {
        match *self {
            PixelData::Owned(ref v) => v@,
            PixelData::Borrowed(s) => s@,
        }
    }

    /// How many bytes the data holds.
    pub fn len(&self) -> (n: usize)
        ensures
            n == self.bytes().len(),
    {
        match self {
            PixelData::Owned(v) => v.len(),
            PixelData::Borrowed(s) => s.len(),
        }
    }
}

/// The canonical single-channel image: `width * height` bytes, one per
/// pixel. Immutable once constructed.
#[derive(Debug)]
pub struct GrayImage<'a> {
    pub raw: PixelData<'a>,
    pub width: u32,
    pub height: u32,
}

impl<'a> GrayImage<'a> {
    /// The buffer invariant: exactly one byte per pixel.
    pub open spec fn wf(&self) -> bool {
        self.raw.bytes().len() == self.width * self.height
    }

    /// Wrap bytes the caller already owns. The length must match the
    /// dimensions exactly; a mismatch is an invariant violation on the
    /// caller's side, not a normal failure.
    pub fn new(raw: Vec<u8>, width: u32, height: u32) -> (r: GrayImage<'static>)
        requires
            raw@.len() == width * height,
        ensures
            r.wf(),
            r.raw.bytes() == raw@,
            r.width == width,
            r.height == height,
    {
        GrayImage { raw: PixelData::Owned(raw), width, height }
    }

    /// Wrap externally owned bytes without copying. The returned image
    /// borrows the slice, so the owner of the backing memory must stay alive
    /// for as long as the image is read.
    pub fn from_borrowed(raw: &'a [u8], width: u32, height: u32) -> (r: GrayImage<'a>)
        requires
            raw@.len() == width * height,
        ensures
            r.wf(),
            r.raw.bytes() == raw@,
            r.width == width,
            r.height == height,
    {
        GrayImage { raw: PixelData::Borrowed(raw), width, height }
    }

    /// The image's width in pixels.
    pub fn width(&self) -> (w: u32)
        ensures
            w == self.width,
    {
        self.width
    }

    /// The image's height in pixels.
    pub fn height(&self) -> (h: u32)
        ensures
            h == self.height,
    {
        self.height
    }

    /// The pixel bytes, for handing to a decoding engine.
    pub fn data(&self) -> (r: &[u8])
        ensures
            r@ == self.raw.bytes(),
    {
        match &self.raw {
            PixelData::Owned(v) => v.as_slice(),
            PixelData::Borrowed(s) => s,
        }
    }
}

} // verus!
