//! Turning a resolved image source into the canonical single-channel pixel
//! buffer: by decoding a file's bytes through the external file codec, by
//! wrapping bytes a protocol object handed over, or by borrowing externally
//! owned memory without a copy.

use vstd::prelude::*;
use crate::error::Error;
use crate::pixel::GrayImage;

verus! {

// The file codec's verdict and output are functions of the file's bytes
// alone, so they bear names: whether the bytes decode as an image at all, and
// the single-channel conversion's pixels, width and height when they do.
pub uninterp spec fn spec_decodes(bytes: Seq<u8>) -> bool;

pub uninterp spec fn spec_gray_pixels(bytes: Seq<u8>) -> Seq<u8>;

pub uninterp spec fn spec_gray_width(bytes: Seq<u8>) -> u32;

pub uninterp spec fn spec_gray_height(bytes: Seq<u8>) -> u32;

/// Relies on image::load_from_memory (decode an image file's bytes, guessing
/// the container format from the bytes themselves) and
/// image::DynamicImage::to_luma8 with ImageBuffer::width, height and into_raw
/// (convert the decoded pixels to single-channel 8-bit, one byte per pixel,
/// in a buffer of exactly width * height bytes). Both steps depend on the
/// bytes alone; the codec's error is carried as its text.
#[verifier::external_body]
fn decode_gray_from_bytes(bytes: &[u8]) -> (r: Result<(Vec<u8>, u32, u32), String>)
    ensures
        r is Ok <==> spec_decodes(bytes@),
        r matches Ok(t) ==> t.0@ == spec_gray_pixels(bytes@) && t.1 == spec_gray_width(bytes@)
            && t.2 == spec_gray_height(bytes@) && t.0@.len() == t.1 * t.2,
{
    let img = image::load_from_memory(bytes).map_err(|e| e.to_string())?;
    let buffer = img.to_luma8();
    let width = buffer.width();
    let height = buffer.height();
    Ok((buffer.into_raw(), width, height))
}

/// The resolved source of one decode call. Created fresh per call, never
/// persisted; the capability verdict that picked the variant is not
/// re-probed.
pub enum ImageSource<'a> {
    /// A filesystem path to an image file.
    Path(String),
    /// Pixel bytes already owned on this side of the boundary: extracted from
    /// a protocol object, or copied by the caller.
    BufferOwned { data: Vec<u8>, width: u32, height: u32 },
    /// A zero-copy view of externally owned pixel memory. Whoever owns the
    /// backing memory must stay alive for as long as this source and every
    /// buffer materialized from it are read; the borrow enforces that.
    BufferView { data: &'a [u8], width: u32, height: u32 },
}

impl<'a> ImageSource<'a> {
    /// Sources carrying bytes must carry one byte per pixel; a mismatch is an
    /// invariant violation on the caller's side, not a normal failure.
    pub open spec fn wf(&self) -> bool {
        match *self {
            ImageSource::Path(_) => true,
            ImageSource::BufferOwned { ref data, width, height } => data@.len() == width * height,
            ImageSource::BufferView { data, width, height } => data@.len() == width * height,
        }
    }
}

/// What materializing a source yields: a buffer ready for the engine, or, for
/// a path source, the need to read the file's bytes first - an external step
/// the caller performs before finishing with `materialize_path_bytes`.
pub enum Materialized<'a> {
    Ready(GrayImage<'a>),
    NeedsFileBytes { path: String },
}

/// Materialize a resolved source whose bytes are at hand: owned bytes are
/// wrapped as they are, byte for byte; a buffer view is borrowed without
/// copying; a path is handed back for the caller to read.
pub fn materialize<'a>(source: ImageSource<'a>) -> (r: Materialized<'a>)
    requires
        source.wf(),
    ensures
        match source {
            ImageSource::Path(p) => r matches Materialized::NeedsFileBytes { path } && path == p,
            ImageSource::BufferOwned { data, width, height } => (r matches Materialized::Ready(img)
                && img.wf() && img.raw.bytes() == data@ && img.width == width && img.height
                == height),
            ImageSource::BufferView { data, width, height } => (r matches Materialized::Ready(img)
                && img.wf() && img.raw.bytes() == data@ && img.width == width && img.height
                == height),
        },
{
    match source {
        ImageSource::Path(path) => Materialized::NeedsFileBytes { path },
        ImageSource::BufferOwned { data, width, height } => Materialized::Ready(
            GrayImage::new(data, width, height),
        ),
        ImageSource::BufferView { data, width, height } => Materialized::Ready(
            GrayImage::from_borrowed(data, width, height),
        ),
    }
}

/// Materialize from the bytes of an image file: decode them with the external
/// file codec after container-format auto-detection, and convert to a
/// single-channel 8-bit buffer. Succeeds exactly on bytes the codec decodes,
/// yielding the decoded image's dimensions and its grayscale pixels; bytes no
/// codec recognizes, or any other decode fault, are an image decode failure
/// carrying the codec's text.
pub fn materialize_path_bytes(bytes: &[u8]) -> (r: Result<GrayImage<'static>, Error>)
    ensures
        r is Ok <==> spec_decodes(bytes@),
        r matches Ok(img) ==> img.wf() && img.raw.bytes() == spec_gray_pixels(bytes@) && img.width
            == spec_gray_width(bytes@) && img.height == spec_gray_height(bytes@),
        r matches Err(e) ==> e matches Error::ImageDecodeFailure { .. },
{
    match decode_gray_from_bytes(bytes) {
        Ok((data, width, height)) => Ok(GrayImage::new(data, width, height)),
        Err(message) => Err(Error::ImageDecodeFailure { message }),
    }
}

/// Tag a failed file read: a missing file is reported distinctly from every
/// other read failure, which surfaces as an image decode failure like any
/// other acquisition fault.
pub fn classify_read_failure(not_found: bool, message: String) -> (r: Error)
    ensures
        not_found ==> (r matches Error::FileNotFound { message: m } && m == message),
        !not_found ==> (r matches Error::ImageDecodeFailure { message: m } && m == message),
{
    if not_found {
        Error::FileNotFound { message }
    } else {
        Error::ImageDecodeFailure { message }
    }
}

} // verus!
