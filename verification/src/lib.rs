//! Barcode image-source resolution and decode-adapter library.
//!
//! The crate classifies an incoming image handle, materializes a canonical
//! single-channel pixel buffer from it (by file decoding, by protocol-object
//! byte extraction with color-mode conversion, or by a zero-copy borrow of
//! externally owned memory), translates between the stable barcode-format
//! enumeration and the decoding engine's own format codes, and normalizes
//! engine results and failures into one result and error taxonomy. "No symbol
//! found" is a successful outcome throughout, never an error.

use vstd::prelude::*;

pub mod decode;
pub mod error;
pub mod filter;
pub mod format;
pub mod geometry;
pub mod materialize;
pub mod pixel;
pub mod resolver;

pub use decode::DecodeResult;
pub use decode::EngineHit;
pub use error::BoundaryError;
pub use error::Error;
pub use filter::build_filter;
pub use format::BarcodeFormat;
pub use geometry::Point;
pub use geometry::Position;
pub use materialize::ImageSource;
pub use pixel::GrayImage;

verus! {

} // verus!
