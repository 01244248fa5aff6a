//! The library's failure taxonomy, and the mapper that turns internal
//! failures into the categories a host boundary reports.

use vstd::prelude::*;
use vstd::string::StringExecFns;

verus! {

/// Every way a decode request can fail. "No symbol found" is deliberately not
/// here: it is a successful outcome.
#[derive(Debug, Clone)]
pub enum Error {
    /// The input handle is neither a path nor protocol-conformant.
    InvalidInput,
    /// A protocol object's color mode is not grayscale-convertible; carries
    /// the offending mode name.
    UnsupportedMode { mode: String },
    /// A path does not resolve to an existing file.
    FileNotFound { message: String },
    /// File bytes could not be decoded as an image, or any other read failure.
    ImageDecodeFailure { message: String },
    /// The decoding engine reported an internal failure (not "nothing found").
    DecodeFailure { message: String },
    /// The engine reported a format the canonical enumeration does not model.
    UnsupportedFormat { code: u32 },
    /// A user-supplied format name resolves to no canonical format. Non-fatal:
    /// such names are dropped from format lists.
    FormatNameUnrecognized { name: String },
}

/// The boundary-facing error categories: which kind of host error each
/// internal failure surfaces as.
#[derive(Debug, Clone)]
pub enum BoundaryError {
    /// A rejected argument (a value error in the host runtime).
    ValueError { message: String },
    /// An image could not be acquired or decoded.
    ImageError { message: String },
    /// A missing file, distinct from every other read failure.
    FileNotFound { message: String },
    /// The decode pipeline itself failed.
    BarcodeDecodeError { message: String },
}

pub open spec fn invalid_input_text() -> Seq<char> {
    "value must be either str or conform to ImageProtocol"@
}

pub open spec fn unsupported_mode_text(mode: Seq<char>) -> Seq<char> {
    "The specified image has an unsupported mode("@ + mode
        + "). Only grayscale, RGB(A), or palette mode images are supported."@
}

pub open spec fn unsupported_format_text() -> Seq<char> {
    "the engine reported a format outside the supported enumeration"@
}

pub open spec fn unrecognized_name_text(name: Seq<char>) -> Seq<char> {
    "`"@ + name + "` is not supported"@
}

/// The boundary category owed to each internal failure: image-acquisition
/// failures surface as image errors, a missing file keeps its own category,
/// engine failures surface as decode errors, and rejected arguments as value
/// errors.
pub open spec fn is_boundary_of(e: Error, r: BoundaryError) -> bool {
    match e {
        Error::InvalidInput => r matches BoundaryError::ValueError { message }
            && message@ == invalid_input_text(),
        Error::UnsupportedMode { mode } => r matches BoundaryError::ImageError { message }
            && message@ == unsupported_mode_text(mode@),
        Error::FileNotFound { message: m } => r matches BoundaryError::FileNotFound { message }
            && message == m,
        Error::ImageDecodeFailure { message: m } => (r matches BoundaryError::ImageError {
            message,
        } && message == m),
        Error::DecodeFailure { message: m } => (r matches BoundaryError::BarcodeDecodeError {
            message,
        } && message == m),
        Error::UnsupportedFormat { code } => (r matches BoundaryError::BarcodeDecodeError {
            message,
        } && message@ == unsupported_format_text()),
        Error::FormatNameUnrecognized { name } => r matches BoundaryError::ValueError { message }
            && message@ == unrecognized_name_text(name@),
    }
}

/// Convert an internal failure into the boundary-facing category it must
/// surface as.
pub fn to_boundary(e: Error) -> (r: BoundaryError)
    ensures
        is_boundary_of(e, r),
{
    match e {
        Error::InvalidInput => BoundaryError::ValueError {
            message: "value must be either str or conform to ImageProtocol".to_owned(),
        },
        Error::UnsupportedMode { mode } => {
            let mut message = "The specified image has an unsupported mode(".to_owned();
            message.append(mode.as_str());
            message.append("). Only grayscale, RGB(A), or palette mode images are supported.");
            BoundaryError::ImageError { message }
        },
        Error::FileNotFound { message } => BoundaryError::FileNotFound { message },
        Error::ImageDecodeFailure { message } => BoundaryError::ImageError { message },
        Error::DecodeFailure { message } => BoundaryError::BarcodeDecodeError { message },
        Error::UnsupportedFormat { code: _ } => BoundaryError::BarcodeDecodeError {
            message: "the engine reported a format outside the supported enumeration".to_owned(),
        },
        Error::FormatNameUnrecognized { name } => {
            let mut message = "`".to_owned();
            message.append(name.as_str());
            message.append("` is not supported");
            BoundaryError::ValueError { message }
        },
    }
}

} // verus!
