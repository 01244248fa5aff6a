//! Image-source resolution: classify an input handle from one capability
//! probe, decide how a protocol object's pixels become single-channel, and
//! decide whether a zero-copy buffer view may be used.

use vstd::prelude::*;
use crate::error::Error;
use crate::format::str_content_eq;

verus! {

/// What one capability probe of a non-path handle found: whether each
/// attribute of the duck-typed image protocol is present, and whether each of
/// its operations is callable. The probe is performed once per decode call;
/// the verdict is carried here instead of re-probing.
#[derive(Debug, Clone, Copy)]
pub struct ProtocolProbe {
    pub has_mode: bool,
    pub has_width: bool,
    pub has_height: bool,
    pub has_tobytes: bool,
    pub has_convert: bool,
    pub has_load: bool,
    pub tobytes_callable: bool,
    pub convert_callable: bool,
    pub load_callable: bool,
}

/// A handle conforms to the image protocol when every required attribute is
/// present and every required operation is callable, simultaneously.
pub open spec fn spec_conforms(p: ProtocolProbe) -> bool {
    &&& p.has_mode
    &&& p.has_width
    &&& p.has_height
    &&& p.has_tobytes
    &&& p.has_convert
    &&& p.has_load
    &&& p.tobytes_callable
    &&& p.convert_callable
    &&& p.load_callable
}

/// The kind of source a handle resolves to.
#[derive(Debug, PartialEq, Eq, Clone, Copy, Structural)]
pub enum SourceKind {
    /// The handle's declared type identifies it as a textual path.
    PathText,
    /// The handle conforms to the duck-typed image protocol.
    ProtocolObject,
}

/// Classify an input handle: a textual path is a path source whatever else it
/// offers; anything else must conform to the image protocol or is rejected
/// before any buffer materialization.
pub fn classify_handle(is_path_text: bool, probe: &ProtocolProbe) -> (r: Result<SourceKind, Error>)
    ensures
        is_path_text ==> r == Ok::<SourceKind, Error>(SourceKind::PathText),
        !is_path_text && spec_conforms(*probe) ==> r == Ok::<SourceKind, Error>(
            SourceKind::ProtocolObject,
        ),
        !is_path_text && !spec_conforms(*probe) ==> r == Err::<SourceKind, Error>(
            Error::InvalidInput,
        ),
{
    if is_path_text {
        Ok(SourceKind::PathText)
    } else if probe.has_mode && probe.has_width && probe.has_height && probe.has_tobytes
        && probe.has_convert && probe.has_load && probe.tobytes_callable && probe.convert_callable
        && probe.load_callable {
        Ok(SourceKind::ProtocolObject)
    } else {
        Err(Error::InvalidInput)
    }
}

/// How a protocol object's pixels become a single-channel buffer.
#[derive(Debug, PartialEq, Eq, Clone, Copy, Structural)]
pub enum ModePlan {
    /// The mode already denotes single-channel grayscale: extract bytes
    /// directly.
    ExtractDirect,
    /// The mode is grayscale-convertible: invoke the mode-conversion
    /// operation to grayscale first, then extract bytes.
    ConvertFirst,
}

/// The color modes that are convertible to grayscale: RGB, RGB with alpha,
/// palette-indexed, and 1-bit.
pub open spec fn spec_convertible_mode(mode: Seq<char>) -> bool {
    ||| mode == "RGB"@
    ||| mode == "RGBA"@
    ||| mode == "P"@
    ||| mode == "1"@
}

/// Decide how a protocol object's pixels become single-channel from its
/// color-mode attribute. Grayscale is extracted directly; a convertible mode
/// is converted first; any other mode fails, naming the offending mode.
pub fn plan_mode(mode: &str) -> (r: Result<ModePlan, Error>)
    ensures
        mode@ == "L"@ ==> r == Ok::<ModePlan, Error>(ModePlan::ExtractDirect),
        spec_convertible_mode(mode@) ==> r == Ok::<ModePlan, Error>(ModePlan::ConvertFirst),
        mode@ != "L"@ && !spec_convertible_mode(mode@) ==> (r matches Err(
            Error::UnsupportedMode { mode: m },
        ) && m@ == mode@),
{
    proof {
        reveal_strlit("L");
        reveal_strlit("RGB");
        reveal_strlit("RGBA");
        reveal_strlit("P");
        reveal_strlit("1");
        assert("L"@.len() == 1 && "RGB"@.len() == 3 && "RGBA"@.len() == 4 && "P"@.len() == 1
            && "1"@.len() == 1);
        assert("L"@[0] == 'L' && "P"@[0] == 'P' && "1"@[0] == '1');
    }
    if str_content_eq(mode, "L") {
        Ok(ModePlan::ExtractDirect)
    } else if str_content_eq(mode, "RGB") || str_content_eq(mode, "RGBA") || str_content_eq(
        mode,
        "P",
    ) || str_content_eq(mode, "1") {
        Ok(ModePlan::ConvertFirst)
    } else {
        Err(Error::UnsupportedMode { mode: mode.to_owned() })
    }
}

/// How the pixel bytes leave a protocol object.
#[derive(Debug, PartialEq, Eq, Clone, Copy, Structural)]
pub enum ExtractionPlan {
    /// Borrow the object's buffer view without copying.
    ZeroCopyView,
    /// Fall back to a byte-extraction call, which copies.
    CopyBytes,
}

/// Decide whether the zero-copy path may be taken: only when the handle
/// exposes a buffer-view attribute whose declared element type is exactly one
/// unsigned byte per element. Everything else falls back to byte extraction.
pub fn plan_extraction(has_buffer_view: bool, element_typestr: &str) -> (r: ExtractionPlan)
    ensures
        r == ExtractionPlan::ZeroCopyView <==> has_buffer_view && element_typestr@ == "|u1"@,
{
    if has_buffer_view && str_content_eq(element_typestr, "|u1") {
        ExtractionPlan::ZeroCopyView
    } else {
        ExtractionPlan::CopyBytes
    }
}

} // verus!
