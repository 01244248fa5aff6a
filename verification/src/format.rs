//! The stable barcode-format enumeration, its names, and its translation to
//! and from the decoding engine's own format codes.

use vstd::prelude::*;
use crate::error::Error;

verus! {

/// The symbologies the library recognizes, with an identity independent of
/// any particular decoding engine's enumeration.
#[derive(Debug, PartialEq, Eq, Clone, Copy, Structural)]
pub enum BarcodeFormat {
    Aztec,
    Codabar,
    Code39,
    Code93,
    Code128,
    DataBar,
    DataBarExpanded,
    DataBarLimited,
    DataMatrix,
    EAN8,
    EAN13,
    ITF,
    MaxiCode,
    PDF417,
    QRCode,
    UPCA,
    UPCE,
    MicroQRCode,
    RMQRCode,
    DXFilmEdge,
}

/// The canonical name of a format, as callers spell it in a format list.
pub open spec fn spec_name(f: BarcodeFormat) -> Seq<char> {
    match f {
        BarcodeFormat::Aztec => "Aztec"@,
        BarcodeFormat::Codabar => "Codabar"@,
        BarcodeFormat::Code39 => "Code39"@,
        BarcodeFormat::Code93 => "Code93"@,
        BarcodeFormat::Code128 => "Code128"@,
        BarcodeFormat::DataBar => "DataBar"@,
        BarcodeFormat::DataBarExpanded => "DataBarExpanded"@,
        BarcodeFormat::DataBarLimited => "DataBarLimited"@,
        BarcodeFormat::DataMatrix => "DataMatrix"@,
        BarcodeFormat::EAN8 => "EAN8"@,
        BarcodeFormat::EAN13 => "EAN13"@,
        BarcodeFormat::ITF => "ITF"@,
        BarcodeFormat::MaxiCode => "MaxiCode"@,
        BarcodeFormat::PDF417 => "PDF417"@,
        BarcodeFormat::QRCode => "QRCode"@,
        BarcodeFormat::UPCA => "UPCA"@,
        BarcodeFormat::UPCE => "UPCE"@,
        BarcodeFormat::MicroQRCode => "MicroQRCode"@,
        BarcodeFormat::RMQRCode => "RMQRCode"@,
        BarcodeFormat::DXFilmEdge => "DXFilmEdge"@,
    }
}

impl BarcodeFormat {
    /// The canonical name of this format.
    pub fn name(self) -> (r: String)
        ensures
            r@ == spec_name(self),
    {
        match self {
            BarcodeFormat::Aztec => "Aztec".to_owned(),
            BarcodeFormat::Codabar => "Codabar".to_owned(),
            BarcodeFormat::Code39 => "Code39".to_owned(),
            BarcodeFormat::Code93 => "Code93".to_owned(),
            BarcodeFormat::Code128 => "Code128".to_owned(),
            BarcodeFormat::DataBar => "DataBar".to_owned(),
            BarcodeFormat::DataBarExpanded => "DataBarExpanded".to_owned(),
            BarcodeFormat::DataBarLimited => "DataBarLimited".to_owned(),
            BarcodeFormat::DataMatrix => "DataMatrix".to_owned(),
            BarcodeFormat::EAN8 => "EAN8".to_owned(),
            BarcodeFormat::EAN13 => "EAN13".to_owned(),
            BarcodeFormat::ITF => "ITF".to_owned(),
            BarcodeFormat::MaxiCode => "MaxiCode".to_owned(),
            BarcodeFormat::PDF417 => "PDF417".to_owned(),
            BarcodeFormat::QRCode => "QRCode".to_owned(),
            BarcodeFormat::UPCA => "UPCA".to_owned(),
            BarcodeFormat::UPCE => "UPCE".to_owned(),
            BarcodeFormat::MicroQRCode => "MicroQRCode".to_owned(),
            BarcodeFormat::RMQRCode => "RMQRCode".to_owned(),
            BarcodeFormat::DXFilmEdge => "DXFilmEdge".to_owned(),
        }
    }
}

/// Which canonical format a user-supplied name denotes, if any.
pub open spec fn spec_parse_name(s: Seq<char>) -> Option<BarcodeFormat> {
    if s == "Aztec"@ {
        Some(BarcodeFormat::Aztec)
    } else if s == "Codabar"@ {
        Some(BarcodeFormat::Codabar)
    } else if s == "Code39"@ {
        Some(BarcodeFormat::Code39)
    } else if s == "Code93"@ {
        Some(BarcodeFormat::Code93)
    } else if s == "Code128"@ {
        Some(BarcodeFormat::Code128)
    } else if s == "DataBar"@ {
        Some(BarcodeFormat::DataBar)
    } else if s == "DataBarExpanded"@ {
        Some(BarcodeFormat::DataBarExpanded)
    } else if s == "DataBarLimited"@ {
        Some(BarcodeFormat::DataBarLimited)
    } else if s == "DataMatrix"@ {
        Some(BarcodeFormat::DataMatrix)
    } else if s == "EAN8"@ {
        Some(BarcodeFormat::EAN8)
    } else if s == "EAN13"@ {
        Some(BarcodeFormat::EAN13)
    } else if s == "ITF"@ {
        Some(BarcodeFormat::ITF)
    } else if s == "MaxiCode"@ {
        Some(BarcodeFormat::MaxiCode)
    } else if s == "PDF417"@ {
        Some(BarcodeFormat::PDF417)
    } else if s == "QRCode"@ {
        Some(BarcodeFormat::QRCode)
    } else if s == "UPCA"@ {
        Some(BarcodeFormat::UPCA)
    } else if s == "UPCE"@ {
        Some(BarcodeFormat::UPCE)
    } else if s == "MicroQRCode"@ {
        Some(BarcodeFormat::MicroQRCode)
    } else if s == "RMQRCode"@ {
        Some(BarcodeFormat::RMQRCode)
    } else if s == "DXFilmEdge"@ {
        Some(BarcodeFormat::DXFilmEdge)
    } else {
        None
    }
}

/// String equality by content.
pub fn str_content_eq(a: &str, b: &str) -> (r: bool)
    ensures
        r == (a@ == b@),
{
    a.to_owned() == b.to_owned()
}

/// Resolve a user-supplied format name. Unrecognized names resolve to
/// nothing, so that a format list can drop them rather than fail.
pub fn parse_name(s: &str) -> (r: Option<BarcodeFormat>)
    ensures
        r == spec_parse_name(s@),
{
    if str_content_eq(s, "Aztec") {
        Some(BarcodeFormat::Aztec)
    } else if str_content_eq(s, "Codabar") {
        Some(BarcodeFormat::Codabar)
    } else if str_content_eq(s, "Code39") {
        Some(BarcodeFormat::Code39)
    } else if str_content_eq(s, "Code93") {
        Some(BarcodeFormat::Code93)
    } else if str_content_eq(s, "Code128") {
        Some(BarcodeFormat::Code128)
    } else if str_content_eq(s, "DataBar") {
        Some(BarcodeFormat::DataBar)
    } else if str_content_eq(s, "DataBarExpanded") {
        Some(BarcodeFormat::DataBarExpanded)
    } else if str_content_eq(s, "DataBarLimited") {
        Some(BarcodeFormat::DataBarLimited)
    } else if str_content_eq(s, "DataMatrix") {
        Some(BarcodeFormat::DataMatrix)
    } else if str_content_eq(s, "EAN8") {
        Some(BarcodeFormat::EAN8)
    } else if str_content_eq(s, "EAN13") {
        Some(BarcodeFormat::EAN13)
    } else if str_content_eq(s, "ITF") {
        Some(BarcodeFormat::ITF)
    } else if str_content_eq(s, "MaxiCode") {
        Some(BarcodeFormat::MaxiCode)
    } else if str_content_eq(s, "PDF417") {
        Some(BarcodeFormat::PDF417)
    } else if str_content_eq(s, "QRCode") {
        Some(BarcodeFormat::QRCode)
    } else if str_content_eq(s, "UPCA") {
        Some(BarcodeFormat::UPCA)
    } else if str_content_eq(s, "UPCE") {
        Some(BarcodeFormat::UPCE)
    } else if str_content_eq(s, "MicroQRCode") {
        Some(BarcodeFormat::MicroQRCode)
    } else if str_content_eq(s, "RMQRCode") {
        Some(BarcodeFormat::RMQRCode)
    } else if str_content_eq(s, "DXFilmEdge") {
        Some(BarcodeFormat::DXFilmEdge)
    } else {
        None
    }
}

/// Resolve a user-supplied format name, reporting an unrecognized name as the
/// non-fatal failure it is.
pub fn try_from_name(s: &str) -> (r: Result<BarcodeFormat, Error>)
    ensures
        match spec_parse_name(s@) {
            Some(f) => r == Ok::<BarcodeFormat, Error>(f),
            None => r matches Err(Error::FormatNameUnrecognized { name }) && name@ == s@,
        },
{
    match parse_name(s) {
        Some(f) => Ok(f),
        None => Err(Error::FormatNameUnrecognized { name: s.to_owned() }),
    }
}

/// Converting a canonical format to its name and parsing that name back
/// yields the same format, for every variant in the enumeration.
pub proof fn lemma_parse_name_round_trip(f: BarcodeFormat)
    ensures
        spec_parse_name(spec_name(f)) == Some(f),
{
    reveal_strlit("Aztec");
    reveal_strlit("Codabar");
    reveal_strlit("Code39");
    reveal_strlit("Code93");
    reveal_strlit("Code128");
    reveal_strlit("DataBar");
    reveal_strlit("DataBarExpanded");
    reveal_strlit("DataBarLimited");
    reveal_strlit("DataMatrix");
    reveal_strlit("EAN8");
    reveal_strlit("EAN13");
    reveal_strlit("ITF");
    reveal_strlit("MaxiCode");
    reveal_strlit("PDF417");
    reveal_strlit("QRCode");
    reveal_strlit("UPCA");
    reveal_strlit("UPCE");
    reveal_strlit("MicroQRCode");
    reveal_strlit("RMQRCode");
    reveal_strlit("DXFilmEdge");
    assert("Aztec"@.len() == 5);
    assert("Codabar"@.len() == 7);
    assert("Code39"@.len() == 6);
    assert("Code93"@.len() == 6);
    assert("Code128"@.len() == 7);
    assert("DataBar"@.len() == 7);
    assert("DataBarExpanded"@.len() == 15);
    assert("DataBarLimited"@.len() == 14);
    assert("DataMatrix"@.len() == 10);
    assert("EAN8"@.len() == 4);
    assert("EAN13"@.len() == 5);
    assert("ITF"@.len() == 3);
    assert("MaxiCode"@.len() == 8);
    assert("PDF417"@.len() == 6);
    assert("QRCode"@.len() == 6);
    assert("UPCA"@.len() == 4);
    assert("UPCE"@.len() == 4);
    assert("MicroQRCode"@.len() == 11);
    assert("RMQRCode"@.len() == 8);
    assert("DXFilmEdge"@.len() == 10);
    // names of equal length are told apart by a differing character
    assert("Aztec"@[0] == 'A' && "EAN13"@[0] == 'E');
    assert("Code39"@[0] == 'C' && "Code93"@[0] == 'C' && "PDF417"@[0] == 'P' && "QRCode"@[0]
        == 'Q');
    assert("Code39"@[4] == '3' && "Code93"@[4] == '9');
    assert("Codabar"@[0] == 'C' && "Code128"@[0] == 'C' && "DataBar"@[0] == 'D');
    assert("Codabar"@[4] == 'b' && "Code128"@[4] == '1');
    assert("EAN8"@[0] == 'E' && "UPCA"@[0] == 'U' && "UPCE"@[0] == 'U');
    assert("UPCA"@[3] == 'A' && "UPCE"@[3] == 'E');
    assert("MaxiCode"@[0] == 'M' && "RMQRCode"@[0] == 'R');
    assert("DataMatrix"@[1] == 'a' && "DXFilmEdge"@[1] == 'X');
}

/// The engine's code for a symbology. The values are the decoding engine's
/// own format identifiers (zxingcpp's `BarcodeFormat` values).
pub open spec fn spec_engine_code(f: BarcodeFormat) -> u32 {
    match f {
        BarcodeFormat::Aztec => 0x207A,
        BarcodeFormat::Codabar => 0x2046,
        BarcodeFormat::Code39 => 0x2041,
        BarcodeFormat::Code93 => 0x2047,
        BarcodeFormat::Code128 => 0x2043,
        BarcodeFormat::DataBar => 0x2065,
        BarcodeFormat::DataBarExpanded => 0x6565,
        BarcodeFormat::DataBarLimited => 0x6C65,
        BarcodeFormat::DataMatrix => 0x2064,
        BarcodeFormat::EAN8 => 0x3845,
        BarcodeFormat::EAN13 => 0x3145,
        BarcodeFormat::ITF => 0x2049,
        BarcodeFormat::MaxiCode => 0x2055,
        BarcodeFormat::PDF417 => 0x204C,
        BarcodeFormat::QRCode => 0x2051,
        BarcodeFormat::UPCA => 0x6145,
        BarcodeFormat::UPCE => 0x6545,
        BarcodeFormat::MicroQRCode => 0x6D51,
        BarcodeFormat::RMQRCode => 0x7251,
        BarcodeFormat::DXFilmEdge => 0x7858,
    }
}

/// Translate a canonical format into the engine's format code. Total: every
/// canonical format maps to a code the engine accepts.
pub fn to_engine(f: BarcodeFormat) -> (code: u32)
    ensures
        code == spec_engine_code(f),
{
    match f {
        BarcodeFormat::Aztec => 0x207A,
        BarcodeFormat::Codabar => 0x2046,
        BarcodeFormat::Code39 => 0x2041,
        BarcodeFormat::Code93 => 0x2047,
        BarcodeFormat::Code128 => 0x2043,
        BarcodeFormat::DataBar => 0x2065,
        BarcodeFormat::DataBarExpanded => 0x6565,
        BarcodeFormat::DataBarLimited => 0x6C65,
        BarcodeFormat::DataMatrix => 0x2064,
        BarcodeFormat::EAN8 => 0x3845,
        BarcodeFormat::EAN13 => 0x3145,
        BarcodeFormat::ITF => 0x2049,
        BarcodeFormat::MaxiCode => 0x2055,
        BarcodeFormat::PDF417 => 0x204C,
        BarcodeFormat::QRCode => 0x2051,
        BarcodeFormat::UPCA => 0x6145,
        BarcodeFormat::UPCE => 0x6545,
        BarcodeFormat::MicroQRCode => 0x6D51,
        BarcodeFormat::RMQRCode => 0x7251,
        BarcodeFormat::DXFilmEdge => 0x7858,
    }
}

/// Which canonical format an engine code denotes, if the enumeration models
/// it.
pub open spec fn spec_from_engine(code: u32) -> Option<BarcodeFormat> {
    if code == 0x207A {
        Some(BarcodeFormat::Aztec)
    } else if code == 0x2046 {
        Some(BarcodeFormat::Codabar)
    } else if code == 0x2041 {
        Some(BarcodeFormat::Code39)
    } else if code == 0x2047 {
        Some(BarcodeFormat::Code93)
    } else if code == 0x2043 {
        Some(BarcodeFormat::Code128)
    } else if code == 0x2065 {
        Some(BarcodeFormat::DataBar)
    } else if code == 0x6565 {
        Some(BarcodeFormat::DataBarExpanded)
    } else if code == 0x6C65 {
        Some(BarcodeFormat::DataBarLimited)
    } else if code == 0x2064 {
        Some(BarcodeFormat::DataMatrix)
    } else if code == 0x3845 {
        Some(BarcodeFormat::EAN8)
    } else if code == 0x3145 {
        Some(BarcodeFormat::EAN13)
    } else if code == 0x2049 {
        Some(BarcodeFormat::ITF)
    } else if code == 0x2055 {
        Some(BarcodeFormat::MaxiCode)
    } else if code == 0x204C {
        Some(BarcodeFormat::PDF417)
    } else if code == 0x2051 {
        Some(BarcodeFormat::QRCode)
    } else if code == 0x6145 {
        Some(BarcodeFormat::UPCA)
    } else if code == 0x6545 {
        Some(BarcodeFormat::UPCE)
    } else if code == 0x6D51 {
        Some(BarcodeFormat::MicroQRCode)
    } else if code == 0x7251 {
        Some(BarcodeFormat::RMQRCode)
    } else if code == 0x7858 {
        Some(BarcodeFormat::DXFilmEdge)
    } else {
        None
    }
}

/// Map an engine-reported format code back to the canonical enumeration.
/// Fails with `UnsupportedFormat` when the engine reports a variant the
/// enumeration does not model; the failure is meant to cost only the one
/// symbol that carried the code, never a whole decode.
pub fn from_engine(code: u32) -> (r: Result<BarcodeFormat, Error>)
    ensures
        match spec_from_engine(code) {
            Some(f) => r == Ok::<BarcodeFormat, Error>(f),
            None => r == Err::<BarcodeFormat, Error>(Error::UnsupportedFormat { code }),
        },
{
    if code == 0x207A {
        Ok(BarcodeFormat::Aztec)
    } else if code == 0x2046 {
        Ok(BarcodeFormat::Codabar)
    } else if code == 0x2041 {
        Ok(BarcodeFormat::Code39)
    } else if code == 0x2047 {
        Ok(BarcodeFormat::Code93)
    } else if code == 0x2043 {
        Ok(BarcodeFormat::Code128)
    } else if code == 0x2065 {
        Ok(BarcodeFormat::DataBar)
    } else if code == 0x6565 {
        Ok(BarcodeFormat::DataBarExpanded)
    } else if code == 0x6C65 {
        Ok(BarcodeFormat::DataBarLimited)
    } else if code == 0x2064 {
        Ok(BarcodeFormat::DataMatrix)
    } else if code == 0x3845 {
        Ok(BarcodeFormat::EAN8)
    } else if code == 0x3145 {
        Ok(BarcodeFormat::EAN13)
    } else if code == 0x2049 {
        Ok(BarcodeFormat::ITF)
    } else if code == 0x2055 {
        Ok(BarcodeFormat::MaxiCode)
    } else if code == 0x204C {
        Ok(BarcodeFormat::PDF417)
    } else if code == 0x2051 {
        Ok(BarcodeFormat::QRCode)
    } else if code == 0x6145 {
        Ok(BarcodeFormat::UPCA)
    } else if code == 0x6545 {
        Ok(BarcodeFormat::UPCE)
    } else if code == 0x6D51 {
        Ok(BarcodeFormat::MicroQRCode)
    } else if code == 0x7251 {
        Ok(BarcodeFormat::RMQRCode)
    } else if code == 0x7858 {
        Ok(BarcodeFormat::DXFilmEdge)
    } else {
        Err(Error::UnsupportedFormat { code })
    }
}

/// Translating a canonical format to the engine and mapping the engine's code
/// back yields the same format, for every variant in the enumeration.
pub proof fn lemma_engine_code_round_trip(f: BarcodeFormat)
    ensures
        spec_from_engine(spec_engine_code(f)) == Some(f),
{
}

} // verus!

