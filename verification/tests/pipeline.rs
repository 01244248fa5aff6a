use reader_core::decode::{
    finish_decode_multi, finish_decode_single, normalize_hits, plan_decode, DecodeResult,
    EngineHit,
};
use reader_core::error::Error;
use reader_core::filter::{all_formats, engine_request};
use reader_core::format::BarcodeFormat;
use reader_core::geometry::{Point, Position};
use reader_core::materialize::{
    classify_read_failure, materialize, materialize_path_bytes, ImageSource, Materialized,
};
use reader_core::pixel::GrayImage;
use reader_core::resolver::{
    classify_handle, plan_extraction, plan_mode, ExtractionPlan, ModePlan, ProtocolProbe,
    SourceKind,
};

// A 2x1 8-bit grayscale PNG whose two pixels are 7 and 200.
const TINY_PNG: [u8; 68] = [
    137, 80, 78, 71, 13, 10, 26, 10, 0, 0, 0, 13, 73, 72, 68, 82, 0, 0, 0, 2, 0, 0, 0, 1, 8, 0, 0,
    0, 0, 209, 73, 32, 86, 0, 0, 0, 11, 73, 68, 65, 84, 120, 156, 99, 96, 63, 1, 0, 0, 217, 0,
    208, 215, 166, 34, 60, 0, 0, 0, 0, 73, 69, 78, 68, 174, 66, 96, 130,
];

fn conforming_probe() -> ProtocolProbe {
    ProtocolProbe {
        has_mode: true,
        has_width: true,
        has_height: true,
        has_tobytes: true,
        has_convert: true,
        has_load: true,
        tobytes_callable: true,
        convert_callable: true,
        load_callable: true,
    }
}

#[test]
fn owned_buffer_round_trip() {
    let data = vec![1u8, 2, 3, 4, 5, 6];
    let source = ImageSource::BufferOwned { data: data.clone(), width: 3, height: 2 };
    match materialize(source) {
        Materialized::Ready(img) => {
            assert_eq!(img.data(), data.as_slice());
            assert_eq!(img.width(), 3);
            assert_eq!(img.height(), 2);
        }
        Materialized::NeedsFileBytes { .. } => panic!("owned buffer needs no file"),
    }
}

#[test]
fn borrowed_view_reads_without_consuming_owner() {
    let canary = vec![0xA5u8; 16];
    let source = ImageSource::BufferView { data: canary.as_slice(), width: 4, height: 4 };
    match materialize(source) {
        Materialized::Ready(img) => {
            assert_eq!(img.data(), canary.as_slice());
            assert_eq!(img.width(), 4);
            assert_eq!(img.height(), 4);
        }
        Materialized::NeedsFileBytes { .. } => panic!("view needs no file"),
    }
    // The owner is untouched after the buffer is dropped.
    assert!(canary.iter().all(|b| *b == 0xA5));
}

#[test]
fn path_source_asks_for_file_bytes() {
    let source = ImageSource::Path("photo.png".to_string());
    match materialize(source) {
        Materialized::NeedsFileBytes { path } => assert_eq!(path, "photo.png"),
        Materialized::Ready(_) => panic!("a path cannot be ready without its bytes"),
    }
}

#[test]
fn gray_image_new_keeps_bytes_and_dimensions() {
    let img = GrayImage::new(vec![9u8, 8, 7, 6], 2, 2);
    assert_eq!(img.data(), &[9, 8, 7, 6]);
    assert_eq!(img.width(), 2);
    assert_eq!(img.height(), 2);
}

#[test]
fn grayscale_mode_extracts_directly() {
    assert_eq!(plan_mode("L").unwrap(), ModePlan::ExtractDirect);
}

#[test]
fn convertible_modes_convert_first() {
    for mode in ["RGB", "RGBA", "P", "1"] {
        assert_eq!(plan_mode(mode).unwrap(), ModePlan::ConvertFirst, "{}", mode);
    }
}

#[test]
fn other_modes_fail_naming_the_mode() {
    for mode in ["CMYK", "F", "I;16", ""] {
        let e = plan_mode(mode).unwrap_err();
        assert!(matches!(e, Error::UnsupportedMode { mode: m } if m == mode), "{}", mode);
    }
}

#[test]
fn path_text_classifies_as_path() {
    let empty_probe = ProtocolProbe {
        has_mode: false,
        has_width: false,
        has_height: false,
        has_tobytes: false,
        has_convert: false,
        has_load: false,
        tobytes_callable: false,
        convert_callable: false,
        load_callable: false,
    };
    assert_eq!(classify_handle(true, &empty_probe).unwrap(), SourceKind::PathText);
}

#[test]
fn conforming_object_classifies_as_protocol() {
    let kind = classify_handle(false, &conforming_probe()).unwrap();
    assert_eq!(kind, SourceKind::ProtocolObject);
}

#[test]
fn missing_capability_is_invalid_input() {
    let mut probe = conforming_probe();
    probe.has_convert = false;
    assert!(matches!(classify_handle(false, &probe), Err(Error::InvalidInput)));
    let mut probe = conforming_probe();
    probe.load_callable = false;
    assert!(matches!(classify_handle(false, &probe), Err(Error::InvalidInput)));
}

#[test]
fn zero_copy_only_for_single_byte_elements() {
    assert_eq!(plan_extraction(true, "|u1"), ExtractionPlan::ZeroCopyView);
    assert_eq!(plan_extraction(true, "<u2"), ExtractionPlan::CopyBytes);
    assert_eq!(plan_extraction(false, "|u1"), ExtractionPlan::CopyBytes);
    assert_eq!(plan_extraction(false, ""), ExtractionPlan::CopyBytes);
}

#[test]
fn file_bytes_decode_to_gray_pixels() {
    let img = materialize_path_bytes(&TINY_PNG).unwrap();
    assert_eq!(img.width(), 2);
    assert_eq!(img.height(), 1);
    assert_eq!(img.data(), &[7, 200]);
}

#[test]
fn undecodable_bytes_are_a_decode_failure() {
    let e = materialize_path_bytes(b"this is not an image").unwrap_err();
    assert!(matches!(e, Error::ImageDecodeFailure { .. }));
}

#[test]
fn missing_file_is_distinct_from_undecodable_file() {
    let missing = classify_read_failure(true, "no such file".to_string());
    assert!(matches!(missing, Error::FileNotFound { message } if message == "no such file"));
    let other = classify_read_failure(false, "permission denied".to_string());
    assert!(matches!(other, Error::ImageDecodeFailure { message } if message == "permission denied"));
}

#[test]
fn plan_decode_single_caps_symbols_and_expands_empty_filter() {
    let plan = plan_decode(&[], false);
    assert!(plan.single_symbol);
    assert_eq!(plan.format_codes, engine_request(all_formats().as_slice()));
}

#[test]
fn plan_decode_multi_restricts_to_filter() {
    let plan = plan_decode(&[BarcodeFormat::QRCode], true);
    assert!(!plan.single_symbol);
    assert_eq!(plan.format_codes, vec![0x2051]);
}

#[test]
fn nothing_found_is_none_not_an_error() {
    let single = finish_decode_single(Ok(Vec::new())).unwrap();
    assert!(single.is_none());
    let multi = finish_decode_multi(Ok(Vec::new())).unwrap();
    assert!(multi.is_empty());
}

#[test]
fn engine_failure_surfaces_as_decode_failure() {
    let e = finish_decode_single(Err("engine fault".to_string())).unwrap_err();
    assert!(matches!(e, Error::DecodeFailure { message } if message == "engine fault"));
    let e = finish_decode_multi(Err("engine fault".to_string())).unwrap_err();
    assert!(matches!(e, Error::DecodeFailure { message } if message == "engine fault"));
}

#[test]
fn all_white_buffer_with_no_symbol_decodes_to_none() {
    let data = vec![255u8; 100 * 100];
    let source = ImageSource::BufferOwned { data, width: 100, height: 100 };
    let img = match materialize(source) {
        Materialized::Ready(img) => img,
        Materialized::NeedsFileBytes { .. } => panic!("owned buffer needs no file"),
    };
    assert_eq!(img.width(), 100);
    assert_eq!(img.height(), 100);
    let plan = plan_decode(&[], false);
    assert!(plan.single_symbol);
    assert_eq!(plan.format_codes.len(), 20);
    // The engine locates no symbol in a blank image; that outcome is None,
    // not an error.
    let outcome = finish_decode_single(Ok(Vec::new())).unwrap();
    assert!(outcome.is_none());
}

#[test]
fn matching_filter_yields_result_nonmatching_yields_none() {
    let hit = EngineHit {
        text: "HELLO".to_string(),
        top_left: Point { x: 10, y: 20 },
        bottom_right: Point { x: 30, y: 40 },
        format_code: 0x2051,
    };
    // Restricted to the symbol's own format: the engine reports the hit.
    let plan = plan_decode(&[BarcodeFormat::QRCode], false);
    assert_eq!(plan.format_codes, vec![0x2051]);
    let result = finish_decode_single(Ok(vec![hit])).unwrap().unwrap();
    assert_eq!(result.format(), BarcodeFormat::QRCode);
    assert_eq!(result.text(), "HELLO");
    // Restricted to a different format: the engine reports nothing.
    let plan = plan_decode(&[BarcodeFormat::EAN13], false);
    assert_eq!(plan.format_codes, vec![0x3145]);
    let outcome = finish_decode_single(Ok(Vec::new())).unwrap();
    assert!(outcome.is_none());
}

#[test]
fn unmappable_symbol_is_dropped_not_fatal() {
    let strange = EngineHit {
        text: "odd".to_string(),
        top_left: Point { x: 0, y: 0 },
        bottom_right: Point { x: 1, y: 1 },
        format_code: 0xFFFF,
    };
    let known = EngineHit {
        text: "ok".to_string(),
        top_left: Point { x: 2, y: 2 },
        bottom_right: Point { x: 3, y: 3 },
        format_code: 0x2064,
    };
    let results = normalize_hits(vec![strange, known]);
    assert_eq!(results.len(), 1);
    assert_eq!(results[0].text(), "ok");
    assert_eq!(results[0].format(), BarcodeFormat::DataMatrix);
}

#[test]
fn multi_results_keep_engine_order() {
    let first = EngineHit {
        text: "first".to_string(),
        top_left: Point { x: 0, y: 0 },
        bottom_right: Point { x: 1, y: 1 },
        format_code: 0x2051,
    };
    let second = EngineHit {
        text: "second".to_string(),
        top_left: Point { x: 5, y: 5 },
        bottom_right: Point { x: 6, y: 6 },
        format_code: 0x3845,
    };
    let results = finish_decode_multi(Ok(vec![first, second])).unwrap();
    assert_eq!(results.len(), 2);
    assert_eq!(results[0].text(), "first");
    assert_eq!(results[1].text(), "second");
    assert_eq!(results[1].format(), BarcodeFormat::EAN8);
}

#[test]
fn corners_derive_as_axis_aligned_rectangle() {
    let result = DecodeResult {
        text: String::new(),
        position: Position {
            top_left: Point { x: 1, y: 2 },
            bottom_right: Point { x: 7, y: 9 },
        },
        format: BarcodeFormat::QRCode,
    };
    let points = result.points();
    assert_eq!(points[0], Point { x: 1, y: 2 });
    assert_eq!(points[1], Point { x: 7, y: 2 });
    assert_eq!(points[2], Point { x: 7, y: 9 });
    assert_eq!(points[3], Point { x: 1, y: 9 });
    assert_eq!(result.position().top_left(), Point { x: 1, y: 2 });
    assert_eq!(result.position().bottom_right(), Point { x: 7, y: 9 });
    assert_eq!(points[0].x(), 1);
    assert_eq!(points[0].y(), 2);
}
