//! Format filters: the set of symbologies a decode attempt restricts itself
//! to, built from user-supplied names, and its translation into the format
//! request handed to the decoding engine.

use vstd::prelude::*;
use crate::format::{BarcodeFormat, spec_parse_name, parse_name, spec_engine_code, to_engine};

verus! {

/// The formats a list of user-supplied names denotes, accumulated onto `acc`:
/// each name is parsed, unrecognized names are dropped, and duplicates are
/// collapsed, keeping the first occurrence's position.
pub open spec fn spec_collect_formats(names: Seq<Seq<char>>, acc: Seq<BarcodeFormat>) -> Seq<
    BarcodeFormat,
>
    decreases names.len(),
{
    if names.len() == 0 {
        acc
    } else {
        let stepped = match spec_parse_name(names.first()) {
            Some(f) => if acc.contains(f) {
                acc
            } else {
                acc.push(f)
            },
            None => acc,
        };
        spec_collect_formats(names.drop_first(), stepped)
    }
}

/// The format filter a list of user-supplied names denotes.
pub open spec fn spec_formats_from_names(names: Seq<Seq<char>>) -> Seq<BarcodeFormat> {
    spec_collect_formats(names, Seq::empty())
}

/// Whether the filter already holds a format.
fn contains_format(formats: &Vec<BarcodeFormat>, f: BarcodeFormat) -> (r: bool)
    ensures
        r == formats@.contains(f),
{
    let mut i: usize = 0;
    while i < formats.len()
        invariant
            i <= formats.len(),
            forall|j: int| 0 <= j < i ==> formats@[j] != f,
        decreases formats.len() - i,
    {
        if formats[i] == f {
            return true;
        }
        i += 1;
    }
    false
}

/// Build a format filter from user-supplied names: parse each name, drop the
/// ones that match no canonical format, and collapse duplicates. A list whose
/// names all fail to parse degrades to the empty filter.
pub fn formats_from_names(names: &Vec<String>) -> (r: Vec<BarcodeFormat>)
    ensures
        r@ == spec_formats_from_names(names.deep_view()),
{
    let ghost all_names: Seq<Seq<char>> = names.deep_view();
    let mut acc: Vec<BarcodeFormat> = Vec::new();
    let mut i: usize = 0;
    proof {
        assert(all_names.skip(0) =~= all_names);
    }
    while i < names.len()
        invariant
            i <= names.len(),
            all_names == names.deep_view(),
            all_names.len() == names@.len(),
            forall|j: int| 0 <= j < all_names.len() ==> all_names[j] == #[trigger] names@[j]@,
            spec_collect_formats(all_names.skip(i as int), acc@) == spec_formats_from_names(
                all_names,
            ),
        decreases names.len() - i,
    {
        let ghost prev = acc@;
        match parse_name(names[i].as_str()) {
            Some(f) => {
                if !contains_format(&acc, f) {
                    acc.push(f);
                }
            },
            None => {},
        }
        proof {
            let rest = all_names.skip(i as int);
            assert(rest.first() == all_names[i as int]);
            assert(rest.drop_first() =~= all_names.skip(i + 1));
            assert(spec_collect_formats(all_names.skip(i + 1), acc@) == spec_collect_formats(
                rest,
                prev,
            ));
        }
        i += 1;
    }
    proof {
        assert(all_names.skip(i as int) =~= Seq::<Seq<char>>::empty());
    }
    acc
}

/// Build the format filter a request's optional name list denotes: an absent
/// list means the empty filter, which in turn means "attempt every supported
/// format".
pub fn build_filter(names: Option<Vec<String>>) -> (r: Vec<BarcodeFormat>)
    ensures
        match names {
            Some(ns) => r@ == spec_formats_from_names(ns.deep_view()),
            None => r@ == Seq::<BarcodeFormat>::empty(),
        },
{
    match names {
        Some(ns) => formats_from_names(&ns),
        None => Vec::new(),
    }
}

/// Every format the library supports, in canonical order.
pub open spec fn spec_all_formats() -> Seq<BarcodeFormat> {
    seq![
        BarcodeFormat::Aztec,
        BarcodeFormat::Codabar,
        BarcodeFormat::Code39,
        BarcodeFormat::Code93,
        BarcodeFormat::Code128,
        BarcodeFormat::DataBar,
        BarcodeFormat::DataBarExpanded,
        BarcodeFormat::DataBarLimited,
        BarcodeFormat::DataMatrix,
        BarcodeFormat::EAN8,
        BarcodeFormat::EAN13,
        BarcodeFormat::ITF,
        BarcodeFormat::MaxiCode,
        BarcodeFormat::PDF417,
        BarcodeFormat::QRCode,
        BarcodeFormat::UPCA,
        BarcodeFormat::UPCE,
        BarcodeFormat::MicroQRCode,
        BarcodeFormat::RMQRCode,
        BarcodeFormat::DXFilmEdge,
    ]
}

/// Every format the library supports, in canonical order.
pub fn all_formats() -> (r: Vec<BarcodeFormat>)
    ensures
        r@ == spec_all_formats(),
{
    let formats: Vec<BarcodeFormat> = vec![
        BarcodeFormat::Aztec,
        BarcodeFormat::Codabar,
        BarcodeFormat::Code39,
        BarcodeFormat::Code93,
        BarcodeFormat::Code128,
        BarcodeFormat::DataBar,
        BarcodeFormat::DataBarExpanded,
        BarcodeFormat::DataBarLimited,
        BarcodeFormat::DataMatrix,
        BarcodeFormat::EAN8,
        BarcodeFormat::EAN13,
        BarcodeFormat::ITF,
        BarcodeFormat::MaxiCode,
        BarcodeFormat::PDF417,
        BarcodeFormat::QRCode,
        BarcodeFormat::UPCA,
        BarcodeFormat::UPCE,
        BarcodeFormat::MicroQRCode,
        BarcodeFormat::RMQRCode,
        BarcodeFormat::DXFilmEdge,
    ];
    proof {
        assert(formats@ =~= spec_all_formats());
    }
    formats
}

/// The engine codes of a format sequence, in order.
pub open spec fn spec_codes_of(formats: Seq<BarcodeFormat>) -> Seq<u32> {
    formats.map_values(|f: BarcodeFormat| spec_engine_code(f))
}

/// The format request handed to the decoding engine for a filter: an empty
/// filter means "attempt every supported format", never "attempt none", so it
/// expands to the full supported list.
pub open spec fn spec_engine_request(formats: Seq<BarcodeFormat>) -> Seq<u32> {
    if formats.len() == 0 {
        spec_codes_of(spec_all_formats())
    } else {
        spec_codes_of(formats)
    }
}

/// The engine codes of each format in the filter, in the filter's order.
fn codes_of(formats: &[BarcodeFormat]) -> (r: Vec<u32>)
    ensures
        r@ == spec_codes_of(formats@),
{
    let mut codes: Vec<u32> = Vec::new();
    let mut i: usize = 0;
    while i < formats.len()
        invariant
            i <= formats@.len(),
            codes@ == spec_codes_of(formats@.take(i as int)),
        decreases formats@.len() - i,
    {
        codes.push(to_engine(formats[i]));
        proof {
            assert(formats@.take(i + 1) =~= formats@.take(i as int).push(formats@[i as int]));
            assert(codes@ =~= spec_codes_of(formats@.take(i + 1)));
        }
        i += 1;
    }
    proof {
        assert(formats@.take(i as int) =~= formats@);
    }
    codes
}

/// Build the engine's format request from a filter: the engine code of every
/// format in the filter, or of every supported format when the filter is
/// empty.
pub fn engine_request(formats: &[BarcodeFormat]) -> (r: Vec<u32>)
    ensures
        r@ == spec_engine_request(formats@),
{
    if formats.len() == 0 {
        let all = all_formats();
        codes_of(all.as_slice())
    } else {
        codes_of(formats)
    }
}

/// An empty format filter behaves exactly as a filter holding every supported
/// format: both produce the same engine request, code for code and in the
/// same order.
pub proof fn lemma_empty_filter_means_all_formats()
    ensures
        spec_engine_request(Seq::<BarcodeFormat>::empty()) == spec_engine_request(
            spec_all_formats(),
        ),
{
    assert(spec_all_formats().len() != 0);
}

/// Every code of `a`'s request also stands in `b`'s, given that every format
/// of `a` stands in `b`.
proof fn lemma_codes_cover(a: Seq<BarcodeFormat>, b: Seq<BarcodeFormat>)
    requires
        forall|f: BarcodeFormat| #[trigger] a.contains(f) ==> b.contains(f),
    ensures
        forall|c: u32| #[trigger] spec_codes_of(a).contains(c) ==> spec_codes_of(b).contains(c),
{
    assert forall|c: u32| #[trigger] spec_codes_of(a).contains(c) implies spec_codes_of(
        b,
    ).contains(c) by {
        let i = choose|i: int| 0 <= i < spec_codes_of(a).len() && spec_codes_of(a)[i] == c;
        assert(a.contains(a[i]));
        assert(b.contains(a[i]));
        let j = choose|j: int| 0 <= j < b.len() && b[j] == a[i];
        assert(spec_codes_of(b)[j] == c);
    };
}

/// A format filter acts as a set: order is irrelevant and duplicates
/// collapse. Two filters holding the same formats - in any order, with any
/// duplication - ask the engine for the same set of format codes.
pub proof fn lemma_filter_acts_as_set(a: Seq<BarcodeFormat>, b: Seq<BarcodeFormat>)
    requires
        a.to_set() == b.to_set(),
    ensures
        spec_engine_request(a).to_set() == spec_engine_request(b).to_set(),
{
    if a.len() == 0 && b.len() == 0 {
    } else if a.len() == 0 {
        assert(b.to_set().contains(b[0]));
        assert(a.contains(b[0]));
        assert(false);
    } else if b.len() == 0 {
        assert(a.to_set().contains(a[0]));
        assert(b.contains(a[0]));
        assert(false);
    } else {
        assert forall|f: BarcodeFormat| #[trigger] a.contains(f) implies b.contains(f) by {
            assert(a.to_set().contains(f));
            assert(b.to_set().contains(f));
        };
        assert forall|f: BarcodeFormat| #[trigger] b.contains(f) implies a.contains(f) by {
            assert(b.to_set().contains(f));
            assert(a.to_set().contains(f));
        };
        lemma_codes_cover(a, b);
        lemma_codes_cover(b, a);
        assert(spec_codes_of(a).to_set() =~= spec_codes_of(b).to_set());
    }
}

} // verus!
