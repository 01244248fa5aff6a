//! The decode orchestrator's verified half: what one engine invocation is
//! asked to do, and how the engine's raw outcome is normalized into the
//! library's results and errors. "The engine found nothing" is a successful
//! outcome here, never an error.

use vstd::prelude::*;
use crate::error::Error;
use crate::format::{BarcodeFormat, spec_from_engine, from_engine};
use crate::filter::{spec_engine_request, engine_request};
use crate::geometry::{Point, Position, spec_corners};

verus! {

/// What the decoding engine reports for one detected symbol: the decoded
/// text, two opposite corners of the symbol, and the engine's own format
/// code.
#[derive(Debug, Clone)]
pub struct EngineHit {
    pub text: String,
    pub top_left: Point,
    pub bottom_right: Point,
    pub format_code: u32,
}

/// One normalized decode result: independently owned once returned, with no
/// aliasing back into any pixel buffer.
#[derive(Debug, Clone)]
pub struct DecodeResult {
    pub text: String,
    pub position: Position,
    pub format: BarcodeFormat,
}

impl DecodeResult {
    /// The decoded text.
    pub fn text(&self) -> (r: &str)
        ensures
            r@ == self.text@,
    {
        self.text.as_str()
    }

    /// The two opposite corners the engine reported.
    pub fn position(&self) -> (r: Position)
        ensures
            r == self.position,
    {
        self.position
    }

    /// The symbol's format in the canonical enumeration.
    pub fn format(&self) -> (r: BarcodeFormat)
        ensures
            r == self.format,
    {
        self.format
    }

    /// The symbol's bounding quadrilateral as an axis-aligned rectangle:
    /// top-left, top-right, bottom-right, bottom-left.
    pub fn points(&self) -> (r: [Point; 4])
        ensures
            r@ == spec_corners(self.position),
    {
        let top_left = self.position.top_left;
        let bottom_right = self.position.bottom_right;
        let r = [
            top_left,
            Point { x: bottom_right.x, y: top_left.y },
            bottom_right,
            Point { x: top_left.x, y: bottom_right.y },
        ];
        proof {
            assert(r@ =~= spec_corners(self.position));
        }
        r
    }
}

/// The one normalized result a raw hit yields: its text and corners under the
/// canonical format, or nothing when the canonical enumeration does not model
/// the engine's format code.
pub open spec fn spec_normalize_hit(h: EngineHit) -> Option<DecodeResult> {
    match spec_from_engine(h.format_code) {
        Some(f) => Some(
            DecodeResult {
                text: h.text,
                position: Position { top_left: h.top_left, bottom_right: h.bottom_right },
                format: f,
            },
        ),
        None => None,
    }
}

/// All normalized results of a hit sequence, in the engine's order: a hit
/// whose format cannot be mapped is dropped, costing only that one symbol.
pub open spec fn spec_normalize(hits: Seq<EngineHit>) -> Seq<DecodeResult>
    decreases hits.len(),
{
    if hits.len() == 0 {
        Seq::empty()
    } else {
        let rest = spec_normalize(hits.drop_last());
        match spec_normalize_hit(hits.last()) {
            Some(d) => rest.push(d),
            None => rest,
        }
    }
}

/// Normalize the engine's raw hits, dropping only the symbols whose format
/// the canonical enumeration does not model, and keeping the engine's order.
pub fn normalize_hits(hits: Vec<EngineHit>) -> (r: Vec<DecodeResult>)
    ensures
        r@ == spec_normalize(hits@),
{
    let mut results: Vec<DecodeResult> = Vec::new();
    let mut i: usize = 0;
    proof {
        assert(hits@.take(0) =~= Seq::<EngineHit>::empty());
    }
    while i < hits.len()
        invariant
            i <= hits@.len(),
            results@ == spec_normalize(hits@.take(i as int)),
        decreases hits@.len() - i,
    {
        let hit = &hits[i];
        match from_engine(hit.format_code) {
            Ok(format) => {
                let result = DecodeResult {
                    text: hit.text.clone(),
                    position: Position { top_left: hit.top_left, bottom_right: hit.bottom_right },
                    format,
                };
                results.push(result);
            },
            Err(_) => {},
        }
        proof {
            let taken = hits@.take(i + 1);
            assert(taken.drop_last() =~= hits@.take(i as int));
            assert(taken.last() == hits@[i as int]);
        }
        i += 1;
    }
    proof {
        assert(hits@.take(i as int) =~= hits@);
    }
    results
}

/// The engine invocation one decode call makes: which format codes to ask
/// for, and whether the engine is told to stop at a single symbol.
pub struct DecodePlan {
    pub format_codes: Vec<u32>,
    pub single_symbol: bool,
}

/// Plan the engine invocation for a filter and a mode: the format request
/// expands an empty filter to every supported format, and single-result mode
/// caps the engine at one symbol.
pub fn plan_decode(formats: &[BarcodeFormat], multi: bool) -> (r: DecodePlan)
    ensures
        r.format_codes@ == spec_engine_request(formats@),
        r.single_symbol == !multi,
{
    DecodePlan { format_codes: engine_request(formats), single_symbol: !multi }
}

/// Normalize a multi-result engine outcome. An engine failure surfaces as a
/// decode failure carrying the engine's diagnostic text; a successful pass
/// yields every mappable symbol in the engine's order; a pass that found
/// nothing yields the empty sequence, never an error.
pub fn finish_decode_multi(outcome: Result<Vec<EngineHit>, String>) -> (r: Result<
    Vec<DecodeResult>,
    Error,
>)
    ensures
        match outcome {
            Ok(hits) => r matches Ok(results) && results@ == spec_normalize(hits@),
            Err(m) => r matches Err(Error::DecodeFailure { message }) && message == m,
        },
{
    match outcome {
        Ok(hits) => Ok(normalize_hits(hits)),
        Err(message) => Err(Error::DecodeFailure { message }),
    }
}

/// Normalize a single-result engine outcome: the first mappable symbol if
/// any. An image with no symbol yields `None`, never an error; only an engine
/// failure is an error, carrying the engine's diagnostic text.
pub fn finish_decode_single(outcome: Result<Vec<EngineHit>, String>) -> (r: Result<
    Option<DecodeResult>,
    Error,
>)
    ensures
        match outcome {
            Ok(hits) => r matches Ok(first) && first == spec_first_result(hits@),
            Err(m) => r matches Err(Error::DecodeFailure { message }) && message == m,
        },
{
    match outcome {
        Ok(hits) => {
            let mut results = normalize_hits(hits);
            if results.len() == 0 {
                Ok(None)
            } else {
                let first = results.remove(0);
                Ok(Some(first))
            }
        },
        Err(message) => Err(Error::DecodeFailure { message }),
    }
}

/// The single-mode outcome of a hit sequence: the first normalized result,
/// or nothing when no symbol was found (or none could be mapped).
pub open spec fn spec_first_result(hits: Seq<EngineHit>) -> Option<DecodeResult> {
    let results = spec_normalize(hits);
    if results.len() == 0 {
        None
    } else {
        Some(results.first())
    }
}

/// An engine pass that located no symbol is a successful empty outcome:
/// nothing in single mode and the empty sequence in multi mode, never an
/// error.
pub proof fn lemma_nothing_found_is_success(hits: Seq<EngineHit>)
    requires
        hits.len() == 0,
    ensures
        spec_first_result(hits) is None,
        spec_normalize(hits).len() == 0,
{
}

} // verus!

