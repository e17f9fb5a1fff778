//! Adapter that reshapes the output of a dictionary-based Japanese
//! morphological analyzer into the token schema of the kuromoji.js
//! JavaScript tokenizer.
//!
//! The analyzer itself is an external collaborator: it segments text and
//! assigns linguistic attributes. This crate consumes its output: each
//! analyzer token is classified as known or unknown and mapped to a
//! fixed-shape record, and the whole ordered sequence is returned.
use vstd::prelude::*;

pub mod analyzer;
pub mod laws;
pub mod token;

use crate::analyzer::AnalyzerHandle;
use crate::analyzer::segment_text;
use crate::token::AnalyzerToken;
pub use crate::token::KuromojiJSFormatToken;
use crate::token::detail_to_kuromoji_js_format;
use crate::token::detail_well_formed;
use crate::token::maps_token;

verus! {

/// Why a `tokenize` call failed.
#[derive(Debug, Clone, Copy, PartialEq, Eq)]
pub enum TokenizeError {
    /// The analyzer singleton could not be constructed (e.g. dictionary data
    /// unavailable or corrupt). Fatal: no tokenization is possible.
    Initialization,
    /// The shared handle's lock is poisoned: a previous holder failed while
    /// holding it. Fatal for the call; no self-healing is attempted.
    LockUnavailable,
    /// The analyzer rejected or failed on the given input. Per-call; later
    /// calls stay viable.
    AnalyzerRuntime,
    /// A token claimed to be known but its attribute list is malformed
    /// (fewer than nine entries). The whole call fails; no partial result.
    SchemaConsistency,
}

/// Every attribute list in the sequence is one the mapping accepts.
pub open spec fn all_well_formed(ts: Seq<AnalyzerToken>) -> bool {
    forall|i: int| 0 <= i < ts.len() ==> detail_well_formed(#[trigger] ts[i])
}

/// `outs` is exactly the record sequence owed for the analyzer tokens `ts`:
/// same length, and the record at each ordinal position maps the token at
/// that position. Positions are ordinals in a 32-bit field, so the sequence
/// fits in one.
pub open spec fn maps_all(ts: Seq<AnalyzerToken>, outs: Seq<KuromojiJSFormatToken>) -> bool {
    &&& ts.len() <= u32::MAX
    &&& outs.len() == ts.len()
    &&& forall|i: int| 0 <= i < ts.len() ==> maps_token(i as u32, ts[i], #[trigger] outs[i])
}

/// The `word_position` values in `outs` are exactly 0, 1, ..., n-1 in
/// return order.
pub open spec fn positions_are_ordinal(outs: Seq<KuromojiJSFormatToken>) -> bool {
    forall|i: int| 0 <= i < outs.len() ==> (#[trigger] outs[i]).word_position == i
}

/// Map one call's analyzer output, in order, to the output schema. Fails
/// with `SchemaConsistency`, and returns no partial result, exactly when
/// some token's attribute list is malformed.
pub fn format_tokens(tokens: &Vec<AnalyzerToken>) -> (r: Result<
    Vec<KuromojiJSFormatToken>,
    TokenizeError,
>)
    requires
        tokens@.len() <= u32::MAX,
    ensures
        r is Ok <==> all_well_formed(tokens@),
        r is Ok ==> maps_all(tokens@, r->Ok_0@),
        r is Err ==> r->Err_0 is SchemaConsistency,
{
    let mut out: Vec<KuromojiJSFormatToken> = Vec::new();
    let mut i: usize = 0;
    while i < tokens.len()
        invariant
            tokens@.len() <= u32::MAX,
            0 <= i <= tokens@.len(),
            out@.len() == i,
            forall|j: int| 0 <= j < i ==> detail_well_formed(#[trigger] tokens@[j]),
            forall|j: int| 0 <= j < i ==> maps_token(j as u32, tokens@[j], #[trigger] out@[j]),
        decreases tokens@.len() - i,
    {
        let t = &tokens[i];
        let well_formed = if t.detail.len() == 0 {
            false
        } else if t.detail.len() >= 9 {
            true
        } else {
            let unk = String::from_str("UNK");
            t.detail[0] == unk
        };
        if !well_formed {
            assert(!detail_well_formed(tokens@[i as int]));
            return Err(TokenizeError::SchemaConsistency);
        }
        let record = detail_to_kuromoji_js_format(i as u32, t);
        out.push(record);
        i = i + 1;
    }
    Ok(out)
}

/// Tokenize one call's input text: hand it to the analyzer the handle owns,
/// then map each returned token, in order, to the output schema.
///
/// The analyzer decides which tokens come back, so the result is pinned only
/// relative to some analyzer output: a well-formed token sequence that the
/// returned records map exactly, surface for surface and in order. The whole call fails, with
/// `SchemaConsistency` and no partial result, when a token claims to be
/// known but its attribute list is malformed; an analyzer-internal failure
/// would surface as `AnalyzerRuntime`.
pub fn tokenize(handle: &AnalyzerHandle, input_text: &str) -> (r: Result<
    Vec<KuromojiJSFormatToken>,
    TokenizeError,
>)
    requires
        input_text@.len() <= u32::MAX,
    ensures
        r is Ok ==> exists|ts: Seq<AnalyzerToken>|
            all_well_formed(ts) && #[trigger] maps_all(ts, r->Ok_0@)
                && laws::concat_surfaces(r->Ok_0@) == laws::concat_texts(ts),
        r is Ok ==> positions_are_ordinal(r->Ok_0@),
        input_text@.len() == 0 ==> r is Ok && r->Ok_0@.len() == 0,
        r is Err ==> r->Err_0 is SchemaConsistency,
{
    let tokens = match segment_text(handle, input_text) {
        Ok(tokens) => tokens,
        Err(_) => {
            return Err(TokenizeError::AnalyzerRuntime);
        },
    };
    let r = format_tokens(&tokens);
    proof {
        if r is Ok {
            assert(all_well_formed(tokens@) && maps_all(tokens@, r->Ok_0@));
            laws::lemma_order_preservation(tokens@, r->Ok_0@);
            laws::lemma_surface_coverage(tokens@, r->Ok_0@);
        }
    }
    r
}

} // verus!
