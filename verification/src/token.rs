//! Token records and the per-token mapping from analyzer output to the
//! kuromoji.js-compatible schema.
use vstd::prelude::*;

verus! {

/// One token as the external morphological analyzer reports it: the matched
/// surface substring and an ordered list of linguistic attribute strings.
/// For a token found in the dictionary the list has (at least) nine entries:
/// part of speech, three sub-details, conjugation type, conjugation form,
/// base form, reading and pronunciation. For a token not found in the
/// dictionary the first entry is the sentinel `"UNK"`.
#[derive(Debug, Clone, PartialEq, Eq)]
pub struct AnalyzerToken {
    pub text: String,
    pub detail: Vec<String>,
}

/// One output record in the kuromoji.js token schema.
#[derive(Debug, Clone, PartialEq, Eq)]
pub struct KuromojiJSFormatToken {
    pub word_id: Option<u32>,
    pub word_type: String,
    pub word_position: u32,
    pub surface_form: String,
    pub pos: String,
    pub pos_detail_1: String,
    pub pos_detail_2: String,
    pub pos_detail_3: String,
    pub conjugated_type: String,
    pub conjugated_form: String,
    pub basic_form: String,
    pub reading: String,
    pub pronunciation: String,
}

/// The fixed "not applicable" glyph (the full-width asterisk) that stands in
/// every linguistic field of an unknown token except `pos`.
pub open spec fn sentinel_glyph() -> Seq<char> {
    "\u{ff0a}"@
}

/// The "not applicable" glyph as an owned string.
pub fn sentinel_string() -> (s: String)
    ensures
        s@ == sentinel_glyph(),
{
    String::from_str("\u{ff0a}")
}

/// The attribute list marks a token as unknown when its first entry is the
/// analyzer's sentinel `"UNK"`.
pub open spec fn is_unknown_detail(t: AnalyzerToken) -> bool {
    t.detail@[0]@ == "UNK"@
}

/// An attribute list the mapping accepts: it has a first entry, and a token
/// that claims to be known carries all nine linguistic attributes.
pub open spec fn detail_well_formed(t: AnalyzerToken) -> bool {
    t.detail@.len() >= 1 && (is_unknown_detail(t) || t.detail@.len() >= 9)
}

/// The nine linguistic fields of `out` are a verbatim, position-for-position
/// copy of the token's attribute list.
pub open spec fn known_fields(t: AnalyzerToken, out: KuromojiJSFormatToken) -> bool {
    &&& out.pos@ == t.detail@[0]@
    &&& out.pos_detail_1@ == t.detail@[1]@
    &&& out.pos_detail_2@ == t.detail@[2]@
    &&& out.pos_detail_3@ == t.detail@[3]@
    &&& out.conjugated_type@ == t.detail@[4]@
    &&& out.conjugated_form@ == t.detail@[5]@
    &&& out.basic_form@ == t.detail@[6]@
    &&& out.reading@ == t.detail@[7]@
    &&& out.pronunciation@ == t.detail@[8]@
}

/// `pos` keeps the analyzer's sentinel verbatim; the eight remaining
/// linguistic fields hold the fixed "not applicable" glyph.
pub open spec fn unknown_fields(t: AnalyzerToken, out: KuromojiJSFormatToken) -> bool {
    &&& out.pos@ == t.detail@[0]@
    &&& out.pos_detail_1@ == sentinel_glyph()
    &&& out.pos_detail_2@ == sentinel_glyph()
    &&& out.pos_detail_3@ == sentinel_glyph()
    &&& out.conjugated_type@ == sentinel_glyph()
    &&& out.conjugated_form@ == sentinel_glyph()
    &&& out.basic_form@ == sentinel_glyph()
    &&& out.reading@ == sentinel_glyph()
    &&& out.pronunciation@ == sentinel_glyph()
}

/// `out` is the record the adapter owes for the analyzer token `t` standing
/// at ordinal position `position`.
pub open spec fn maps_token(position: u32, t: AnalyzerToken, out: KuromojiJSFormatToken) -> bool {
    &&& out.word_id is None
    &&& out.word_position == position
    &&& out.surface_form@ == t.text@
    &&& if is_unknown_detail(t) {
        out.word_type@ == "UNKNOWN"@ && unknown_fields(t, out)
    } else {
        out.word_type@ == "KNOWN"@ && known_fields(t, out)
    }
}

/// Classify one analyzer token as known or unknown and build its output
/// record for ordinal position `position`.
pub fn detail_to_kuromoji_js_format(position: u32, token: &AnalyzerToken) -> (out:
    KuromojiJSFormatToken)
    requires
        detail_well_formed(*token),
    ensures
        maps_token(position, *token, out),
{
    let unk = String::from_str("UNK");
    if token.detail[0] == unk {
        KuromojiJSFormatToken {
            word_id: None,
            word_type: String::from_str("UNKNOWN"),
            word_position: position,
            surface_form: token.text.clone(),
            pos: token.detail[0].clone(),
            pos_detail_1: sentinel_string(),
            pos_detail_2: sentinel_string(),
            pos_detail_3: sentinel_string(),
            conjugated_type: sentinel_string(),
            conjugated_form: sentinel_string(),
            basic_form: sentinel_string(),
            reading: sentinel_string(),
            pronunciation: sentinel_string(),
        }
    } else {
        KuromojiJSFormatToken {
            word_id: None,
            word_type: String::from_str("KNOWN"),
            word_position: position,
            surface_form: token.text.clone(),
            pos: token.detail[0].clone(),
            pos_detail_1: token.detail[1].clone(),
            pos_detail_2: token.detail[2].clone(),
            pos_detail_3: token.detail[3].clone(),
            conjugated_type: token.detail[4].clone(),
            conjugated_form: token.detail[5].clone(),
            basic_form: token.detail[6].clone(),
            reading: token.detail[7].clone(),
            pronunciation: token.detail[8].clone(),
        }
    }
}

} // verus!
