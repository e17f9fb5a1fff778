//! The laws the adapter keeps, stated over the same spec functions that the
//! executable functions' contracts use, and proved once and for all.
use vstd::prelude::*;

use crate::maps_all;
use crate::positions_are_ordinal;
use crate::token::AnalyzerToken;
use crate::token::KuromojiJSFormatToken;
use crate::token::known_fields;
use crate::token::maps_token;
use crate::token::sentinel_glyph;

verus! {

/// Order preservation: the records owed for an analyzer token sequence carry
/// the word positions 0, 1, ..., n-1, in return order.
pub proof fn lemma_order_preservation(ts: Seq<AnalyzerToken>, outs: Seq<KuromojiJSFormatToken>)
    requires
        maps_all(ts, outs),
    ensures
        positions_are_ordinal(outs),
{
    assert forall|i: int| 0 <= i < outs.len() implies (#[trigger] outs[i]).word_position == i by {
        assert(maps_token(i as u32, ts[i], outs[i]));
    }
}

/// The surface substrings of the analyzer tokens `ts`, concatenated in
/// order.
pub open spec fn concat_texts(ts: Seq<AnalyzerToken>) -> Seq<char>
    decreases ts.len(),
{
    if ts.len() == 0 {
        Seq::empty()
    } else {
        concat_texts(ts.drop_last()) + ts.last().text@
    }
}

/// The `surface_form` fields of the records `outs`, concatenated in order.
pub open spec fn concat_surfaces(outs: Seq<KuromojiJSFormatToken>) -> Seq<char>
    decreases outs.len(),
{
    if outs.len() == 0 {
        Seq::empty()
    } else {
        concat_surfaces(outs.drop_last()) + outs.last().surface_form@
    }
}

/// Surface coverage: the concatenation of all `surface_form` values, in
/// order, equals the concatenation of the analyzer tokens' surface
/// substrings — the adapter reorders, drops and duplicates nothing. Whether
/// that concatenation is the whole original input is the analyzer's own
/// affair (it may, for one, leave whitespace out).
pub proof fn lemma_surface_coverage(ts: Seq<AnalyzerToken>, outs: Seq<KuromojiJSFormatToken>)
    requires
        maps_all(ts, outs),
    ensures
        concat_surfaces(outs) == concat_texts(ts),
    decreases ts.len(),
{
    if ts.len() == 0 {
        assert(concat_surfaces(outs) =~= concat_texts(ts));
    } else {
        assert(maps_all(ts.drop_last(), outs.drop_last())) by {
            assert forall|i: int| 0 <= i < ts.drop_last().len() implies maps_token(
                i as u32,
                ts.drop_last()[i],
                #[trigger] outs.drop_last()[i],
            ) by {
                assert(maps_token(i as u32, ts[i], outs[i]));
            }
        }
        lemma_surface_coverage(ts.drop_last(), outs.drop_last());
        assert(maps_token((ts.len() - 1) as u32, ts.last(), outs.last()));
        assert(concat_surfaces(outs) =~= concat_texts(ts));
    }
}

/// Unknown-field sentinel invariant: a record is typed `"UNKNOWN"` exactly
/// when its `pos` is the analyzer's `"UNK"` sentinel, and an `"UNKNOWN"`
/// record holds the fixed "not applicable" glyph in its eight remaining
/// linguistic fields.
pub proof fn lemma_unknown_sentinel(position: u32, t: AnalyzerToken, out: KuromojiJSFormatToken)
    requires
        maps_token(position, t, out),
    ensures
        (out.word_type@ == "UNKNOWN"@) <==> (out.pos@ == "UNK"@),
        out.word_type@ == "UNKNOWN"@ ==> out.pos_detail_1@ == sentinel_glyph()
            && out.pos_detail_2@ == sentinel_glyph() && out.pos_detail_3@ == sentinel_glyph()
            && out.conjugated_type@ == sentinel_glyph() && out.conjugated_form@ == sentinel_glyph()
            && out.basic_form@ == sentinel_glyph() && out.reading@ == sentinel_glyph()
            && out.pronunciation@ == sentinel_glyph(),
{
    reveal_strlit("KNOWN");
    reveal_strlit("UNKNOWN");
    assert("KNOWN"@.len() == 5);
    assert("UNKNOWN"@.len() == 7);
}

/// Known-field fidelity: a record typed `"KNOWN"` carries, position for
/// position, exactly the analyzer's reported attribute list, and the
/// token's surface substring.
pub proof fn lemma_known_fidelity(position: u32, t: AnalyzerToken, out: KuromojiJSFormatToken)
    requires
        maps_token(position, t, out),
        out.word_type@ == "KNOWN"@,
    ensures
        known_fields(t, out),
        out.surface_form@ == t.text@,
        out.word_position == position,
        out.word_id is None,
{
    reveal_strlit("KNOWN");
    reveal_strlit("UNKNOWN");
    assert("KNOWN"@.len() == 5);
    assert("UNKNOWN"@.len() == 7);
}

/// The two records agree in every observable field.
pub open spec fn record_obs_eq(a: KuromojiJSFormatToken, b: KuromojiJSFormatToken) -> bool {
    &&& a.word_id == b.word_id
    &&& a.word_type@ == b.word_type@
    &&& a.word_position == b.word_position
    &&& a.surface_form@ == b.surface_form@
    &&& a.pos@ == b.pos@
    &&& a.pos_detail_1@ == b.pos_detail_1@
    &&& a.pos_detail_2@ == b.pos_detail_2@
    &&& a.pos_detail_3@ == b.pos_detail_3@
    &&& a.conjugated_type@ == b.conjugated_type@
    &&& a.conjugated_form@ == b.conjugated_form@
    &&& a.basic_form@ == b.basic_form@
    &&& a.reading@ == b.reading@
    &&& a.pronunciation@ == b.pronunciation@
}

/// Idempotence under repetition: mapping one and the same analyzer output
/// twice yields structurally identical record sequences. With an unchanged
/// dictionary the analyzer reports the same tokens for the same text, so
/// repeated `tokenize` calls agree record for record.
pub proof fn lemma_repetition_identical(
    ts: Seq<AnalyzerToken>,
    outs1: Seq<KuromojiJSFormatToken>,
    outs2: Seq<KuromojiJSFormatToken>,
)
    requires
        maps_all(ts, outs1),
        maps_all(ts, outs2),
    ensures
        outs1.len() == outs2.len(),
        forall|i: int| 0 <= i < outs1.len() ==> record_obs_eq(#[trigger] outs1[i], outs2[i]),
{
    assert forall|i: int| 0 <= i < outs1.len() implies record_obs_eq(
        #[trigger] outs1[i],
        outs2[i],
    ) by {
        assert(maps_token(i as u32, ts[i], outs1[i]));
        assert(maps_token(i as u32, ts[i], outs2[i]));
    }
}

} // verus!
