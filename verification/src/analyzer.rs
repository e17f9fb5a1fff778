//! Boundary to the external morphological analyzer (lindera): the handle
//! that owns one analyzer instance, and the trusted calls into it.
//!
//! The analyzer is a collaborator, not part of this library: it segments
//! text and assigns linguistic attributes. Everything this module promises
//! of it is stated on the trusted items below and believed, not proved.
use vstd::prelude::*;

use crate::TokenizeError;
use crate::token::AnalyzerToken;

verus! {

#[verifier::external_type_specification]
#[verifier::external_body]
pub struct ExDictionary(lindera::dictionary::Dictionary);

#[verifier::external_type_specification]
#[verifier::external_body]
pub struct ExSegmenter(lindera::segmenter::Segmenter);

#[verifier::external_type_specification]
#[verifier::external_body]
pub struct ExLinderaError(lindera::error::LinderaError);

/// Owns one live instance of the external analyzer. A process is meant to
/// hold a single one behind a mutual-exclusion lock and hand out exclusive,
/// scoped access to it; the lock and the process-wide slot live with the
/// host, this type carries the instance itself.
pub struct AnalyzerHandle {
    segmenter: lindera::segmenter::Segmenter,
}

/// Relies on lindera's `load_dictionary`: reads morphological dictionary
/// data from `uri` (an `embedded://` kind or a filesystem location) and
/// returns it, or an error when the data is unavailable or corrupt. The
/// result depends on what is stored at that location, so nothing is
/// promised of it.
#[verifier::external_body]
fn load_dictionary_at(uri: &str) -> (r: Result<
    lindera::dictionary::Dictionary,
    lindera::error::LinderaError,
>) {
    lindera::dictionary::load_dictionary(uri)
}

/// Relies on lindera's `Segmenter::new`: builds a segmenter over the given
/// dictionary in normal mode, with no user dictionary. It has no failing
/// path.
#[verifier::external_body]
fn build_segmenter(dictionary: lindera::dictionary::Dictionary) -> (r:
    lindera::segmenter::Segmenter) {
    lindera::segmenter::Segmenter::new(lindera::mode::Mode::Normal, dictionary, None)
}

/// Relies on lindera's `Segmenter::segment` and `Token::details_iter`:
/// segments the text into tokens in reading order and reads off each
/// token's surface
/// substring and attribute list. In the version relied on, `segment` has no
/// failing path; every token spans at least one character of the text and
/// tokens take disjoint ranges, so at most one token comes back per
/// character, and an empty text yields none. Which tokens come back depends
/// on the dictionary the handle was built over, so nothing more is promised
/// of them.
#[verifier::external_body]
pub(crate) fn segment_text(handle: &AnalyzerHandle, text: &str) -> (r: Result<
    Vec<AnalyzerToken>,
    lindera::error::LinderaError,
>)
    ensures
        r is Ok,
        r->Ok_0@.len() <= text@.len(),
        text@.len() == 0 ==> r->Ok_0@.len() == 0,
{
    let tokens = handle.segmenter.segment(std::borrow::Cow::Borrowed(text))?;
    let mut out: Vec<AnalyzerToken> = Vec::new();
    for mut token in tokens {
        let detail: Vec<String> = token.details_iter().map(|d| d.to_string()).collect();
        out.push(AnalyzerToken { text: token.surface.to_string(), detail });
    }
    Ok(out)
}

impl AnalyzerHandle {
    /// Construct the analyzer instance over the dictionary stored at
    /// `dictionary_uri`. Construction fails, with `Initialization`, only
    /// when the dictionary data cannot be loaded; that is fatal, since no
    /// tokenization is possible without the instance.
    pub fn new(dictionary_uri: &str) -> (r: Result<AnalyzerHandle, TokenizeError>)
        ensures
            r is Err ==> r->Err_0 is Initialization,
    {
        match load_dictionary_at(dictionary_uri) {
            Ok(dictionary) => Ok(AnalyzerHandle { segmenter: build_segmenter(dictionary) }),
            Err(_) => Err(TokenizeError::Initialization),
        }
    }
}

} // verus!
