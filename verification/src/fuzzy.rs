//! Calls into `fuzzy_matcher`'s skim matcher (V2, default settings).
//!
//! The matcher's scoring is a dynamic program over both strings that this
//! library does not restate: its results are named here, as functions of
//! the two strings.

use fuzzy_matcher::skim::SkimMatcherV2;
use fuzzy_matcher::FuzzyMatcher;
use vstd::prelude::*;

verus! {

/// A successful match: its score and the matched character positions.
pub struct SkimHit {
    pub score: i64,
    pub indices: Vec<usize>,
}

/// Score and matched character positions that
/// `SkimMatcherV2::default().fuzzy_indices(choice, pattern)` returns.
pub uninterp spec fn skim_indices(choice: Seq<char>, pattern: Seq<char>) -> Option<(i64, Seq<usize>)>;

/// Score that `SkimMatcherV2::default().fuzzy_match(choice, pattern)` returns.
pub uninterp spec fn skim_score(choice: Seq<char>, pattern: Seq<char>) -> Option<i64>;

/// Calls `FuzzyMatcher::fuzzy_indices` on a default `SkimMatcherV2`.
/// The result is named [`skim_indices`] of the two strings; the source
/// returns `Some((0, []))` for an empty pattern before any matching.
#[verifier::external_body]
pub fn skim_fuzzy_indices(choice: &str, pattern: &str) -> (r: Option<SkimHit>)
    ensures
        r is None <==> skim_indices(choice@, pattern@) is None,
        r matches Some(h) ==> skim_indices(choice@, pattern@) == Some((h.score, h.indices@)),
        pattern@.len() == 0 ==> r is Some && r.unwrap().score == 0 && r.unwrap().indices@.len() == 0,
{
    SkimMatcherV2::default().fuzzy_indices(choice, pattern).map(|(score, indices)| SkimHit { score, indices })
}

/// Calls `FuzzyMatcher::fuzzy_match` on a default `SkimMatcherV2`.
/// The result is named [`skim_score`] of the two strings; the source returns
/// `Some(0)` for an empty pattern before any matching.
#[verifier::external_body]
pub fn skim_fuzzy_match(choice: &str, pattern: &str) -> (r: Option<i64>)
    ensures
        r == skim_score(choice@, pattern@),
        pattern@.len() == 0 ==> r == Some(0i64),
{
    SkimMatcherV2::default().fuzzy_match(choice, pattern)
}

} // verus!
