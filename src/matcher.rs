use fuzzy_matcher::skim::SkimMatcherV2;
use fuzzy_matcher::FuzzyMatcher;
use vstd::prelude::*;

verus! {

/// Whether skim's fuzzy matcher, in its default configuration, finds the
/// query in the name.
pub uninterp spec fn skim_match(name: Seq<char>, query: Seq<char>) -> bool;

/// Relies on `SkimMatcherV2::default()` and its `FuzzyMatcher::fuzzy_match`:
/// whether a match is found depends on the two strings alone, and an empty
/// query matches every name (the source returns `Some(0)` for it).
#[verifier::external_body]
pub(crate) fn fuzzy_matches(name: &str, query: &str) -> (r: bool)
    ensures
        r == skim_match(name@, query@),
        query@.len() == 0 ==> r,
{
    SkimMatcherV2::default().fuzzy_match(name, query).is_some()
}

} // verus!
