//! Matching text against what the user typed.
use crate::text::{lower_case, to_lower_case};
use fuzzy_matcher::skim::SkimMatcherV2;
use fuzzy_matcher::FuzzyMatcher;
use regex::RegexBuilder;
use vstd::prelude::*;

verus! {

/// How a search query is read.
#[derive(Clone, Copy, Debug, PartialEq, Eq, Structural)]
pub enum SearchMode {
    Fuzzy,
    Regex,
}

pub open spec fn other_mode(mode: SearchMode) -> SearchMode {
    match mode {
        SearchMode::Fuzzy => SearchMode::Regex,
        SearchMode::Regex => SearchMode::Fuzzy,
    }
}

/// The other way to read a query.
pub fn toggle_search_mode(mode: SearchMode) -> (other: SearchMode)
    ensures
        other == other_mode(mode),
{
    match mode {
        SearchMode::Fuzzy => SearchMode::Regex,
        SearchMode::Regex => SearchMode::Fuzzy,
    }
}

/// Toggling the mode twice changes nothing.
pub proof fn toggling_mode_twice_is_nothing(mode: SearchMode)
    ensures
        other_mode(other_mode(mode)) == mode,
{
}

/// Whether the fuzzy matcher finds `pattern` in `text`.
pub uninterp spec fn fuzzy_finds(text: Seq<char>, pattern: Seq<char>) -> bool;

/// Whether `pattern` is a regular expression that, with letter case ignored,
/// matches somewhere in `text`.
pub uninterp spec fn regex_finds(pattern: Seq<char>, text: Seq<char>) -> bool;

/// `SkimMatcherV2::fuzzy_match` of `fuzzy_matcher`, in its default setting:
/// whether it gives the text a score. A function of the two texts alone.
#[verifier::external_body]
pub(crate) fn fuzzy_match(text: &str, pattern: &str) -> (found: bool)
    ensures
        found == fuzzy_finds(text@, pattern@),
{
    SkimMatcherV2::default().fuzzy_match(text, pattern).is_some()
}

/// `RegexBuilder::build` of `regex` with `case_insensitive`, followed by
/// `Regex::is_match`; a pattern that does not compile matches nothing. A function
/// of the two texts alone.
#[verifier::external_body]
pub(crate) fn regex_match(pattern: &str, text: &str) -> (found: bool)
    ensures
        found == regex_finds(pattern@, text@),
{
    RegexBuilder::new(pattern).case_insensitive(true).build().ok().is_some_and(
        |regex| regex.is_match(text),
    )
}

/// Whether the fuzzy matcher finds `pattern` in `text` with letter case ignored.
pub uninterp spec fn fuzzy_finds_any_case(text: Seq<char>, pattern: Seq<char>) -> bool;

/// `SkimMatcherV2::fuzzy_match` of `fuzzy_matcher` with `ignore_case`: whether it
/// gives the text a score. A function of the two texts alone.
#[verifier::external_body]
pub(crate) fn fuzzy_match_any_case(text: &str, pattern: &str) -> (found: bool)
    ensures
        found == fuzzy_finds_any_case(text@, pattern@),
{
    SkimMatcherV2::default().ignore_case().fuzzy_match(text, pattern).is_some()
}

/// Whether a pattern is a regular expression.
pub uninterp spec fn is_regex(pattern: Seq<char>) -> bool;

/// `RegexBuilder::build` of `regex` with `case_insensitive`: whether the pattern
/// compiles. A function of the pattern alone.
#[verifier::external_body]
pub(crate) fn regex_compiles(pattern: &str) -> (compiles: bool)
    ensures
        compiles == is_regex(pattern@),
{
    RegexBuilder::new(pattern).case_insensitive(true).build().is_ok()
}

/// Whether a text is on view for a query: an empty query hides nothing, a fuzzy
/// one is compared in lower case, and a regular expression ignores case.
pub open spec fn query_matches(text: Seq<char>, query: Seq<char>, mode: SearchMode) -> bool {
    query.len() == 0 || query_finds(
        mode,
        fuzzy_finds(lower_case(text), lower_case(query)),
        regex_finds(query, text),
    )
}

/// Which of the two matchers' answers counts in a mode.
pub open spec fn query_finds(mode: SearchMode, fuzzy: bool, regex: bool) -> bool {
    match mode {
        SearchMode::Fuzzy => fuzzy,
        SearchMode::Regex => regex,
    }
}

/// Whether a text is on view for a query.
pub fn matches_query(text: &str, query: &str, mode: SearchMode) -> (found: bool)
    ensures
        found == query_matches(text@, query@, mode),
{
    if query.is_empty() {
        return true;
    }
    match mode {
        SearchMode::Fuzzy => {
            let text = to_lower_case(text);
            let query = to_lower_case(query);
            fuzzy_match(text.as_str(), query.as_str())
        },
        SearchMode::Regex => regex_match(query, text),
    }
}

} // verus!
