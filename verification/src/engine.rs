//! The trusted boundary around the external regular-expression engine.
//!
//! Everything the router and pattern compiler know about compiled matchers
//! is stated here, over two uninterpreted names: `regex_accepts`, whether the
//! pattern compiled from a source string matches a haystack, and
//! `regex_captures_of`, the capture groups such a match produces. Both are
//! functions of the pattern source and the haystack alone. The rest of the
//! library is verified against these contracts.

use vstd::prelude::*;

use crate::errors::PatternError;

verus! {

#[verifier::external_type_specification]
#[verifier::external_body]
pub struct ExRegex(regex::Regex);

#[verifier::external_type_specification]
#[verifier::external_body]
pub struct ExRegexSet(regex::RegexSet);

/// The pattern source a compiled regex was built from (what `as_str` shows).
pub uninterp spec fn regex_source(re: regex::Regex) -> Seq<char>;

/// The pattern sources a regex set was built from, in registration order.
pub uninterp spec fn regex_set_sources(set: regex::RegexSet) -> Seq<Seq<char>>;

/// Whether the regex compiled from `source` matches anywhere in `haystack`.
pub uninterp spec fn regex_accepts(source: Seq<char>, haystack: Seq<char>) -> bool;

/// The capture groups the regex compiled from `source` yields on the first
/// match in `haystack`: one entry per group, group 0 first, `None` for a
/// group that did not participate in the match.
pub uninterp spec fn regex_captures_of(source: Seq<char>, haystack: Seq<char>) -> Seq<
    Option<Seq<char>>,
>;

/// The names of the capture groups of the regex compiled from `source`, in
/// order of their opening parenthesis; `None` for an unnamed group.
pub uninterp spec fn regex_group_names(source: Seq<char>) -> Seq<Option<Seq<char>>>;

/// Whether `source` compiles as a single regex: a function of the source
/// alone, since the engine's syntax and its default size limit are fixed.
pub uninterp spec fn regex_compiles(source: Seq<char>) -> bool;

/// Whether the given pattern sources compile together as one set: likewise
/// a function of the sources alone.
pub uninterp spec fn regex_set_compiles(sources: Seq<Seq<char>>) -> bool;

/// Relies on `regex::Regex::new`: compiles `source`, succeeding exactly
/// when the fixed default configuration accepts it (named `regex_compiles`);
/// on success `as_str` returns exactly the source handed in, so the compiled
/// value is pinned to `regex_source`. The error enum is translated variant
/// by variant.
#[verifier::external_body]
pub(crate) fn regex_new(source: &str) -> (r: Result<regex::Regex, PatternError>)
    ensures
        r matches Ok(re) ==> regex_source(re) == source@,
        r is Ok <==> regex_compiles(source@),
{
    match regex::Regex::new(source) {
        Ok(re) => Ok(re),
        Err(regex::Error::Syntax(s)) => Err(PatternError::Syntax(s)),
        Err(regex::Error::CompiledTooBig(n)) => Err(PatternError::TooBig(n)),
        Err(_) => Err(PatternError::Unknown),
    }
}

/// Relies on `regex::Regex::as_str`: returns the pattern source the regex
/// was compiled from.
#[verifier::external_body]
pub(crate) fn regex_as_str(re: &regex::Regex) -> (r: &str)
    ensures
        r@ == regex_source(*re),
{
    re.as_str()
}

/// Relies on `regex::Regex::is_match`: true iff the regex matches anywhere
/// in the haystack; deterministic in the pattern source and the haystack.
#[verifier::external_body]
pub(crate) fn regex_is_match(re: &regex::Regex, haystack: &str) -> (r: bool)
    ensures
        r == regex_accepts(regex_source(*re), haystack@),
{
    re.is_match(haystack)
}

/// Relies on `regex::Regex::captures`: returns a group table iff the regex
/// matches; the table has one entry per capture group of the pattern
/// (`Captures::iter` yields every group, participating or not, in order).
#[verifier::external_body]
pub(crate) fn regex_captures(re: &regex::Regex, haystack: &str) -> (r: Option<
    Vec<Option<String>>,
>)
    ensures
        match r {
            Some(groups) => regex_accepts(regex_source(*re), haystack@)
                && groups.deep_view() == regex_captures_of(regex_source(*re), haystack@)
                && groups@.len() == regex_group_names(regex_source(*re)).len()
                && groups@.len() >= 1,
            None => !regex_accepts(regex_source(*re), haystack@),
        },
{
    re.captures(haystack).map(
        |caps| caps.iter().map(|m| m.map(|found| found.as_str().to_owned())).collect(),
    )
}

/// Relies on `regex::Regex::capture_names`: yields the name of every capture
/// group in order of opening parenthesis; the first entry is the implicit
/// whole-match group and is always unnamed.
#[verifier::external_body]
pub(crate) fn regex_capture_names(re: &regex::Regex) -> (r: Vec<Option<String>>)
    ensures
        r.deep_view() == regex_group_names(regex_source(*re)),
        r@.len() >= 1,
        r@[0] is None,
{
    re.capture_names().map(|n| n.map(|s| s.to_owned())).collect()
}

/// Relies on `regex::RegexSet::new`: builds a set over the given pattern
/// sources, kept in registration order, succeeding exactly when the fixed
/// default configuration accepts them together (named `regex_set_compiles`).
/// The error enum is translated variant by variant.
#[verifier::external_body]
pub(crate) fn regex_set_new(sources: &Vec<String>) -> (r: Result<regex::RegexSet, PatternError>)
    ensures
        r matches Ok(set) ==> regex_set_sources(set) == sources.deep_view(),
        r is Ok <==> regex_set_compiles(sources.deep_view()),
{
    match regex::RegexSet::new(sources) {
        Ok(set) => Ok(set),
        Err(regex::Error::Syntax(s)) => Err(PatternError::Syntax(s)),
        Err(regex::Error::CompiledTooBig(n)) => Err(PatternError::TooBig(n)),
        Err(_) => Err(PatternError::Unknown),
    }
}

/// Relies on `regex::RegexSet::matches`: reports exactly the indices of the
/// patterns that match the haystack, and its iterator yields them in
/// ascending order, so `next()` is the lowest matching index.
#[verifier::external_body]
pub(crate) fn regex_set_first_match(set: &regex::RegexSet, haystack: &str) -> (r: Option<usize>)
    ensures
        match r {
            Some(i) => i < regex_set_sources(*set).len() && regex_accepts(
                regex_set_sources(*set)[i as int],
                haystack@,
            ) && (forall|j: int|
                0 <= j < i ==> !regex_accepts(regex_set_sources(*set)[j], haystack@)),
            None => forall|j: int|
                0 <= j < regex_set_sources(*set).len() ==> !regex_accepts(
                    regex_set_sources(*set)[j],
                    haystack@,
                ),
        },
{
    set.matches(haystack).into_iter().next()
}

} // verus!
