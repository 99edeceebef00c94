//! Regular-expression searches, delegated to the `regex` crate.
//!
//! Every search names its pattern by source text and compiles it on the spot,
//! so that a verdict is a function of the pattern's text and the haystack alone.

use regex::Regex;
use vstd::prelude::*;

verus! {

/// What `Regex::is_match` answers on `haystack` for the regex that `Regex::new`
/// compiles from `pattern`; `None` when `pattern` does not compile.
pub uninterp spec fn regex_is_match(pattern: Seq<char>, haystack: Seq<char>) -> Option<bool>;

/// The capture groups that `Regex::captures` reports for the leftmost match of
/// `pattern` in `haystack`, group 0 first, each with the text it matched or
/// `None` where it took no part; `None` when nothing matches or `pattern` does
/// not compile.
pub uninterp spec fn regex_captures(pattern: Seq<char>, haystack: Seq<char>) -> Option<
    Seq<Option<Seq<char>>>,
>;

/// The text that `Regex::replace_all` makes of `haystack` by putting
/// `replacement` in the place of every match of `pattern`, with `$name`
/// references in `replacement` expanded; `None` when `pattern` does not compile.
pub uninterp spec fn regex_replace_all(
    pattern: Seq<char>,
    haystack: Seq<char>,
    replacement: Seq<char>,
) -> Option<Seq<char>>;

/// `haystack` with every match of `pattern` replaced; a pattern that does not
/// compile replaces nothing.
pub open spec fn replaced(pattern: Seq<char>, haystack: Seq<char>, replacement: Seq<char>) -> Seq<
    char,
> {
    match regex_replace_all(pattern, haystack, replacement) {
        Some(text) => text,
        None => haystack,
    }
}

/// `pattern` compiles and matches somewhere in `haystack`.
pub open spec fn has_match(pattern: Seq<char>, haystack: Seq<char>) -> bool {
    regex_is_match(pattern, haystack) == Some(true)
}

/// Compiles `pattern` with `Regex::new` and asks `Regex::is_match` whether it
/// matches anywhere in `haystack`. Neither call panics; a pattern that does not
/// compile gives `None`. The answer is named, not described.
#[verifier::external_body]
pub(crate) fn is_match(pattern: &str, haystack: &str) -> (r: Option<bool>)
    ensures
        r == regex_is_match(pattern@, haystack@),
{
    match Regex::new(pattern) {
        Ok(re) => Some(re.is_match(haystack)),
        Err(_) => None,
    }
}

/// Compiles `pattern` with `Regex::new` and hands out what `Regex::captures`
/// finds in `haystack`, each group copied into a `String`. The groups are named,
/// not described.
#[verifier::external_body]
pub(crate) fn captures(pattern: &str, haystack: &str) -> (r: Option<Vec<Option<String>>>)
    ensures
        r.deep_view() == regex_captures(pattern@, haystack@),
{
    match Regex::new(pattern) {
        Ok(re) => match re.captures(haystack) {
            Some(found) => Some(found.iter().map(|g| g.map(|m| m.as_str().to_string())).collect()),
            None => None,
        },
        Err(_) => None,
    }
}

/// Compiles `pattern` with `Regex::new` and has `Regex::replace_all` put
/// `replacement` in the place of every match in `haystack`. The text is named,
/// not described.
#[verifier::external_body]
pub(crate) fn replace_all(pattern: &str, haystack: &str, replacement: &str) -> (r: Option<String>)
    ensures
        r.deep_view() == regex_replace_all(pattern@, haystack@, replacement@),
{
    match Regex::new(pattern) {
        Ok(re) => Some(re.replace_all(haystack, replacement).into_owned()),
        Err(_) => None,
    }
}

/// `haystack` with every match of `pattern` replaced by `replacement`.
pub fn replace(pattern: &str, haystack: &str, replacement: &str) -> (r: String)
    ensures
        r@ == replaced(pattern@, haystack@, replacement@),
{
    match replace_all(pattern, haystack, replacement) {
        Some(text) => text,
        None => haystack.to_owned(),
    }
}

/// Whether `pattern` matches somewhere in `haystack`.
pub fn found_in(pattern: &str, haystack: &str) -> (r: bool)
    ensures
        r == has_match(pattern@, haystack@),
{
    match is_match(pattern, haystack) {
        Some(verdict) => verdict,
        None => false,
    }
}

} // verus!
