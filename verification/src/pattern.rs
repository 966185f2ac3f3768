//! Searching a text for a regular expression, as the `regex` crate does it.
//! Nothing here is verified: what a search finds is given a name, and the
//! callers are proved for whatever that is.

use vstd::prelude::*;

verus! {

/// The error with which `regex` refuses a pattern.
#[verifier::external_type_specification]
#[verifier::external_body]
pub struct ExRegexError(regex::Error);

/// The text of the first match of `pattern` in `haystack`: the leftmost
/// match, as `regex::Regex::find` finds it. Nothing where there is no match.
pub uninterp spec fn first_match(pattern: Seq<char>, haystack: Seq<char>) -> Option<Seq<char>>;

/// The text of group `group` in the first match of `pattern` in `haystack`,
/// as `regex::Regex::captures` and `Captures::get` give it. Nothing where
/// there is no match or the group took no part in it.
pub uninterp spec fn first_capture(pattern: Seq<char>, haystack: Seq<char>, group: nat) -> Option<
    Seq<char>,
>;

/// The model of an optional text.
pub open spec fn text_option(found: Option<String>) -> Option<Seq<char>> {
    match found {
        Some(text) => Some(text@),
        None => None,
    }
}

/// Compiles `pattern` with `regex::Regex::new` and searches `haystack` with
/// `Regex::find`. Where the pattern compiles, the answer is the text of the
/// first match; whether it compiles is left open.
#[verifier::external_body]
pub(crate) fn find_first(pattern: &str, haystack: &str) -> (found: Result<Option<String>, regex::Error>)
    ensures
        found matches Ok(text) ==> text_option(text) == first_match(pattern@, haystack@),
{
    let compiled = regex::Regex::new(pattern)?;
    Ok(compiled.find(haystack).map(|m| m.as_str().to_string()))
}

/// Compiles `pattern` with `regex::Regex::new`, searches `haystack` with
/// `Regex::captures` and takes group `group` of the match with
/// `Captures::get`. Where the pattern compiles, the answer is the text of
/// that group; whether it compiles is left open.
#[verifier::external_body]
pub(crate) fn capture_first(pattern: &str, haystack: &str, group: usize) -> (found: Result<
    Option<String>,
    regex::Error,
>)
    ensures
        found matches Ok(text) ==> text_option(text) == first_capture(
            pattern@,
            haystack@,
            group as nat,
        ),
{
    let compiled = regex::Regex::new(pattern)?;
    Ok(compiled.captures(haystack).and_then(|c| c.get(group)).map(|m| m.as_str().to_string()))
}

/// The words in which `regex` describes an error (its `Display`).
#[verifier::external_body]
pub(crate) fn describe_error(error: &regex::Error) -> (words: String) {
    error.to_string()
}

} // verus!
