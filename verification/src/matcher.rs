//! Regular expressions, as the `regex` crate compiles and matches them.
//!
//! Nothing here is proved: each contract states what the crate documents.

use vstd::prelude::*;

verus! {

#[verifier::external_type_specification]
#[verifier::external_body]
pub struct ExRegex(regex::Regex);

#[verifier::external_type_specification]
#[verifier::external_body]
pub struct ExRegexError(regex::Error);

/// The string that a regular expression was compiled from, which is what
/// `regex::Regex::as_str` returns.
pub uninterp spec fn regex_source(re: regex::Regex) -> Seq<char>;

/// Whether a regular expression matches somewhere in a text, which is what
/// `regex::Regex::is_match` returns.
pub uninterp spec fn regex_accepts(re: regex::Regex, text: Seq<char>) -> bool;

/// What the capture group called `group` holds in the first match of a
/// regular expression in a text: the result of `regex::Regex::captures`
/// followed by `regex::Captures::name`, and `None` where either is.
pub uninterp spec fn regex_group(re: regex::Regex, text: Seq<char>, group: Seq<char>) -> Option<
    Seq<char>,
>;

/// Whether a pattern is one that `regex::Regex::new` compiles: a valid
/// pattern whose regular expression stays within the crate's size limit.
pub uninterp spec fn regex_compiles(pattern: Seq<char>) -> bool;

/// Calls `regex::Regex::new`. A regular expression that comes back keeps the
/// pattern as its source; an invalid or oversized pattern gives an error.
#[verifier::external_body]
pub(crate) fn regex_new(pattern: &str) -> (r: Result<regex::Regex, regex::Error>)
    ensures
        r is Ok == regex_compiles(pattern@),
        r matches Ok(re) ==> regex_source(re) == pattern@,
{
    regex::Regex::new(pattern)
}

/// Calls `regex::Regex::is_match`: whether the expression matches anywhere
/// in the text.
#[verifier::external_body]
pub(crate) fn regex_is_match(re: &regex::Regex, text: &str) -> (b: bool)
    ensures
        b == regex_accepts(*re, text@),
{
    re.is_match(text)
}

/// Calls `regex::Regex::captures` and then `regex::Captures::name`: the text
/// of the named group in the first match, if there is a match in which the
/// group takes part.
#[verifier::external_body]
pub(crate) fn regex_capture(re: &regex::Regex, text: &str, group: &str) -> (r: Option<String>)
    ensures
        match regex_group(*re, text@, group@) {
            Some(s) => r is Some && r->Some_0@ == s,
            None => r is None,
        },
{
    match re.captures(text) {
        Some(captures) => match captures.name(group) {
            Some(m) => Some(m.as_str().to_string()),
            None => None,
        },
        None => None,
    }
}

} // verus!
