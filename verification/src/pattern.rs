//! Regular expressions, as the `regex` crate matches them.
//!
//! What a pattern matches is not written out here. The two results that the
//! crate uses have names, and contracts elsewhere speak of those names.

use vstd::prelude::*;

verus! {

/// Whether `pattern` matches somewhere in `haystack`, as `Regex::is_match`
/// says for the expression compiled from `pattern`; `None` where `pattern`
/// does not compile.
pub uninterp spec fn regex_is_match(pattern: Seq<char>, haystack: Seq<char>) -> Option<bool>;

/// The text that the group named `group` matched in the leftmost match of
/// `pattern` in `haystack`, as `Regex::captures` finds it; `None` where
/// `pattern` does not compile, where nothing matches, and where the pattern
/// has no such group or the group took no part in the match.
pub uninterp spec fn regex_capture(
    pattern: Seq<char>,
    group: Seq<char>,
    haystack: Seq<char>,
) -> Option<Seq<char>>;

/// Trusted: compiling `pattern` with `Regex::new` and asking `Regex::is_match`
/// about `haystack` depends on the two texts alone; the answer is what
/// [`regex_is_match`] names.
#[verifier::external_body]
pub(crate) fn is_match(pattern: &str, haystack: &str) -> (r: Option<bool>)
    ensures
        r == regex_is_match(pattern@, haystack@),
{
    match regex::Regex::new(pattern) {
        Ok(re) => Some(re.is_match(haystack)),
        Err(_) => None,
    }
}

/// Trusted: compiling `pattern` with `Regex::new`, searching `haystack` with
/// `Regex::captures` and reading the group with `Captures::name` depends on
/// the three texts alone; the group's text is what [`regex_capture`] names.
#[verifier::external_body]
pub(crate) fn capture(pattern: &str, group: &str, haystack: &str) -> (r: Option<String>)
    ensures
        match r {
            Some(text) => regex_capture(pattern@, group@, haystack@) == Some(text@),
            None => regex_capture(pattern@, group@, haystack@) is None,
        },
{
    let re = match regex::Regex::new(pattern) {
        Ok(re) => re,
        Err(_) => return None,
    };
    let found = match re.captures(haystack) {
        Some(found) => found,
        None => return None,
    };
    match found.name(group) {
        Some(m) => Some(m.as_str().to_string()),
        None => None,
    }
}

} // verus!
