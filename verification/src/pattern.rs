//! Regular-expression matching, done by the `regex` crate.
use vstd::prelude::*;

verus! {

/// The text of capture group `index` in the leftmost match of `pattern` in `text`:
/// what `regex::Regex::new`, `Regex::captures`, `Captures::get` and `Match::as_str` give
/// in turn. `None` where the pattern does not compile, where it matches nowhere, and
/// where the group does not exist or took no part in the match. Group 0 is the whole match.
pub uninterp spec fn pattern_group(pattern: Seq<char>, text: Seq<char>, index: int) -> Option<
    Seq<char>,
>;

/// Compiles `pattern` with `regex::Regex::new`, searches `text` with `Regex::captures`
/// and copies the text of group `index` (`Captures::get`, `Match::as_str`).
/// The contract only gives the result its name.
#[verifier::external_body]
pub(crate) fn captured_group(pattern: &str, text: &str, index: usize) -> (r: Option<String>)
    ensures
        r.deep_view() == pattern_group(pattern@, text@, index as int),
{
    let compiled = match regex::Regex::new(pattern) {
        Ok(compiled) => compiled,
        Err(_) => return None,
    };
    match compiled.captures(text) {
        Some(groups) => match groups.get(index) {
            Some(found) => Some(found.as_str().to_string()),
            None => None,
        },
        None => None,
    }
}

} // verus!
