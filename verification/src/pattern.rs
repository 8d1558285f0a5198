//! Searching a text for a regular expression.

use vstd::prelude::*;

verus! {

/// What the `regex` crate finds when it searches `text` for `pattern`: `None` where it
/// refuses to compile the pattern, else whether some part of the text matches it.
pub uninterp spec fn search_result(pattern: Seq<char>, text: Seq<char>) -> Option<bool>;

/// Whether `pattern` is a regular expression that occurs in `text`.
pub open spec fn found(pattern: Seq<char>, text: Seq<char>) -> bool {
    search_result(pattern, text) == Some(true)
}

/// `regex::Regex::new`, then `regex::Regex::is_match`. Trusted: the outcome is the one
/// named by [`search_result`]; neither call panics.
#[verifier::external_body]
fn search(pattern: &str, text: &str) -> (r: Option<bool>)
    ensures
        r == search_result(pattern@, text@),
{
    match regex::Regex::new(pattern) {
        Ok(re) => Some(re.is_match(text)),
        Err(_) => None,
    }
}

/// Whether `pattern` compiles and occurs somewhere in `text`.
pub fn is_match(pattern: &str, text: &str) -> (r: bool)
    ensures
        r == found(pattern@, text@),
{
    match search(pattern, text) {
        Some(hit) => hit,
        None => false,
    }
}

} // verus!
