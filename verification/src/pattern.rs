//! Regular expressions, by the `regex` crate.

use vstd::prelude::*;

verus! {

/// What a search with a regular expression comes to: whether the pattern
/// matches anywhere in the text, or nothing where the pattern is refused. It
/// stands for what `regex::Regex::new` and `regex::Regex::is_match` return.
pub uninterp spec fn regex_search(pattern: Seq<char>, haystack: Seq<char>) -> Option<bool>;

/// Compiles the pattern with `regex::Regex::new` and asks `Regex::is_match`
/// whether it matches anywhere in the text. A pattern that `Regex::new`
/// refuses gives `None`. The contract names the outcome after the pattern and
/// the text: both calls read nothing else.
#[verifier::external_body]
pub(crate) fn search(pattern: &str, haystack: &str) -> (found: Option<bool>)
    ensures
        found == regex_search(pattern@, haystack@),
{
    match regex::Regex::new(pattern) {
        Ok(compiled) => Some(compiled.is_match(haystack)),
        Err(_) => None,
    }
}

} // verus!
