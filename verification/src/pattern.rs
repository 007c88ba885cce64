//! Trusted boundary to the `regex` crate.
//!
//! Pattern matching against user-supplied regular expressions is delegated to
//! `regex`; the two spec names below stand for the results of its calls, and
//! every contract about pattern matching in this crate speaks through them.

use vstd::prelude::*;

verus! {

/// Whether `regex::Regex::new` accepts the pattern; depends on the pattern alone.
pub uninterp spec fn regex_ok(pattern: Seq<char>) -> bool;

/// Whether the compiled pattern matches somewhere in the text; depends on the
/// pattern and the text alone.
pub uninterp spec fn regex_matches(pattern: Seq<char>, text: Seq<char>) -> bool;

/// Relies on regex::Regex::new: compiling a pattern is deterministic, so its
/// success is a function of the pattern alone.
#[verifier::external_body]
pub(crate) fn regex_compiles(pattern: &str) -> (r: bool)
    ensures
        r == regex_ok(pattern@),
{
    regex::Regex::new(pattern).is_ok()
}

/// Relies on regex::Regex::new and regex::Regex::is_match: for a pattern that
/// compiles, whether the text contains a match is a function of the pattern and
/// the text alone.
#[verifier::external_body]
pub(crate) fn regex_is_match(pattern: &str, text: &str) -> (r: bool)
    requires
        regex_ok(pattern@),
    ensures
        r == regex_matches(pattern@, text@),
{
    regex::Regex::new(pattern).unwrap().is_match(text)
}

} // verus!
