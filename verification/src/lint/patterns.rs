//! Regular expressions, as the `regex` crate compiles and matches them.

use vstd::prelude::*;

verus! {

/// A compiled regular expression of the `regex` crate.
#[verifier::external_type_specification]
#[verifier::external_body]
pub struct ExRegex(regex::Regex);

/// What `Regex::new` makes of a pattern: the compiled expression, or `None`
/// where the crate refuses the pattern.
pub uninterp spec fn compiled(pattern: Seq<char>) -> Option<regex::Regex>;

/// Whether a compiled expression matches anywhere in a text, as
/// `Regex::is_match` decides it.
pub uninterp spec fn matches_in(expression: regex::Regex, text: Seq<char>) -> bool;

/// Compiles a pattern with `Regex::new`. The crate documents that an invalid
/// pattern, and one whose program would exceed the default size limit, is
/// refused with an error; nothing is claimed about which patterns those are.
#[verifier::external_body]
pub(crate) fn compile(pattern: &str) -> (r: Option<regex::Regex>)
    ensures
        r == compiled(pattern@),
{
    match regex::Regex::new(pattern) {
        Ok(expression) => Some(expression),
        Err(_) => None,
    }
}

/// Tests a text with `Regex::is_match`, which the crate documents as true if
/// and only if the expression matches somewhere in the text.
#[verifier::external_body]
pub(crate) fn is_match(expression: &regex::Regex, text: &str) -> (r: bool)
    ensures
        r == matches_in(*expression, text@),
{
    expression.is_match(text)
}

} // verus!
