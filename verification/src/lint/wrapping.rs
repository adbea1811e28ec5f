//! Paragraph filling, as the `textwrap` crate does it.

use vstd::prelude::*;

verus! {

/// The text that `textwrap::fill` makes of `text` for lines of `width`
/// columns. Words are found at ASCII spaces if `ascii_spaces` is set and by
/// the Unicode line breaking rules otherwise; a word longer than a line is
/// broken only if `break_words` is set.
pub uninterp spec fn filled(text: Seq<char>, width: usize, break_words: bool, ascii_spaces: bool) -> Seq<
    char,
>;

/// Fills a text with `textwrap::fill`, under the options of
/// `Options::new(width)` with `break_words` and the word separator set as
/// asked. The crate computes the result from the text and the options alone;
/// nothing more is claimed of it.
#[verifier::external_body]
pub(crate) fn fill(text: &str, width: usize, break_words: bool, ascii_spaces: bool) -> (r: String)
    ensures
        r@ == filled(text@, width, break_words, ascii_spaces),
{
    let separator = if ascii_spaces {
        textwrap::WordSeparator::AsciiSpace
    } else {
        textwrap::WordSeparator::UnicodeBreakProperties
    };
    let options = textwrap::Options::new(width).break_words(break_words).word_separator(separator);
    textwrap::fill(text, &options)
}

} // verus!
