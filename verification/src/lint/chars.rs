//! Character classes of the standard library that the linter reads.

use vstd::prelude::*;

verus! {

/// Whether `c` has the Unicode property `White_Space`: the controls from tab
/// to carriage return, the space, next line, the no-break space, the ogham
/// space mark, the spaces from en quad to hair space, the line and paragraph
/// separators, the narrow no-break space, the medium mathematical space and
/// the ideographic space.
pub open spec fn whitespace_char(c: char) -> bool {
    let code = c as u32;
    (0x09 <= code <= 0x0d) || code == 0x20 || code == 0x85 || code == 0xa0 || code == 0x1680 || (
    0x2000 <= code <= 0x200a) || code == 0x2028 || code == 0x2029 || code == 0x202f || code
        == 0x205f || code == 0x3000
}

/// Whether `char::is_numeric` holds of `c`: the character is in one of the
/// Unicode categories of numbers.
pub uninterp spec fn numeric_char(c: char) -> bool;

/// `char::is_whitespace` decides the Unicode property `White_Space`, which
/// holds of the twenty-five characters that [`whitespace_char`] lists.
pub assume_specification[ char::is_whitespace ](c: char) -> (r: bool)
    ensures
        r == whitespace_char(c),
;

/// `char::is_numeric` decides membership in the Unicode number categories.
pub assume_specification[ char::is_numeric ](c: char) -> (r: bool)
    ensures
        r == numeric_char(c),
;

} // verus!
