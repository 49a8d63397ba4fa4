//! Display widths of characters and strings, as the `unicode-width` crate
//! measures them.
use unicode_width::UnicodeWidthChar;
use unicode_width::UnicodeWidthStr;
use vstd::prelude::*;

verus! {

/// The column width that `UnicodeWidthChar::width` gives a character
/// (`None` for control characters).
pub uninterp spec fn char_width_of(c: char) -> Option<usize>;

/// The column width that `UnicodeWidthStr::width` gives a string.
pub uninterp spec fn str_width_of(s: Seq<char>) -> usize;

/// The width of a character with control characters counted as zero, as
/// `c.width().unwrap_or(0)` computes it.
pub open spec fn cell_width(c: char) -> nat {
    match char_width_of(c) {
        Some(w) => w as nat,
        None => 0,
    }
}

/// `UnicodeWidthChar::width`: the result is a function of the character
/// alone. As the crate's source shows, characters below U+0020 and from
/// U+007F up to U+00A0 are control characters (`None`), the printable ASCII
/// range U+0020..U+007F has width 1, and every character from U+00A0 on has
/// a width taken from the crate's tables; those table values are not stated.
#[verifier::external_body]
pub fn char_width(c: char) -> (w: Option<usize>)
    ensures
        w == char_width_of(c),
        (c as u32) < 0x20 ==> w is None,
        0x20 <= (c as u32) < 0x7f ==> w == Some(1usize),
        0x7f <= (c as u32) < 0xa0 ==> w is None,
        (c as u32) >= 0xa0 ==> w is Some,
{
    UnicodeWidthChar::width(c)
}

/// `UnicodeWidthStr::width`: the result is a function of the string's
/// characters alone, and the empty string has width 0. As the crate's
/// source shows, every character up to U+00A0 adds one column (a carriage
/// return directly before a line feed adds none), so a string of such
/// characters without carriage returns is as wide as it is long. How other
/// characters, ligatures and emoji sequences are measured is left to the
/// crate's tables and unstated.
#[verifier::external_body]
pub fn str_width(s: &str) -> (w: usize)
    ensures
        w == str_width_of(s@),
        s@.len() == 0 ==> w == 0,
        (forall|i: int| 0 <= i < s@.len() ==> (s@[i] as u32) <= 0xa0 && s@[i] != '\r') ==> w
            == s@.len(),
{
    UnicodeWidthStr::width(s)
}

} // verus!
