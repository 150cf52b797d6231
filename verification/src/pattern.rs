//! The note filename convention: `MM-DD-YY.md`.
//!
//! A name is accepted exactly when it is two digits, a hyphen, two digits, a
//! hyphen, two digits, and the literal suffix `.md`.  The digits are not
//! validated as a calendar date: any two-digit triples are accepted.

use vstd::prelude::*;

verus! {

/// A decimal digit.
pub open spec fn spec_is_digit(c: char) -> bool {
    '0' <= c && c <= '9'
}

/// The filename convention `MM-DD-YY.md`: exactly eleven characters, digits
/// at positions 0, 1, 3, 4, 6 and 7, hyphens at 2 and 5, and `.md` at the
/// end.
pub open spec fn spec_is_note_filename(s: Seq<char>) -> bool {
    &&& s.len() == 11
    &&& spec_is_digit(s[0])
    &&& spec_is_digit(s[1])
    &&& s[2] == '-'
    &&& spec_is_digit(s[3])
    &&& spec_is_digit(s[4])
    &&& s[5] == '-'
    &&& spec_is_digit(s[6])
    &&& spec_is_digit(s[7])
    &&& s[8] == '.'
    &&& s[9] == 'm'
    &&& s[10] == 'd'
}

fn is_digit(c: char) -> (r: bool)
    ensures
        r == spec_is_digit(c),
{
    '0' <= c && c <= '9'
}

/// Decides whether `name` follows the note filename convention.
pub fn is_note_filename(name: &str) -> (r: bool)
    ensures
        r == spec_is_note_filename(name@),
{
    if name.unicode_len() != 11 {
        return false;
    }
    is_digit(name.get_char(0)) && is_digit(name.get_char(1)) && name.get_char(2) == '-'
        && is_digit(name.get_char(3)) && is_digit(name.get_char(4)) && name.get_char(5) == '-'
        && is_digit(name.get_char(6)) && is_digit(name.get_char(7)) && name.get_char(8) == '.'
        && name.get_char(9) == 'm' && name.get_char(10) == 'd'
}

} // verus!
