//! Identifiers and keywords as written.

use vstd::prelude::*;
use crate::scanner::run::{is_word_char, run_end, skip_run, CharClass};
use crate::utils::text_of;

verus! {

/// Whether `c` may stand inside an identifier: an ASCII letter, a digit or
/// the underscore.
pub fn is_alpha_numeric(c: char) -> (r: bool)
    ensures
        r == is_word_char(c),
{
    CharClass::AlphaNumeric.holds(c)
}

/// Reads the identifier whose first character stands at `pos - 1`. Returns
/// its text and the position after it.
pub fn scan(chars: &Vec<char>, pos: usize) -> (found: (String, usize))
    requires
        0 < pos <= chars@.len(),
    ensures
        found.1 == run_end(chars@, pos as int, CharClass::AlphaNumeric),
        pos <= found.1 <= chars@.len(),
        found.0@ == chars@.subrange(pos - 1, found.1 as int),
{
    let end = skip_run(chars, pos, CharClass::AlphaNumeric);
    (text_of(chars, pos - 1, end), end)
}

} // verus!
