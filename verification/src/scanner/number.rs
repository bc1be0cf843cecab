//! Number literals as written.

use vstd::prelude::*;
use crate::scanner::run::{is_digit, run_end, skip_run, CharClass};
use crate::utils::text_of;

verus! {

/// Where the number literal ends whose digits go on at `pos`: after the run
/// of digits, and, if a decimal point and at least one digit follow it,
/// after the digits behind that point.
pub open spec fn number_end(chars: Seq<char>, pos: int) -> int {
    let whole = run_end(chars, pos, CharClass::Digit);
    if whole + 1 < chars.len() && chars[whole] == '.' && is_digit(chars[whole + 1]) {
        run_end(chars, whole + 1, CharClass::Digit)
    } else {
        whole
    }
}

/// Reads the number literal whose first digit stands at `pos - 1`. Returns
/// its text and the position after it. A decimal point belongs to the literal
/// only if a digit follows it.
pub fn scan(chars: &Vec<char>, pos: usize) -> (found: (String, usize))
    requires
        0 < pos <= chars@.len(),
    ensures
        found.1 == number_end(chars@, pos as int),
        pos <= found.1 <= chars@.len(),
        found.0@ == chars@.subrange(pos - 1, found.1 as int),
{
    let whole = skip_run(chars, pos, CharClass::Digit);
    let mut end = whole;
    if whole < chars.len() - 1 && chars[whole] == '.' && CharClass::Digit.holds(chars[whole + 1]) {
        end = skip_run(chars, whole + 1, CharClass::Digit);
    }
    (text_of(chars, pos - 1, end), end)
}

} // verus!
