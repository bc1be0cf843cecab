//! Line comments.

use vstd::prelude::*;
use crate::scanner::run::{skip_run, run_end, CharClass};

verus! {

/// Reads a comment that runs from `pos` to the end of its line, and returns
/// the position of the line feed that ends it, or the length of the text.
pub fn scan(chars: &Vec<char>, pos: usize) -> (end: usize)
    requires
        pos <= chars@.len(),
    ensures
        end == run_end(chars@, pos as int, CharClass::NotNewline),
        pos <= end <= chars@.len(),
{
    skip_run(chars, pos, CharClass::NotNewline)
}

} // verus!
