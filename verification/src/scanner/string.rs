//! String literals.

use vstd::prelude::*;
use crate::scanner::run::{
    count_newlines,
    newlines_between,
    run_end,
    skip_run,
    CharClass,
};
use crate::scanner::token::{Error, ErrorView};
use crate::utils::text_of;

verus! {

/// What reading a string literal gives.
pub struct StringScan {
    /// The literal with its quotes and the text between them, or the error.
    pub outcome: Result<(String, String), Error>,
    /// The position after what was read.
    pub end: usize,
}

/// The message of the error for a string that is not closed.
pub open spec fn unterminated_message() -> Seq<char> {
    "Unterminated string."@
}

/// Whether the string whose text starts at `pos` is closed: a closing quote
/// stands somewhere from `pos` on, or nothing at all follows the opening
/// quote (then the string counts as closed and empty).
pub open spec fn string_is_closed(chars: Seq<char>, pos: int) -> bool {
    run_end(chars, pos, CharClass::NotQuote) < chars.len() || pos == chars.len()
}

/// Where reading the string whose text starts at `pos` stops: after the
/// closing quote, or at the end of the text.
pub open spec fn string_end(chars: Seq<char>, pos: int) -> int {
    let close = run_end(chars, pos, CharClass::NotQuote);
    if close < chars.len() {
        close + 1
    } else {
        close
    }
}

/// Reads the string literal whose opening quote stands at `pos - 1`.
///
/// The value is the text up to the next double quote, and the lexeme is the
/// value between two quotes. `line` grows by the line feeds that were read.
/// Without a closing quote the rest of the text is read and the result is
/// the error "Unterminated string." on the line then reached; only where
/// the opening quote is the last character of the text, the result is the
/// empty string.
pub fn scan(chars: &Vec<char>, pos: usize, line: &mut usize) -> (scanned: StringScan)
    requires
        0 < pos <= chars@.len(),
        *old(line) + (chars@.len() - pos) <= usize::MAX,
    ensures
        scanned.end == string_end(chars@, pos as int),
        pos <= scanned.end <= chars@.len(),
        *final(line) == *old(line) + newlines_between(
            chars@,
            pos as int,
            run_end(chars@, pos as int, CharClass::NotQuote),
        ),
        scanned.outcome is Ok <==> string_is_closed(chars@, pos as int),
        scanned.outcome matches Ok(found) ==> {
            let value = chars@.subrange(
                pos as int,
                run_end(chars@, pos as int, CharClass::NotQuote),
            );
            &&& found.1@ == value
            &&& found.0@ == seq!['"'] + value + seq!['"']
        },
        scanned.outcome matches Err(error) ==> error@ == (ErrorView {
            line: *final(line) as nat,
            message: unterminated_message(),
        }),
{
    let close = skip_run(chars, pos, CharClass::NotQuote);
    let newlines = count_newlines(chars, pos, close);
    *line = *line + newlines;
    if close < chars.len() || pos == chars.len() {
        let value = text_of(chars, pos, close);
        let mut lexeme = String::new();
        lexeme.push('"');
        let mut i: usize = pos;
        while i < close
            invariant
                pos <= i <= close <= chars@.len(),
                lexeme@ == seq!['"'] + chars@.subrange(pos as int, i as int),
            decreases close - i,
        {
            lexeme.push(chars[i]);
            assert(chars@.subrange(pos as int, i + 1) =~= chars@.subrange(pos as int, i as int).push(
                chars@[i as int],
            ));
            assert(lexeme@ =~= seq!['"'] + chars@.subrange(pos as int, i + 1));
            i += 1;
        }
        lexeme.push('"');
        assert(lexeme@ =~= seq!['"'] + value@ + seq!['"']);
        let end = if close < chars.len() {
            close + 1
        } else {
            close
        };
        StringScan { outcome: Ok((lexeme, value)), end }
    } else {
        let error = Error { line: *line, message: String::from_str("Unterminated string.") };
        StringScan { outcome: Err(error), end: close }
    }
}

} // verus!
