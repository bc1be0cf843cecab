//! Runs of characters of one class, and line counting.

use vstd::prelude::*;

verus! {

/// The classes of characters that the scanner reads in runs.
#[derive(Clone, Copy, Debug, PartialEq, Eq, Structural)]
pub enum CharClass {
    /// `0` to `9`.
    Digit,
    /// Letters, digits and the underscore.
    AlphaNumeric,
    /// Anything but a line feed.
    NotNewline,
    /// Anything but a double quote.
    NotQuote,
}

/// Whether `c` is one of `0` to `9`.
pub open spec fn is_digit(c: char) -> bool {
    '0' <= c <= '9'
}

/// Whether `c` is an ASCII letter, a digit or the underscore.
pub open spec fn is_word_char(c: char) -> bool {
    ('a' <= c <= 'z') || ('A' <= c <= 'Z') || c == '_' || is_digit(c)
}

impl CharClass {
    /// Whether `c` belongs to the class.
    pub open spec fn admits(self, c: char) -> bool {
        match self {
            CharClass::Digit => is_digit(c),
            CharClass::AlphaNumeric => is_word_char(c),
            CharClass::NotNewline => c != '\n',
            CharClass::NotQuote => c != '"',
        }
    }

    /// Whether `c` belongs to the class.
    pub fn holds(&self, c: char) -> (r: bool)
        ensures
            r == self.admits(c),
    {
        match self {
            CharClass::Digit => '0' <= c && c <= '9',
            CharClass::AlphaNumeric => ('a' <= c && c <= 'z') || ('A' <= c && c <= 'Z') || c == '_'
                || ('0' <= c && c <= '9'),
            CharClass::NotNewline => c != '\n',
            CharClass::NotQuote => c != '"',
        }
    }
}

/// Where the longest run of characters of `class` that starts at `start`
/// ends: the first position from `start` on that holds a character outside
/// the class, or the length of the text.
pub open spec fn run_end(chars: Seq<char>, start: int, class: CharClass) -> int
    decreases chars.len() - start,
{
    if 0 <= start < chars.len() && class.admits(chars[start]) {
        run_end(chars, start + 1, class)
    } else {
        start
    }
}

/// A run ends where the first character outside the class stands, and
/// nowhere else.
pub proof fn run_end_is_first_outsider(chars: Seq<char>, start: int, end: int, class: CharClass)
    requires
        0 <= start <= end <= chars.len(),
        forall|i: int| start <= i < end ==> class.admits(#[trigger] chars[i]),
        end == chars.len() || !class.admits(chars[end]),
    ensures
        run_end(chars, start, class) == end,
    decreases end - start,
{
    if start < end {
        run_end_is_first_outsider(chars, start + 1, end, class);
    }
}

/// A run stays inside the text, holds only characters of its class, and is
/// followed by none of them.
pub proof fn run_end_bounds(chars: Seq<char>, start: int, class: CharClass)
    requires
        0 <= start <= chars.len(),
    ensures
        start <= run_end(chars, start, class) <= chars.len(),
        forall|i: int|
            start <= i < run_end(chars, start, class) ==> class.admits(#[trigger] chars[i]),
        run_end(chars, start, class) == chars.len() || !class.admits(
            chars[run_end(chars, start, class)],
        ),
    decreases chars.len() - start,
{
    if start < chars.len() && class.admits(chars[start]) {
        run_end_bounds(chars, start + 1, class);
    }
}

/// Reads the run of `class` that starts at `start` and returns where it ends.
pub fn skip_run(chars: &Vec<char>, start: usize, class: CharClass) -> (end: usize)
    requires
        start <= chars@.len(),
    ensures
        end == run_end(chars@, start as int, class),
        start <= end <= chars@.len(),
{
    let mut end: usize = start;
    while end < chars.len() && class.holds(chars[end])
        invariant
            start <= end <= chars@.len(),
            forall|i: int| start <= i < end ==> class.admits(#[trigger] chars@[i]),
        decreases chars@.len() - end,
    {
        end += 1;
    }
    proof {
        run_end_is_first_outsider(chars@, start as int, end as int, class);
    }
    end
}

/// The number of line feeds in `chars[from..to]`.
pub open spec fn newlines_between(chars: Seq<char>, from: int, to: int) -> nat
    decreases to - from,
{
    if from < to && 0 < to <= chars.len() {
        newlines_between(chars, from, to - 1) + if chars[to - 1] == '\n' {
            1nat
        } else {
            0nat
        }
    } else {
        0
    }
}

/// A stretch of text holds no more line feeds than characters.
pub proof fn newlines_are_bounded(chars: Seq<char>, from: int, to: int)
    requires
        0 <= from <= to <= chars.len(),
    ensures
        newlines_between(chars, from, to) <= to - from,
    decreases to - from,
{
    if from < to {
        newlines_are_bounded(chars, from, to - 1);
    }
}

/// Counts the line feeds in `chars[from..to]`.
pub fn count_newlines(chars: &Vec<char>, from: usize, to: usize) -> (count: usize)
    requires
        from <= to <= chars@.len(),
    ensures
        count == newlines_between(chars@, from as int, to as int),
        count <= to - from,
{
    let mut count: usize = 0;
    let mut i: usize = from;
    while i < to
        invariant
            from <= i <= to <= chars@.len(),
            count == newlines_between(chars@, from as int, i as int),
            count <= i - from,
        decreases to - i,
    {
        if chars[i] == '\n' {
            count += 1;
        }
        i += 1;
    }
    count
}

} // verus!
