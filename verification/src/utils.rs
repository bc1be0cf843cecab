//! Text as sequences of characters: conversions between strings and
//! character vectors, and the decimal-point rule for displayed numbers.

use vstd::prelude::*;

verus! {

/// Trusted, not proved: `String::push` of the standard library appends the
/// character to the end of the string and changes nothing else of it.
pub assume_specification[ std::string::String::push ](s: &mut std::string::String, ch: char)
    ensures
        final(s)@ == old(s)@.push(ch),
;

/// The characters of a string, in order.
pub fn chars_of(s: &str) -> (chars: Vec<char>)
    ensures
        chars@ == s@,
{
    let mut chars: Vec<char> = Vec::new();
    for c in it: s.chars()
        invariant
            it.seq() == s@,
            chars@ == s@.take(it.index() as int),
    {
        chars.push(c);
    }
    chars
}

/// The string made of `chars[from..to]`.
pub fn text_of(chars: &Vec<char>, from: usize, to: usize) -> (text: String)
    requires
        from <= to <= chars@.len(),
    ensures
        text@ == chars@.subrange(from as int, to as int),
{
    let mut text = String::new();
    let mut i: usize = from;
    while i < to
        invariant
            from <= i <= to <= chars@.len(),
            text@ == chars@.subrange(from as int, i as int),
        decreases to - i,
    {
        text.push(chars[i]);
        i += 1;
    }
    text
}

/// The text with `.0` appended unless it already holds a decimal point.
pub open spec fn padded(text: Seq<char>) -> Seq<char> {
    if text.contains('.') {
        text
    } else {
        text.push('.').push('0')
    }
}

/// Displays a number's natural decimal text with a decimal point in every
/// case: text without a `.` gets `.0` appended, other text is unchanged.
pub fn pad_number(text: &str) -> (shown: String)
    ensures
        shown@ == padded(text@),
{
    let chars = chars_of(text);
    let mut found = false;
    let mut i: usize = 0;
    while i < chars.len()
        invariant
            i <= chars@.len(),
            found == chars@.take(i as int).contains('.'),
        decreases chars@.len() - i,
    {
        if chars[i] == '.' {
            found = true;
        }
        proof {
            let before = chars@.take(i as int);
            let after = chars@.take(i + 1);
            assert(after =~= before.push(chars@[i as int]));
            if before.contains('.') {
                let k = choose|k: int| 0 <= k < before.len() && before[k] == '.';
                assert(after[k] == '.');
            }
            if chars@[i as int] == '.' {
                assert(after[i as int] == '.');
            }
        }
        i += 1;
    }
    assert(chars@.take(i as int) =~= chars@);
    let mut shown = text_of(&chars, 0, chars.len());
    assert(chars@.subrange(0, chars@.len() as int) =~= chars@);
    if !found {
        shown.push('.');
        shown.push('0');
    }
    shown
}

/// Padding a padded text changes nothing.
pub proof fn padding_is_idempotent(text: Seq<char>)
    ensures
        padded(padded(text)) == padded(text),
        padded(text).contains('.'),
{
    if !text.contains('.') {
        let p = text.push('.').push('0');
        assert(p[text.len() as int] == '.');
    }
}

/// The character for a digit below ten.
pub open spec fn digit_char(d: nat) -> char {
    if d == 0 {
        '0'
    } else if d == 1 {
        '1'
    } else if d == 2 {
        '2'
    } else if d == 3 {
        '3'
    } else if d == 4 {
        '4'
    } else if d == 5 {
        '5'
    } else if d == 6 {
        '6'
    } else if d == 7 {
        '7'
    } else if d == 8 {
        '8'
    } else {
        '9'
    }
}

/// A natural number in decimal, without leading zeros.
pub open spec fn decimal_text(n: nat) -> Seq<char>
    decreases n,
{
    if n < 10 {
        seq![digit_char(n)]
    } else {
        decimal_text(n / 10).push(digit_char(n % 10))
    }
}

fn digit(d: usize) -> (c: char)
    requires
        d < 10,
    ensures
        c == digit_char(d as nat),
{
    if d == 0 {
        '0'
    } else if d == 1 {
        '1'
    } else if d == 2 {
        '2'
    } else if d == 3 {
        '3'
    } else if d == 4 {
        '4'
    } else if d == 5 {
        '5'
    } else if d == 6 {
        '6'
    } else if d == 7 {
        '7'
    } else if d == 8 {
        '8'
    } else {
        '9'
    }
}

/// Writes a number in decimal, without leading zeros.
pub fn decimal(n: usize) -> (text: String)
    ensures
        text@ == decimal_text(n as nat),
    decreases n,
{
    if n < 10 {
        let mut text = String::new();
        text.push(digit(n));
        assert(text@ =~= seq![digit_char(n as nat)]);
        text
    } else {
        let mut text = decimal(n / 10);
        text.push(digit(n % 10));
        text
    }
}

/// How a fault is reported: `[line N] Error: ` and the message.
pub open spec fn report_text(line: nat, message: Seq<char>) -> Seq<char> {
    "[line "@ + decimal_text(line) + "] Error: "@ + message
}

/// Reports a fault on a line: `[line N] Error: ` and the message.
pub fn report(line: usize, message: &str) -> (text: String)
    ensures
        text@ == report_text(line as nat, message@),
{
    let mut text = String::from_str("[line ");
    text.append(decimal(line).as_str());
    text.append("] Error: ");
    text.append(message);
    text
}

} // verus!
