//! The scanning loop.

use vstd::prelude::*;
use crate::scanner::comment;
use crate::scanner::identifier;
use crate::scanner::keywords;
use crate::scanner::number;
use crate::scanner::run::{is_digit, is_word_char, newlines_between, run_end, CharClass};
use crate::scanner::string;
use crate::scanner::token::{Error, ErrorView, Token, TokenView, Type};
use crate::utils::{chars_of, report_text};

verus! {

/// The tokens and the errors that scanning a text gives, each in the order
/// of the text.
#[derive(Debug)]
pub struct ScanTokens {
    pub tokens: Vec<Token>,
    pub errors: Vec<Error>,
}

/// The line that closes a listing of tokens.
pub open spec fn end_of_listing() -> Seq<char> {
    "EOF  null"@
}

/// The listing of tokens: one line for each, and the closing line.
pub open spec fn listing_of(tokens: Seq<TokenView>) -> Seq<Seq<char>> {
    tokens.map_values(|token: TokenView| token.listed()).push(end_of_listing())
}

/// The reports of errors: one line for each.
pub open spec fn reports_of(errors: Seq<ErrorView>) -> Seq<Seq<char>> {
    errors.map_values(|error: ErrorView| report_text(error.line, error.message))
}

/// The views of the lines.
pub open spec fn line_views(lines: Seq<String>) -> Seq<Seq<char>> {
    lines.map_values(|line: String| line@)
}

impl ScanTokens {
    /// The tokens listed line by line, with `EOF  null` as the last line.
    pub fn listing(&self) -> (lines: Vec<String>)
        ensures
            line_views(lines@) == listing_of(token_views(self.tokens@)),
    {
        let mut lines: Vec<String> = Vec::new();
        let mut i: usize = 0;
        while i < self.tokens.len()
            invariant
                i <= self.tokens@.len(),
                lines@.len() == i,
                forall|j: int| 0 <= j < i ==> (#[trigger] lines@[j])@ == self.tokens@[j]@.listed(),
            decreases self.tokens@.len() - i,
        {
            let line = self.tokens[i].to_string();
            lines.push(line);
            i += 1;
        }
        lines.push(String::from_str("EOF  null"));
        assert(line_views(lines@) =~= listing_of(token_views(self.tokens@)));
        lines
    }

    /// The errors as reported, line by line.
    pub fn reports(&self) -> (lines: Vec<String>)
        ensures
            line_views(lines@) == reports_of(error_views(self.errors@)),
    {
        let mut lines: Vec<String> = Vec::new();
        let mut i: usize = 0;
        while i < self.errors.len()
            invariant
                i <= self.errors@.len(),
                lines@.len() == i,
                forall|j: int|
                    0 <= j < i ==> (#[trigger] lines@[j])@ == report_text(
                        self.errors@[j]@.line,
                        self.errors@[j]@.message,
                    ),
            decreases self.errors@.len() - i,
        {
            let line = self.errors[i].to_string();
            lines.push(line);
            i += 1;
        }
        assert(line_views(lines@) =~= reports_of(error_views(self.errors@)));
        lines
    }
}

/// What the scanner reads at one position.
pub struct Reading {
    /// The token read, if the characters make one.
    pub token: Option<TokenView>,
    /// The error, if the characters are no part of the language.
    pub error: Option<ErrorView>,
    /// The position after what was read.
    pub end: int,
    /// The line reached.
    pub line: nat,
}

/// A token without a literal.
pub open spec fn plain(ty: Type, lexeme: Seq<char>, line: nat) -> TokenView {
    TokenView { ty, lexeme, literal: None, line }
}

/// The kind of the token that the single character `c` makes, if it makes
/// one whatever follows it.
pub open spec fn single(c: char) -> Option<Type> {
    if c == ')' {
        Some(Type::RightParen)
    } else if c == '(' {
        Some(Type::LeftParen)
    } else if c == '}' {
        Some(Type::RightBrace)
    } else if c == '{' {
        Some(Type::LeftBrace)
    } else if c == '*' {
        Some(Type::Star)
    } else if c == '.' {
        Some(Type::Dot)
    } else if c == ',' {
        Some(Type::Comma)
    } else if c == '+' {
        Some(Type::Plus)
    } else if c == '-' {
        Some(Type::Minus)
    } else if c == ';' {
        Some(Type::Semicolon)
    } else {
        None
    }
}

/// For a character that makes one token alone and another with `=` behind
/// it: the two kinds, the one without `=` first.
pub open spec fn with_equal(c: char) -> Option<(Type, Type)> {
    if c == '!' {
        Some((Type::Bang, Type::BangEqual))
    } else if c == '=' {
        Some((Type::Equal, Type::EqualEqual))
    } else if c == '<' {
        Some((Type::Less, Type::LessEqual))
    } else if c == '>' {
        Some((Type::Greater, Type::GreaterEqual))
    } else {
        None
    }
}

/// The message of the error for a character that is no part of the language.
pub open spec fn unexpected_message(c: char) -> Seq<char> {
    "Unexpected character: "@.push(c)
}

/// What stands at `pos` of `chars`, read on line `line`.
///
/// A number token carries no literal: its value in decimal is for the caller
/// to add. A string token stands on the line on which the string ends.
pub open spec fn read_at(chars: Seq<char>, pos: int, line: nat) -> Reading
    recommends
        0 <= pos < chars.len(),
{
    let c = chars[pos];
    let next = pos + 1;
    let followed_by = |d: char| next < chars.len() && chars[next] == d;
    if single(c) is Some {
        Reading {
            token: Some(plain(single(c)->0, seq![c], line)),
            error: None,
            end: next,
            line,
        }
    } else if c == '/' {
        if followed_by('/') {
            Reading {
                token: None,
                error: None,
                end: run_end(chars, next + 1, CharClass::NotNewline),
                line,
            }
        } else {
            Reading { token: Some(plain(Type::Slash, seq![c], line)), error: None, end: next, line }
        }
    } else if let Some(types) = with_equal(c) {
        if followed_by('=') {
            Reading {
                token: Some(plain(types.1, seq![c, '='], line)),
                error: None,
                end: next + 1,
                line,
            }
        } else {
            Reading {
                token: Some(plain(types.0, seq![c], line)),
                error: None,
                end: next,
                line,
            }
        }
    } else if c == '"' {
        let close = run_end(chars, next, CharClass::NotQuote);
        let reached = line + newlines_between(chars, next, close);
        let value = chars.subrange(next, close);
        if string::string_is_closed(chars, next) {
            Reading {
                token: Some(
                    TokenView {
                        ty: Type::String,
                        lexeme: seq!['"'] + value + seq!['"'],
                        literal: Some(value),
                        line: reached,
                    },
                ),
                error: None,
                end: string::string_end(chars, next),
                line: reached,
            }
        } else {
            Reading {
                token: None,
                error: Some(ErrorView { line: reached, message: string::unterminated_message() }),
                end: string::string_end(chars, next),
                line: reached,
            }
        }
    } else if is_digit(c) {
        let end = number::number_end(chars, next);
        Reading {
            token: Some(plain(Type::Number, chars.subrange(pos, end), line)),
            error: None,
            end,
            line,
        }
    } else if is_word_char(c) {
        let end = run_end(chars, next, CharClass::AlphaNumeric);
        let text = chars.subrange(pos, end);
        let ty = match keywords::keyword(text) {
            Some(ty) => ty,
            None => Type::Identifier,
        };
        Reading { token: Some(plain(ty, text, line)), error: None, end, line }
    } else if c == ' ' || c == '\t' {
        Reading { token: None, error: None, end: next, line }
    } else if c == '\n' {
        Reading { token: None, error: None, end: next, line: line + 1 }
    } else {
        Reading {
            token: None,
            error: Some(ErrorView { line, message: unexpected_message(c) }),
            end: next,
            line,
        }
    }
}

/// Every reading takes at least one character and none behind the last,
/// and the line never goes back; so reading from the start reaches the end
/// of the text.
pub proof fn every_reading_advances(chars: Seq<char>, pos: int, line: nat)
    requires
        0 <= pos < chars.len(),
    ensures
        pos < read_at(chars, pos, line).end <= chars.len(),
        read_at(chars, pos, line).line >= line,
        !(read_at(chars, pos, line).token is Some && read_at(chars, pos, line).error is Some),
{
    let next = pos + 1;
    crate::scanner::run::run_end_bounds(chars, next, CharClass::NotQuote);
    crate::scanner::run::run_end_bounds(chars, next, CharClass::AlphaNumeric);
    crate::scanner::run::run_end_bounds(chars, next, CharClass::Digit);
    if next < chars.len() {
        crate::scanner::run::run_end_bounds(chars, next + 1, CharClass::NotNewline);
    }
    let whole = run_end(chars, next, CharClass::Digit);
    if whole + 1 <= chars.len() {
        crate::scanner::run::run_end_bounds(chars, whole + 1, CharClass::Digit);
    }
}

/// `items` with `item` behind them, if there is one.
pub open spec fn with<T>(items: Seq<T>, item: Option<T>) -> Seq<T> {
    match item {
        Some(item) => items.push(item),
        None => items,
    }
}

/// The tokens and errors of `chars` from `pos` on, behind those already
/// read.
pub open spec fn read_from(
    chars: Seq<char>,
    pos: int,
    line: nat,
    tokens: Seq<TokenView>,
    errors: Seq<ErrorView>,
) -> (Seq<TokenView>, Seq<ErrorView>)
    decreases chars.len() - pos,
{
    if 0 <= pos < chars.len() {
        let reading = read_at(chars, pos, line);
        if pos < reading.end <= chars.len() {
            read_from(
                chars,
                reading.end,
                reading.line,
                with(tokens, reading.token),
                with(errors, reading.error),
            )
        } else {
            (tokens, errors)
        }
    } else {
        (tokens, errors)
    }
}

/// The tokens and errors of a whole text, which starts on line 1.
pub open spec fn scanned(chars: Seq<char>) -> (Seq<TokenView>, Seq<ErrorView>) {
    read_from(chars, 0, 1, Seq::empty(), Seq::empty())
}

/// The tokens as mathematical values.
pub open spec fn token_views(tokens: Seq<Token>) -> Seq<TokenView> {
    tokens.map_values(|token: Token| token@)
}

/// The errors as mathematical values.
pub open spec fn error_views(errors: Seq<Error>) -> Seq<ErrorView> {
    errors.map_values(|error: Error| error@)
}

fn next_char_match(expected: char, chars: &Vec<char>, pos: usize) -> (matched: bool)
    ensures
        matched == (pos < chars@.len() && chars@[pos as int] == expected),
{
    pos < chars.len() && chars[pos] == expected
}

fn push_token(tokens: &mut Vec<Token>, ty: Type, text: &str, line: usize)
    ensures
        token_views(final(tokens)@) == token_views(old(tokens)@).push(
            plain(ty, text@, line as nat),
        ),
{
    let token = Token::new(ty, text, None, line);
    tokens.push(token);
    assert(token_views(tokens@) =~= token_views(old(tokens)@).push(token@));
}

fn single_type(c: char) -> (ty: Option<Type>)
    ensures
        ty == single(c),
{
    if c == ')' {
        Some(Type::RightParen)
    } else if c == '(' {
        Some(Type::LeftParen)
    } else if c == '}' {
        Some(Type::RightBrace)
    } else if c == '{' {
        Some(Type::LeftBrace)
    } else if c == '*' {
        Some(Type::Star)
    } else if c == '.' {
        Some(Type::Dot)
    } else if c == ',' {
        Some(Type::Comma)
    } else if c == '+' {
        Some(Type::Plus)
    } else if c == '-' {
        Some(Type::Minus)
    } else if c == ';' {
        Some(Type::Semicolon)
    } else {
        None
    }
}

fn with_equal_types(c: char) -> (types: Option<(Type, Type)>)
    ensures
        types == with_equal(c),
{
    if c == '!' {
        Some((Type::Bang, Type::BangEqual))
    } else if c == '=' {
        Some((Type::Equal, Type::EqualEqual))
    } else if c == '<' {
        Some((Type::Less, Type::LessEqual))
    } else if c == '>' {
        Some((Type::Greater, Type::GreaterEqual))
    } else {
        None
    }
}

fn text_of_one(c: char) -> (text: String)
    ensures
        text@ == seq![c],
{
    let mut text = String::new();
    text.push(c);
    assert(text@ =~= seq![c]);
    text
}

fn text_of_two(c: char, d: char) -> (text: String)
    ensures
        text@ == seq![c, d],
{
    let mut text = String::new();
    text.push(c);
    text.push(d);
    assert(text@ =~= seq![c, d]);
    text
}

/// Scans a source text into tokens.
///
/// Returns the tokens and the errors that reading the text from its start
/// gives, position by position as `read_at` says. Blanks, tabs, line feeds
/// and comments give neither; a character outside the language and an
/// unclosed string give an error and no token.
pub fn scan_tokens(content: &str) -> (result: ScanTokens)
    ensures
        (token_views(result.tokens@), error_views(result.errors@)) == scanned(content@),
{
    let chars = chars_of(content);
    let mut tokens: Vec<Token> = Vec::new();
    let mut errors: Vec<Error> = Vec::new();
    let mut line: usize = 1;
    let mut pos: usize = 0;
    assert(token_views(tokens@) =~= Seq::empty());
    assert(error_views(errors@) =~= Seq::empty());
    while pos < chars.len()
        invariant
            chars@ == content@,
            pos <= chars@.len(),
            1 <= line <= pos + 1,
            scanned(content@) == read_from(
                chars@,
                pos as int,
                line as nat,
                token_views(tokens@),
                error_views(errors@),
            ),
        decreases chars@.len() - pos,
    {
        let c = chars[pos];
        let next: usize = pos + 1;
        let ghost reading = read_at(chars@, pos as int, line as nat);
        let ghost tokens_before = token_views(tokens@);
        let ghost errors_before = error_views(errors@);
        let end: usize;
        if let Some(ty) = single_type(c) {
            let text = text_of_one(c);
            push_token(&mut tokens, ty, text.as_str(), line);
            end = next;
        } else if c == '/' {
            if next_char_match('/', &chars, next) {
                end = comment::scan(&chars, next + 1);
            } else {
                push_token(&mut tokens, Type::Slash, "/", line);
                proof {
                    reveal_strlit("/");
                    assert("/"@ =~= seq![c]);
                }
                end = next;
            }
        } else if let Some(types) = with_equal_types(c) {
            if next_char_match('=', &chars, next) {
                let text = text_of_two(c, '=');
                push_token(&mut tokens, types.1, text.as_str(), line);
                end = next + 1;
            } else {
                let text = text_of_one(c);
                push_token(&mut tokens, types.0, text.as_str(), line);
                end = next;
            }
        } else if c == '"' {
            let scanned = string::scan(&chars, next, &mut line);
            end = scanned.end;
            match scanned.outcome {
                Ok((text, value)) => {
                    let token = Token::new(Type::String, text.as_str(), Some(value), line);
                    tokens.push(token);
                    assert(token_views(tokens@) =~= tokens_before.push(token@));
                },
                Err(error) => {
                    errors.push(error);
                    assert(error_views(errors@) =~= errors_before.push(error@));
                },
            }
        } else if CharClass::Digit.holds(c) {
            let (text, after) = number::scan(&chars, next);
            push_token(&mut tokens, Type::Number, text.as_str(), line);
            end = after;
        } else if identifier::is_alpha_numeric(c) {
            let (text, after) = identifier::scan(&chars, next);
            let ty = match keywords::map(&text) {
                Some(ty) => ty,
                None => Type::Identifier,
            };
            push_token(&mut tokens, ty, text.as_str(), line);
            end = after;
        } else if c == ' ' || c == '\t' {
            end = next;
        } else if c == '\n' {
            // No token follows a line feed that ends the text.
            if next < chars.len() {
                line = line + 1;
            }
            end = next;
        } else {
            let mut message = String::from_str("Unexpected character: ");
            message.push(c);
            let error = Error { line, message };
            errors.push(error);
            assert(error_views(errors@) =~= errors_before.push(error@));
            end = next;
        }
        proof {
            crate::scanner::run::run_end_bounds(chars@, next as int, CharClass::NotQuote);
            crate::scanner::run::newlines_are_bounded(
                chars@,
                next as int,
                run_end(chars@, next as int, CharClass::NotQuote),
            );
            assert(end == reading.end);
            assert(end < chars@.len() ==> line == reading.line);
            assert(token_views(tokens@) == with(tokens_before, reading.token));
            assert(error_views(errors@) == with(errors_before, reading.error));
            if end == chars@.len() {
                // Behind the text the line no longer matters.
                assert(read_from(
                    chars@,
                    end as int,
                    reading.line,
                    token_views(tokens@),
                    error_views(errors@),
                ) == read_from(
                    chars@,
                    end as int,
                    line as nat,
                    token_views(tokens@),
                    error_views(errors@),
                ));
            }
        }
        pos = end;
    }
    ScanTokens { tokens, errors }
}

} // verus!
