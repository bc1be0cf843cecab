//! Tokens, their kinds, and scan errors.

use vstd::prelude::*;
use crate::utils::{pad_number, padded, report, report_text};

verus! {

/// The kind of a token.
#[derive(Clone, Copy, Debug, PartialEq, Eq, Structural)]
pub enum Type {
    // Single-character tokens
    RightParen,
    RightBrace,
    LeftParen,
    LeftBrace,
    Star,
    Dot,
    Comma,
    Plus,
    Minus,
    Semicolon,
    Slash,
    // One or two character tokens
    Bang,
    BangEqual,
    Equal,
    EqualEqual,
    Less,
    LessEqual,
    Greater,
    GreaterEqual,
    // Literals
    String,
    Number,
    Identifier,
    // Keywords
    And,
    Class,
    Else,
    False,
    For,
    Fun,
    If,
    Nil,
    Or,
    Print,
    Return,
    Super,
    This,
    True,
    Var,
    While,
}

impl Type {
    /// The upper-case name under which a token of this kind is listed.
    pub open spec fn spec_name(self) -> Seq<char> {
        match self {
            Type::RightBrace => "RIGHT_BRACE"@,
            Type::LeftBrace => "LEFT_BRACE"@,
            Type::RightParen => "RIGHT_PAREN"@,
            Type::LeftParen => "LEFT_PAREN"@,
            Type::Star => "STAR"@,
            Type::Dot => "DOT"@,
            Type::Comma => "COMMA"@,
            Type::Plus => "PLUS"@,
            Type::Minus => "MINUS"@,
            Type::Semicolon => "SEMICOLON"@,
            Type::Slash => "SLASH"@,
            Type::Bang => "BANG"@,
            Type::BangEqual => "BANG_EQUAL"@,
            Type::Equal => "EQUAL"@,
            Type::EqualEqual => "EQUAL_EQUAL"@,
            Type::Less => "LESS"@,
            Type::LessEqual => "LESS_EQUAL"@,
            Type::Greater => "GREATER"@,
            Type::GreaterEqual => "GREATER_EQUAL"@,
            Type::String => "STRING"@,
            Type::Number => "NUMBER"@,
            Type::Identifier => "IDENTIFIER"@,
            Type::And => "AND"@,
            Type::Class => "CLASS"@,
            Type::Else => "ELSE"@,
            Type::False => "FALSE"@,
            Type::For => "FOR"@,
            Type::Fun => "FUN"@,
            Type::If => "IF"@,
            Type::Nil => "NIL"@,
            Type::Or => "OR"@,
            Type::Print => "PRINT"@,
            Type::Return => "RETURN"@,
            Type::Super => "SUPER"@,
            Type::This => "THIS"@,
            Type::True => "TRUE"@,
            Type::Var => "VAR"@,
            Type::While => "WHILE"@,
        }
    }

    fn name(&self) -> (text: &'static str)
        ensures
            text@ == self.spec_name(),
    {
        match self {
            Type::RightBrace => "RIGHT_BRACE",
            Type::LeftBrace => "LEFT_BRACE",
            Type::RightParen => "RIGHT_PAREN",
            Type::LeftParen => "LEFT_PAREN",
            Type::Star => "STAR",
            Type::Dot => "DOT",
            Type::Comma => "COMMA",
            Type::Plus => "PLUS",
            Type::Minus => "MINUS",
            Type::Semicolon => "SEMICOLON",
            Type::Slash => "SLASH",
            Type::Bang => "BANG",
            Type::BangEqual => "BANG_EQUAL",
            Type::Equal => "EQUAL",
            Type::EqualEqual => "EQUAL_EQUAL",
            Type::Less => "LESS",
            Type::LessEqual => "LESS_EQUAL",
            Type::Greater => "GREATER",
            Type::GreaterEqual => "GREATER_EQUAL",
            Type::String => "STRING",
            Type::Number => "NUMBER",
            Type::Identifier => "IDENTIFIER",
            Type::And => "AND",
            Type::Class => "CLASS",
            Type::Else => "ELSE",
            Type::False => "FALSE",
            Type::For => "FOR",
            Type::Fun => "FUN",
            Type::If => "IF",
            Type::Nil => "NIL",
            Type::Or => "OR",
            Type::Print => "PRINT",
            Type::Return => "RETURN",
            Type::Super => "SUPER",
            Type::This => "THIS",
            Type::True => "TRUE",
            Type::Var => "VAR",
            Type::While => "WHILE",
        }
    }
}

impl Type {
    /// The upper-case name under which a token of this kind is listed.
    pub fn to_string(&self) -> (text: String)
        ensures
            text@ == self.spec_name(),
    {
        String::from_str(self.name())
    }
}

/// What went wrong while scanning, and on which line.
#[derive(Debug)]
pub struct Error {
    pub line: usize,
    pub message: String,
}

/// An `Error` as a mathematical value.
pub struct ErrorView {
    pub line: nat,
    pub message: Seq<char>,
}

impl View for Error {
    type V = ErrorView;

    open spec fn view(&self) -> ErrorView {
        ErrorView { line: self.line as nat, message: self.message@ }
    }
}

impl Error {
    /// The error as reported: `[line N] Error: ` and the message.
    pub fn to_string(&self) -> (text: String)
        ensures
            text@ == report_text(self@.line, self@.message),
    {
        report(self.line, self.message.as_str())
    }
}

/// A lexical unit: its kind, its text as written, the value of a literal,
/// and the line it stands on.
#[derive(Debug)]
pub struct Token {
    pub ty: Type,
    pub lexeme: String,
    pub literal: Option<String>,
    pub line: usize,
}

/// A `Token` as a mathematical value.
pub struct TokenView {
    pub ty: Type,
    pub lexeme: Seq<char>,
    pub literal: Option<Seq<char>>,
    pub line: nat,
}

/// The view of an optional string.
pub open spec fn optional_text(text: Option<String>) -> Option<Seq<char>> {
    match text {
        Some(s) => Some(s@),
        None => None,
    }
}

impl View for Token {
    type V = TokenView;

    open spec fn view(&self) -> TokenView {
        TokenView {
            ty: self.ty,
            lexeme: self.lexeme@,
            literal: optional_text(self.literal),
            line: self.line as nat,
        }
    }
}

impl TokenView {
    /// The token as listed: the name of its kind, its lexeme, and its
    /// literal or, without one, `null`, with a blank between them.
    pub open spec fn listed(self) -> Seq<char> {
        self.ty.spec_name() + " "@ + self.lexeme + " "@ + match self.literal {
            Some(literal) => literal,
            None => "null"@,
        }
    }
}

impl Token {
    /// The token as listed: the name of its kind, its lexeme, and its
    /// literal or, without one, `null`, with a blank between them.
    pub fn to_string(&self) -> (text: String)
        ensures
            text@ == self@.listed(),
    {
        let mut text = self.ty.to_string();
        text.append(" ");
        text.append(self.lexeme.as_str());
        text.append(" ");
        match &self.literal {
            Some(literal) => text.append(literal.as_str()),
            None => text.append("null"),
        }
        text
    }

    /// A token of kind `ty` with the text `text`, the literal `value`, on
    /// line `line`.
    pub fn new(ty: Type, text: &str, value: Option<String>, line: usize) -> (token: Token)
        ensures
            token@ == (TokenView {
                ty,
                lexeme: text@,
                literal: optional_text(value),
                line: line as nat,
            }),
            token.literal == value,
    {
        Token { ty, lexeme: String::from_str(text), literal: value, line }
    }

    /// Gives a number token its literal: `natural`, the natural decimal
    /// text of the number's value, with a decimal point in every case. A
    /// token of another kind is left as it is.
    pub fn fill_number(&mut self, natural: &str)
        ensures
            final(self).ty == old(self).ty,
            final(self).lexeme == old(self).lexeme,
            final(self).line == old(self).line,
            old(self).ty == Type::Number ==> optional_text(final(self).literal) == Some(
                padded(natural@),
            ),
            old(self).ty != Type::Number ==> final(self).literal == old(self).literal,
    {
        if self.ty == Type::Number {
            self.literal = Some(pad_number(natural));
        }
    }
}

} // verus!
