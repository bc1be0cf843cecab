//! What the parser reports.

use vstd::prelude::*;
use crate::utils::{report, report_text};

verus! {

/// The two conditions under which a run ends early.
#[derive(Clone, Copy, Debug, PartialEq, Eq, Structural)]
pub enum Condition {
    /// The program's structure is malformed.
    Syntax,
    /// The program is well formed and fails while it runs.
    Runtime,
}

impl Condition {
    /// The exit code with which a program ends under the condition: 65
    /// for a syntax condition, 70 for a runtime condition.
    pub open spec fn spec_exit_code(self) -> u8 {
        match self {
            Condition::Syntax => 65,
            Condition::Runtime => 70,
        }
    }

    /// The exit code with which a program ends under the condition.
    pub fn exit_code(&self) -> (code: u8)
        ensures
            code == self.spec_exit_code(),
    {
        match self {
            Condition::Syntax => 65,
            Condition::Runtime => 70,
        }
    }
}

/// What the parser found wrong.
#[derive(Clone, Copy, Debug, PartialEq, Eq, Structural)]
pub enum Fault {
    /// The tokens end where an expression has to start.
    ExpectedToken,
    /// A token that starts no expression.
    UnknownToken,
    /// A `(` without its `)`.
    UnmatchedParentheses,
    /// A `{` without its `}`.
    UnmatchedBraces,
    /// A `(` behind a number, a string or a parenthesised expression.
    CanOnlyCall,
    /// No name where `var` or `fun` needs one, or in a parameter list.
    ExpectedIdentifier,
    /// Neither `=` nor `;` behind the name of a `var`.
    ExpectedAssignment,
    /// `print` without an expression.
    PrintWithoutExpression,
    /// A `;` inside an argument list.
    UnexpectedSemicolon,
    /// Two parameters without a comma between them.
    MissingComma,
    /// No `(` behind `for` or behind the name of a function.
    ExpectedLeftParen,
    /// No `{` where the body of a function has to start.
    ExpectedLeftBrace,
    /// An empty block as a clause of `for`.
    EmptyClause,
    /// A body of `for` that is neither a block nor a `print`.
    BadForBody,
    /// A string token that carries no value.
    MissingLiteral,
}

/// A fault and the line of the construct in which it was found.
#[derive(Clone, Copy, Debug, PartialEq, Eq, Structural)]
pub struct ParseError {
    pub fault: Fault,
    pub line: usize,
}

impl Fault {
    /// The condition that the fault raises: calling what is no function is
    /// a runtime condition, every other fault a syntax condition.
    pub open spec fn spec_condition(self) -> Condition {
        if self == Fault::CanOnlyCall {
            Condition::Runtime
        } else {
            Condition::Syntax
        }
    }

    /// The condition that the fault raises.
    pub fn condition(&self) -> (condition: Condition)
        ensures
            condition == self.spec_condition(),
    {
        match self {
            Fault::CanOnlyCall => Condition::Runtime,
            _ => Condition::Syntax,
        }
    }

    /// The fault in words.
    pub open spec fn spec_message(self) -> Seq<char> {
        match self {
            Fault::ExpectedToken => "Expected token."@,
            Fault::UnknownToken => "Unknown token type."@,
            Fault::UnmatchedParentheses => "Unmatched parentheses."@,
            Fault::UnmatchedBraces => "Unmatched braces."@,
            Fault::CanOnlyCall => "Can only call functions and classes."@,
            Fault::ExpectedIdentifier => "Expected identifier."@,
            Fault::ExpectedAssignment => "Expected '=' or ';'."@,
            Fault::PrintWithoutExpression => "Print statement must have an expression."@,
            Fault::UnexpectedSemicolon => "Unexpected semicolon."@,
            Fault::MissingComma => "Missing comma."@,
            Fault::ExpectedLeftParen => "Expected '('."@,
            Fault::ExpectedLeftBrace => "Expected '{'."@,
            Fault::EmptyClause => "Expected expression."@,
            Fault::BadForBody => "Expected a block or a print statement."@,
            Fault::MissingLiteral => "String without a value."@,
        }
    }

    /// The fault in words.
    pub fn message(&self) -> (text: &'static str)
        ensures
            text@ == self.spec_message(),
    {
        match self {
            Fault::ExpectedToken => "Expected token.",
            Fault::UnknownToken => "Unknown token type.",
            Fault::UnmatchedParentheses => "Unmatched parentheses.",
            Fault::UnmatchedBraces => "Unmatched braces.",
            Fault::CanOnlyCall => "Can only call functions and classes.",
            Fault::ExpectedIdentifier => "Expected identifier.",
            Fault::ExpectedAssignment => "Expected '=' or ';'.",
            Fault::PrintWithoutExpression => "Print statement must have an expression.",
            Fault::UnexpectedSemicolon => "Unexpected semicolon.",
            Fault::MissingComma => "Missing comma.",
            Fault::ExpectedLeftParen => "Expected '('.",
            Fault::ExpectedLeftBrace => "Expected '{'.",
            Fault::EmptyClause => "Expected expression.",
            Fault::BadForBody => "Expected a block or a print statement.",
            Fault::MissingLiteral => "String without a value.",
        }
    }
}

impl ParseError {
    /// The error as reported: `[line N] Error: ` and the fault in words.
    pub fn to_string(&self) -> (text: String)
        ensures
            text@ == report_text(self.line as nat, self.fault.spec_message()),
    {
        report(self.line, self.fault.message())
    }
}

} // verus!
