//! What a run asks of its host, what the host answers, and how a run fails.
//!
//! Everything that takes floating point, the time or the output stream is
//! the host's work. A run stops with a request, the host does the work and
//! replies, and the run goes on.

use vstd::prelude::*;
use crate::number::Number;
use crate::parser::BinaryOperator;
use crate::utils::{decimal, decimal_text};

verus! {

/// Why a run failed.
#[derive(Clone, Copy, Debug, PartialEq, Eq, Structural)]
pub enum RuntimeError {
    /// A name that no frame holds was read, assigned or called.
    UndefinedVariable,
    /// What was called is no function.
    NotCallable,
    /// A function was called with another number of arguments than it has
    /// parameters: the parameters, then the arguments.
    Arity(usize, usize),
    /// An operator or a condition met a value that it does not take.
    TypeMismatch,
    /// The host could not read a number literal.
    MalformedNumber,
}

impl RuntimeError {
    /// The failure in words. A wrong number of arguments is reported with
    /// both numbers.
    pub open spec fn spec_message(self) -> Seq<char> {
        match self {
            RuntimeError::UndefinedVariable => "Undefined variable."@,
            RuntimeError::NotCallable => "Can only call functions and classes."@,
            RuntimeError::Arity(expected, got) => "Expected "@ + decimal_text(expected as nat)
                + " arguments but got "@ + decimal_text(got as nat),
            RuntimeError::TypeMismatch => "Operands do not fit the operator."@,
            RuntimeError::MalformedNumber => "Malformed number."@,
        }
    }

    /// The failure in words.
    pub fn to_string(&self) -> (text: String)
        ensures
            text@ == self.spec_message(),
    {
        match self {
            RuntimeError::UndefinedVariable => String::from_str("Undefined variable."),
            RuntimeError::NotCallable => String::from_str("Can only call functions and classes."),
            RuntimeError::Arity(expected, got) => {
                let mut text = String::from_str("Expected ");
                text.append(decimal(*expected).as_str());
                text.append(" arguments but got ");
                text.append(decimal(*got).as_str());
                text
            },
            RuntimeError::TypeMismatch => String::from_str("Operands do not fit the operator."),
            RuntimeError::MalformedNumber => String::from_str("Malformed number."),
        }
    }

    /// The condition that every failure of a run raises.
    pub fn condition(&self) -> (condition: crate::parser::Condition)
        ensures
            condition == crate::parser::Condition::Runtime,
    {
        crate::parser::Condition::Runtime
    }
}

/// What a run asks of its host.
#[derive(Debug)]
pub enum Request {
    /// The value of a number literal, given as written.
    Parse(String),
    /// The sum, difference, product or quotient of two numbers. The
    /// operator is one of `Plus`, `Minus`, `Star` and `Slash`.
    Arithmetic(BinaryOperator, Number, Number),
    /// The natural decimal text of a number.
    Format(Number),
    /// To write a line to the output.
    Print(String),
    /// The time in whole seconds since the epoch.
    Clock,
}

/// A `Request` as a mathematical value.
pub enum RequestView {
    Parse(Seq<char>),
    Arithmetic(BinaryOperator, u64, u64),
    Format(u64),
    Print(Seq<char>),
    Clock,
}

impl View for Request {
    type V = RequestView;

    open spec fn view(&self) -> RequestView {
        match self {
            Request::Parse(text) => RequestView::Parse(text@),
            Request::Arithmetic(op, a, b) => RequestView::Arithmetic(*op, a.bits, b.bits),
            Request::Format(n) => RequestView::Format(n.bits),
            Request::Print(text) => RequestView::Print(text@),
            Request::Clock => RequestView::Clock,
        }
    }
}

impl Request {
    /// A copy of the request.
    pub fn clone(&self) -> (copy: Request)
        ensures
            copy@ == self@,
    {
        match self {
            Request::Parse(text) => Request::Parse(text.clone()),
            Request::Arithmetic(op, a, b) => Request::Arithmetic(*op, *a, *b),
            Request::Format(n) => Request::Format(*n),
            Request::Print(text) => Request::Print(text.clone()),
            Request::Clock => Request::Clock,
        }
    }
}

/// What the host answers.
#[derive(Debug)]
pub enum Reply {
    /// The number asked for.
    Number(Number),
    /// The text asked for.
    Text(String),
    /// The line was written.
    Done,
    /// The literal is no number.
    Invalid,
}

/// A `Reply` as a mathematical value.
pub enum ReplyView {
    Number(u64),
    Text(Seq<char>),
    Done,
    Invalid,
}

impl View for Reply {
    type V = ReplyView;

    open spec fn view(&self) -> ReplyView {
        match self {
            Reply::Number(n) => ReplyView::Number(n.bits),
            Reply::Text(text) => ReplyView::Text(text@),
            Reply::Done => ReplyView::Done,
            Reply::Invalid => ReplyView::Invalid,
        }
    }
}

} // verus!
