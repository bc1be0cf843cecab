//! Scalar values.

use vstd::prelude::*;
use crate::number::{magnitude_of, Number};
use crate::utils::{pad_number, padded};

verus! {

/// A scalar of the language.
#[derive(Debug)]
pub enum Literal {
    Boolean(bool),
    Number(Number),
    String(String),
    Nil,
}

/// A `Literal` as a mathematical value; a number is its bit pattern.
pub enum LiteralView {
    Boolean(bool),
    Number(u64),
    String(Seq<char>),
    Nil,
}

impl View for Literal {
    type V = LiteralView;

    open spec fn view(&self) -> LiteralView {
        match self {
            Literal::Boolean(b) => LiteralView::Boolean(*b),
            Literal::Number(n) => LiteralView::Number(n.bits),
            Literal::String(s) => LiteralView::String(s@),
            Literal::Nil => LiteralView::Nil,
        }
    }
}

impl LiteralView {
    /// Truthiness: a boolean is itself, a number is true unless it is zero,
    /// every string is true, also the empty one, and `nil` is false.
    pub open spec fn truthy(self) -> bool {
        match self {
            LiteralView::Boolean(b) => b,
            LiteralView::Number(bits) => magnitude_of(bits) != 0,
            LiteralView::String(_) => true,
            LiteralView::Nil => false,
        }
    }

    /// The text of the scalar as `print` writes it. `number` is the natural
    /// decimal text of the number, which is read only for a number.
    pub open spec fn shown(self, number: Seq<char>) -> Seq<char> {
        match self {
            LiteralView::Boolean(b) => if b {
                "true"@
            } else {
                "false"@
            },
            LiteralView::Number(_) => padded(number),
            LiteralView::String(s) => s,
            LiteralView::Nil => "nil"@,
        }
    }
}

impl Literal {
    /// Whether the scalar counts as true.
    pub fn as_bool(&self) -> (truth: bool)
        ensures
            truth == self@.truthy(),
    {
        match self {
            Literal::Boolean(value) => *value,
            Literal::Number(value) => !value.is_zero(),
            Literal::String(_) => true,
            Literal::Nil => false,
        }
    }

    /// A copy of the scalar.
    pub fn clone(&self) -> (copy: Literal)
        ensures
            copy@ == self@,
    {
        match self {
            Literal::Boolean(value) => Literal::Boolean(*value),
            Literal::Number(value) => Literal::Number(*value),
            Literal::String(value) => Literal::String(value.clone()),
            Literal::Nil => Literal::Nil,
        }
    }

    /// The text of the scalar as `print` writes it. `number` is the natural
    /// decimal text of the number, which is read only for a number.
    pub fn to_string(&self, number: &str) -> (text: String)
        ensures
            text@ == self@.shown(number@),
    {
        match self {
            Literal::Boolean(value) => if *value {
                String::from_str("true")
            } else {
                String::from_str("false")
            },
            Literal::Number(_) => pad_number(number),
            Literal::String(value) => value.clone(),
            Literal::Nil => String::from_str("nil"),
        }
    }
}

} // verus!
