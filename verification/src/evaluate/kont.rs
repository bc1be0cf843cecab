//! Continuations: what is left to do with the value of a subexpression.

use vstd::prelude::*;
use crate::parser::{BinaryOperator, Expr, UnaryOperator};

verus! {

/// A `for` loop under way: its optional condition and increment, its body,
/// and the frame it runs in.
#[derive(Clone, Copy, Debug)]
pub struct Loop<'a> {
    pub condition: Option<&'a Expr>,
    pub increment: Option<&'a Expr>,
    pub body: &'a Expr,
    pub scope: usize,
}

/// A call whose arguments are being evaluated.
#[derive(Clone, Copy, Debug)]
pub struct Call<'a> {
    /// The parameters of the function called.
    pub params: &'a Vec<String>,
    /// Its body.
    pub body: &'a Expr,
    /// The arguments of this call.
    pub arguments: &'a Vec<Expr>,
    /// The index of the argument under evaluation.
    pub index: usize,
    /// The new frame, which takes the arguments.
    pub frame: usize,
    /// The argument lists of the whole chain of calls.
    pub lists: &'a Vec<Vec<Expr>>,
    /// The index of the list behind the one of this call.
    pub next: usize,
    /// The frame in which the call stands.
    pub site: usize,
}

/// What is left to do once a value arrives.
#[derive(Clone, Copy, Debug)]
pub enum Kont<'a> {
    /// Apply a prefix operator.
    Unary(UnaryOperator),
    /// Keep the value as the left operand and evaluate the right one.
    BinaryLeft(BinaryOperator, &'a Expr, usize),
    /// Apply an infix operator to the operand kept and the value.
    BinaryRight(BinaryOperator),
    /// Keep a truthy value; else evaluate the right side.
    Or(&'a Expr, usize),
    /// Keep a falsy value; else evaluate the right side.
    And(&'a Expr, usize),
    /// Bind the value: the name, whether to declare it, and the frame.
    Assign(&'a String, bool, usize),
    /// Print the value.
    Print,
    /// Go on with a block: its statements, the index of the next one, and
    /// the frame of the block.
    Block(&'a Vec<Expr>, usize, usize),
    /// Choose a branch: that for true, that for false, and the frame.
    If(&'a Expr, Option<&'a Expr>, usize),
    /// Decide whether a `while` goes on: condition, body, frame.
    WhileCondition(&'a Expr, &'a Expr, usize),
    /// A round of a `while` has ended: condition, body, frame.
    WhileBody(&'a Expr, &'a Expr, usize),
    /// The initialiser of a `for` has run.
    ForInit(Loop<'a>),
    /// Decide whether a `for` goes on.
    ForCondition(Loop<'a>),
    /// A round of a `for` has ended.
    ForBody(Loop<'a>),
    /// The increment of a `for` has run.
    ForIncrement(Loop<'a>),
    /// Bind the value as an argument.
    Argument(Call<'a>),
    /// Take the value as the result of a call: the argument lists of the
    /// chain, the index of the next list, and the frame of the call.
    CallResult(&'a Vec<Vec<Expr>>, usize, usize),
    /// Turn the value into a signal to return.
    Return,
}

/// The subtree in an optional box, if there is one.
pub open spec fn optional<'a>(expr: Option<Box<Expr>>) -> Option<&'a Expr> {
    match expr {
        Some(inner) => Some(&*inner),
        None => None,
    }
}

/// The subtree in an optional box, if there is one.
pub fn unboxed<'a>(expr: &'a Option<Box<Expr>>) -> (inner: Option<&'a Expr>)
    ensures
        inner == optional(*expr),
{
    match expr {
        Some(inner) => Some(&**inner),
        None => None,
    }
}

} // verus!
