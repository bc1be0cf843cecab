//! What evaluation yields.

use vstd::prelude::*;
use crate::evaluate::literal::{Literal, LiteralView};
use crate::parser::Expr;

verus! {

/// What can be called.
#[derive(Debug)]
pub enum Callable<'a> {
    /// The built-in `clock`, which takes the time from the host.
    Clock,
    /// A function of the program: its parameters, its body, and the frame
    /// in which it was declared.
    Closure(&'a Vec<String>, &'a Expr, usize),
}

/// The result of evaluating a node.
#[derive(Debug)]
pub enum Value<'a> {
    Literal(Literal),
    Callable(Callable<'a>),
    /// A value on its way out of the function that returned it.
    Return(Box<Value<'a>>),
}

/// A `Value` as a mathematical value.
pub enum ValueView {
    Literal(LiteralView),
    Clock,
    Closure(Vec<String>, Expr, nat),
    Return(Box<ValueView>),
}

/// The value as a mathematical value.
pub open spec fn value_view(value: Value<'_>) -> ValueView
    decreases value,
{
    match value {
        Value::Literal(literal) => ValueView::Literal(literal@),
        Value::Callable(Callable::Clock) => ValueView::Clock,
        Value::Callable(Callable::Closure(params, body, scope)) => ValueView::Closure(
            *params,
            *body,
            scope as nat,
        ),
        Value::Return(inner) => ValueView::Return(Box::new(value_view(*inner))),
    }
}

impl<'a> View for Value<'a> {
    type V = ValueView;

    open spec fn view(&self) -> ValueView {
        value_view(*self)
    }
}

/// The text under which every function is printed.
pub open spec fn function_text() -> Seq<char> {
    "<fn foo>"@
}

impl ValueView {
    /// The value without the `Return` wrappers around it.
    pub open spec fn unwrapped(self) -> ValueView
        decreases self,
    {
        match self {
            ValueView::Return(inner) => inner.unwrapped(),
            _ => self,
        }
    }

    /// The value as a signal to return: itself where it already is one.
    pub open spec fn returning(self) -> ValueView {
        match self {
            ValueView::Return(_) => self,
            _ => ValueView::Return(Box::new(self)),
        }
    }

    /// The number that has to be converted to text before the value can be
    /// printed, if the value is a number.
    pub open spec fn number(self) -> Option<u64> {
        match self.unwrapped() {
            ValueView::Literal(LiteralView::Number(bits)) => Some(bits),
            _ => None,
        }
    }

    /// The text of the value as `print` writes it: that of the scalar, one
    /// text for all functions, and for a returning value that of the value
    /// returned. `number` is read only for a number.
    pub open spec fn shown(self, number: Seq<char>) -> Seq<char> {
        match self.unwrapped() {
            ValueView::Literal(literal) => literal.shown(number),
            _ => function_text(),
        }
    }
}

/// No value is a `Return` once it is unwrapped, and what is no `Return` is
/// unchanged by it.
pub proof fn unwrapped_is_no_return(value: ValueView)
    ensures
        !(value.unwrapped() is Return),
        !(value is Return) ==> value.unwrapped() == value,
        value.unwrapped().unwrapped() == value.unwrapped(),
    decreases value,
{
    match value {
        ValueView::Return(inner) => unwrapped_is_no_return(*inner),
        _ => {},
    }
}

/// A returning value wraps no returning value twice: unwrapping it gives
/// what unwrapping the value gives.
pub proof fn returning_wraps_once(value: ValueView)
    ensures
        value.returning() is Return,
        value.returning().unwrapped() == value.unwrapped(),
        value.returning().returning() == value.returning(),
{
    reveal_with_fuel(ValueView::unwrapped, 2);
}

/// Whether every function inside the value was declared in one of the
/// first `count` frames.
pub open spec fn value_fits(value: ValueView, count: nat) -> bool
    decreases value,
{
    match value {
        ValueView::Closure(_, _, scope) => scope < count,
        ValueView::Return(inner) => value_fits(*inner, count),
        _ => true,
    }
}

/// A value that fits a number of frames fits every greater number.
pub proof fn value_fits_more_frames(value: ValueView, count: nat, more: nat)
    requires
        value_fits(value, count),
        count <= more,
    ensures
        value_fits(value, more),
    decreases value,
{
    match value {
        ValueView::Return(inner) => value_fits_more_frames(*inner, count, more),
        _ => {},
    }
}

/// Unwrapping and returning keep a value fitting.
pub proof fn wrappers_keep_fitting(value: ValueView, count: nat)
    requires
        value_fits(value, count),
    ensures
        value_fits(value.unwrapped(), count),
        value_fits(value.returning(), count),
    decreases value,
{
    match value {
        ValueView::Return(inner) => wrappers_keep_fitting(*inner, count),
        _ => {},
    }
}

impl<'a> Callable<'a> {
    /// A copy of the callable.
    pub fn clone(&self) -> (copy: Callable<'a>)
        ensures
            Value::Callable(copy)@ == Value::Callable(*self)@,
    {
        match self {
            Callable::Clock => Callable::Clock,
            Callable::Closure(params, body, scope) => Callable::Closure(*params, *body, *scope),
        }
    }
}

impl<'a> Value<'a> {
    /// The value `nil`.
    pub fn nil() -> (value: Value<'a>)
        ensures
            value@ == ValueView::Literal(LiteralView::Nil),
    {
        Value::Literal(Literal::Nil)
    }

    /// A copy of the value.
    pub fn clone(&self) -> (copy: Value<'a>)
        ensures
            copy@ == self@,
        decreases self,
    {
        match self {
            Value::Literal(literal) => Value::Literal(literal.clone()),
            Value::Callable(callable) => Value::Callable(callable.clone()),
            Value::Return(inner) => Value::Return(Box::new(Value::clone(&**inner))),
        }
    }

    /// Whether the value is on its way out of a function.
    pub fn is_return(&self) -> (is: bool)
        ensures
            is == (self@ is Return),
    {
        match self {
            Value::Return(_) => true,
            _ => false,
        }
    }

    /// The value without the `Return` wrappers around it.
    pub fn unwrap(self) -> (inner: Value<'a>)
        ensures
            inner@ == self@.unwrapped(),
            !(inner@ is Return),
        decreases self,
    {
        proof {
            unwrapped_is_no_return(self@);
        }
        match self {
            Value::Return(inner) => (*inner).unwrap(),
            other => other,
        }
    }

    /// The value as a signal to return; a value that is one already is not
    /// wrapped again.
    pub fn into_return(self) -> (signal: Value<'a>)
        ensures
            signal@ == self@.returning(),
    {
        match self {
            Value::Return(inner) => Value::Return(inner),
            other => Value::Return(Box::new(other)),
        }
    }

    /// The number that has to be converted to text before the value can be
    /// printed, if the value is a number.
    pub fn number(&self) -> (number: Option<crate::number::Number>)
        ensures
            match number {
                Some(n) => self@.number() == Some(n.bits),
                None => self@.number() is None,
            },
        decreases self,
    {
        match self {
            Value::Return(inner) => inner.number(),
            Value::Literal(Literal::Number(n)) => Some(*n),
            _ => None,
        }
    }

    /// The text of the value as `print` writes it. `number` is the natural
    /// decimal text of the number, which is read only for a number.
    pub fn to_string(&self, number: &str) -> (text: String)
        ensures
            text@ == self@.shown(number@),
        decreases self,
    {
        match self {
            Value::Return(inner) => inner.to_string(number),
            Value::Literal(literal) => literal.to_string(number),
            Value::Callable(_) => String::from_str("<fn foo>"),
        }
    }
}

} // verus!
