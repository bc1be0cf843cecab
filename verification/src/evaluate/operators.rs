//! What the operators do to scalars.

use vstd::prelude::*;
use crate::evaluate::literal::{Literal, LiteralView};
use crate::number::{equal_bits, less_bits, negated_bits, Number};
use crate::parser::{BinaryOperator, UnaryOperator};

verus! {

/// What applying an operator gives: a scalar, a sum for the host to work
/// out, or a mismatch between the operator and its operands.
#[derive(Debug)]
pub enum Applied {
    Value(Literal),
    Ask(BinaryOperator, Number, Number),
    Mismatch,
}

/// `Applied` as a mathematical value.
pub enum AppliedView {
    Value(LiteralView),
    Ask(BinaryOperator, u64, u64),
    Mismatch,
}

impl View for Applied {
    type V = AppliedView;

    open spec fn view(&self) -> AppliedView {
        match self {
            Applied::Value(literal) => AppliedView::Value(literal@),
            Applied::Ask(op, a, b) => AppliedView::Ask(*op, a.bits, b.bits),
            Applied::Mismatch => AppliedView::Mismatch,
        }
    }
}

/// Whether the operator is one of `==` and `!=`.
pub open spec fn tests_equality(op: BinaryOperator) -> bool {
    op == BinaryOperator::EqualEqual || op == BinaryOperator::BangEqual
}

/// What `==` and `!=` give where the operands are equal or not.
pub open spec fn equality(op: BinaryOperator, equal: bool) -> AppliedView {
    AppliedView::Value(
        LiteralView::Boolean(
            if op == BinaryOperator::EqualEqual {
                equal
            } else {
                !equal
            },
        ),
    )
}

/// An operator on two numbers: the four arithmetic operators ask the host,
/// the others compare as doubles compare.
pub open spec fn on_numbers(op: BinaryOperator, a: u64, b: u64) -> AppliedView {
    match op {
        BinaryOperator::Star | BinaryOperator::Slash | BinaryOperator::Plus
        | BinaryOperator::Minus => AppliedView::Ask(op, a, b),
        BinaryOperator::Greater => AppliedView::Value(LiteralView::Boolean(less_bits(b, a))),
        BinaryOperator::GreaterEqual => AppliedView::Value(
            LiteralView::Boolean(less_bits(b, a) || equal_bits(a, b)),
        ),
        BinaryOperator::Less => AppliedView::Value(LiteralView::Boolean(less_bits(a, b))),
        BinaryOperator::LessEqual => AppliedView::Value(
            LiteralView::Boolean(less_bits(a, b) || equal_bits(a, b)),
        ),
        BinaryOperator::EqualEqual => AppliedView::Value(LiteralView::Boolean(equal_bits(a, b))),
        BinaryOperator::BangEqual => AppliedView::Value(LiteralView::Boolean(!equal_bits(a, b))),
    }
}

/// An infix operator on two scalars.
///
/// Two numbers: see `on_numbers`. Two strings: `+` joins them, `==` and
/// `!=` compare the texts. A number and a string are never equal. Two
/// booleans can be tested for equality. Everything else is a mismatch.
pub open spec fn binary(op: BinaryOperator, left: LiteralView, right: LiteralView) -> AppliedView {
    match (left, right) {
        (LiteralView::Number(a), LiteralView::Number(b)) => on_numbers(op, a, b),
        (LiteralView::String(a), LiteralView::String(b)) => if op == BinaryOperator::Plus {
            AppliedView::Value(LiteralView::String(a + b))
        } else if tests_equality(op) {
            equality(op, a == b)
        } else {
            AppliedView::Mismatch
        },
        (LiteralView::Number(_), LiteralView::String(_))
        | (LiteralView::String(_), LiteralView::Number(_)) => if tests_equality(op) {
            equality(op, false)
        } else {
            AppliedView::Mismatch
        },
        (LiteralView::Boolean(a), LiteralView::Boolean(b)) => if tests_equality(op) {
            equality(op, a == b)
        } else {
            AppliedView::Mismatch
        },
        _ => AppliedView::Mismatch,
    }
}

/// A prefix operator on a scalar: `!` negates its truthiness, `-` negates a
/// number and fits nothing else.
pub open spec fn unary(op: UnaryOperator, operand: LiteralView) -> Option<LiteralView> {
    match op {
        UnaryOperator::Bang => Some(LiteralView::Boolean(!operand.truthy())),
        UnaryOperator::Minus => match operand {
            LiteralView::Number(bits) => Some(LiteralView::Number(negated_bits(bits))),
            _ => None,
        },
    }
}

fn compare(op: BinaryOperator, equal: bool) -> (applied: Applied)
    ensures
        applied@ == equality(op, equal),
{
    match op {
        BinaryOperator::EqualEqual => Applied::Value(Literal::Boolean(equal)),
        _ => Applied::Value(Literal::Boolean(!equal)),
    }
}

fn is_equality(op: BinaryOperator) -> (is: bool)
    ensures
        is == tests_equality(op),
{
    match op {
        BinaryOperator::EqualEqual => true,
        BinaryOperator::BangEqual => true,
        _ => false,
    }
}

fn apply_to_numbers(op: BinaryOperator, a: &Number, b: &Number) -> (applied: Applied)
    ensures
        applied@ == on_numbers(op, a.bits, b.bits),
{
    match op {
        BinaryOperator::Star => Applied::Ask(op, *a, *b),
        BinaryOperator::Slash => Applied::Ask(op, *a, *b),
        BinaryOperator::Plus => Applied::Ask(op, *a, *b),
        BinaryOperator::Minus => Applied::Ask(op, *a, *b),
        BinaryOperator::Greater => Applied::Value(Literal::Boolean(a.greater_than(b))),
        BinaryOperator::GreaterEqual => Applied::Value(Literal::Boolean(a.greater_or_equal(b))),
        BinaryOperator::Less => Applied::Value(Literal::Boolean(a.less_than(b))),
        BinaryOperator::LessEqual => Applied::Value(Literal::Boolean(a.less_or_equal(b))),
        BinaryOperator::EqualEqual => Applied::Value(Literal::Boolean(a.equals(b))),
        BinaryOperator::BangEqual => Applied::Value(Literal::Boolean(!a.equals(b))),
    }
}

/// Applies an infix operator to two scalars.
pub fn apply_binary(op: BinaryOperator, left: &Literal, right: &Literal) -> (applied: Applied)
    ensures
        applied@ == binary(op, left@, right@),
{
    match (left, right) {
        (Literal::Number(a), Literal::Number(b)) => apply_to_numbers(op, a, b),
        (Literal::String(a), Literal::String(b)) => {
            if op == BinaryOperator::Plus {
                let mut joined = a.clone();
                joined.append(b.as_str());
                Applied::Value(Literal::String(joined))
            } else if is_equality(op) {
                compare(op, *a == *b)
            } else {
                Applied::Mismatch
            }
        },
        (Literal::Number(_), Literal::String(_)) => {
            if is_equality(op) {
                compare(op, false)
            } else {
                Applied::Mismatch
            }
        },
        (Literal::String(_), Literal::Number(_)) => {
            if is_equality(op) {
                compare(op, false)
            } else {
                Applied::Mismatch
            }
        },
        (Literal::Boolean(a), Literal::Boolean(b)) => {
            if is_equality(op) {
                compare(op, *a == *b)
            } else {
                Applied::Mismatch
            }
        },
        _ => Applied::Mismatch,
    }
}

/// Applies a prefix operator to a scalar; `None` where it does not fit.
pub fn apply_unary(op: UnaryOperator, operand: &Literal) -> (applied: Option<Literal>)
    ensures
        match applied {
            Some(literal) => unary(op, operand@) == Some(literal@),
            None => unary(op, operand@) is None,
        },
{
    match op {
        UnaryOperator::Bang => Some(Literal::Boolean(!operand.as_bool())),
        UnaryOperator::Minus => match operand {
            Literal::Number(number) => Some(Literal::Number(number.negate())),
            _ => None,
        },
    }
}

/// The host is asked for nothing but arithmetic: a request carries the
/// operator applied, which is one of `+`, `-`, `*` and `/`, and the two
/// numbers it was applied to.
pub proof fn only_arithmetic_is_asked(
    op: BinaryOperator,
    left: LiteralView,
    right: LiteralView,
    asked: BinaryOperator,
    a: u64,
    b: u64,
)
    requires
        binary(op, left, right) == AppliedView::Ask(asked, a, b),
    ensures
        asked == op,
        left == LiteralView::Number(a),
        right == LiteralView::Number(b),
        op == BinaryOperator::Plus || op == BinaryOperator::Minus || op == BinaryOperator::Star
            || op == BinaryOperator::Slash,
{
}

/// A number and a string are never equal, whichever stands first: `==`
/// gives false and `!=` gives true.
pub proof fn number_and_string_never_equal(a: u64, s: Seq<char>)
    ensures
        binary(BinaryOperator::EqualEqual, LiteralView::Number(a), LiteralView::String(s))
            == AppliedView::Value(LiteralView::Boolean(false)),
        binary(BinaryOperator::EqualEqual, LiteralView::String(s), LiteralView::Number(a))
            == AppliedView::Value(LiteralView::Boolean(false)),
        binary(BinaryOperator::BangEqual, LiteralView::Number(a), LiteralView::String(s))
            == AppliedView::Value(LiteralView::Boolean(true)),
        binary(BinaryOperator::BangEqual, LiteralView::String(s), LiteralView::Number(a))
            == AppliedView::Value(LiteralView::Boolean(true)),
{
}

/// `!` gives the opposite of the truthiness: true for zero and for `nil`,
/// false for every string, also the empty one.
pub proof fn bang_negates_truthiness(operand: LiteralView)
    ensures
        unary(UnaryOperator::Bang, operand) == Some(LiteralView::Boolean(!operand.truthy())),
        unary(UnaryOperator::Bang, LiteralView::Number(0)) == Some(LiteralView::Boolean(true)),
        unary(UnaryOperator::Bang, LiteralView::Nil) == Some(LiteralView::Boolean(true)),
        forall|s: Seq<char>|
            #[trigger] unary(UnaryOperator::Bang, LiteralView::String(s)) == Some(
                LiteralView::Boolean(false),
            ),
{
}

} // verus!
