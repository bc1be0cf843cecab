//! What holds of every run.

use vstd::prelude::*;
use crate::evaluate::host::RuntimeError;
use crate::evaluate::kont::Kont;
use crate::evaluate::literal::LiteralView;
use crate::evaluate::semantics::{call, step, steps, ControlView, MachineView};
use crate::evaluate::value::{unwrapped_is_no_return, ValueView};
use crate::parser::Expr;

verus! {

/// `and` with a falsy left side yields that left side, and its right side
/// is dropped without being evaluated.
pub proof fn and_short_circuits<'a>(
    m: MachineView<'a>,
    right: &'a Expr,
    env: usize,
    left: LiteralView,
)
    requires
        m.control == ControlView::Deliver(ValueView::Literal(left)),
        m.stack.len() > 0,
        m.stack.last() == Kont::And(right, env),
        !left.truthy(),
    ensures
        step(m) == (MachineView { stack: m.stack.drop_last(), ..m }),
{
}

/// `or` with a truthy left side yields that left side, and its right side
/// is dropped without being evaluated.
pub proof fn or_short_circuits<'a>(
    m: MachineView<'a>,
    right: &'a Expr,
    env: usize,
    left: LiteralView,
)
    requires
        m.control == ControlView::Deliver(ValueView::Literal(left)),
        m.stack.len() > 0,
        m.stack.last() == Kont::Or(right, env),
        left.truthy(),
    ensures
        step(m) == (MachineView { stack: m.stack.drop_last(), ..m }),
{
}

/// Where `and` and `or` do go on to their right side, its value is the
/// value of the whole.
pub proof fn logical_operators_go_on<'a>(
    m: MachineView<'a>,
    right: &'a Expr,
    env: usize,
    left: LiteralView,
)
    requires
        m.control == ControlView::Deliver(ValueView::Literal(left)),
        m.stack.len() > 0,
    ensures
        m.stack.last() == Kont::And(right, env) && left.truthy() ==> step(m) == (MachineView {
            control: ControlView::Evaluate(*right, env),
            stack: m.stack.drop_last(),
            ..m
        }),
        m.stack.last() == Kont::Or(right, env) && !left.truthy() ==> step(m) == (MachineView {
            control: ControlView::Evaluate(*right, env),
            stack: m.stack.drop_last(),
            ..m
        }),
{
}

/// A function called with another number of arguments than it has
/// parameters fails the run at once: no frame is made and no argument is
/// evaluated.
pub proof fn arity_mismatch_fails<'a>(
    m: MachineView<'a>,
    params: Vec<String>,
    body: Expr,
    scope: nat,
    lists: &'a Vec<Vec<Expr>>,
    index: usize,
    site: usize,
)
    requires
        index < lists@.len(),
        lists@[index as int]@.len() != params@.len(),
    ensures
        call(m, ValueView::Closure(params, body, scope), lists, index, site) == m.fail(
            RuntimeError::Arity(params@.len() as usize, lists@[index as int]@.len() as usize),
        ),
{
}

/// Only the clock and functions can be called.
pub proof fn scalars_cannot_be_called<'a>(
    m: MachineView<'a>,
    callee: ValueView,
    lists: &'a Vec<Vec<Expr>>,
    index: usize,
    site: usize,
)
    requires
        index < lists@.len(),
        callee is Literal || callee is Return,
    ensures
        call(m, callee, lists, index, site) == m.fail(RuntimeError::NotCallable),
{
}

/// No `Return` leaves a call: whatever the body of a function yields, the
/// value that the call hands on is none.
pub proof fn no_return_leaves_a_call<'a>(
    m: MachineView<'a>,
    lists: &'a Vec<Vec<Expr>>,
    next: usize,
    site: usize,
    value: ValueView,
)
    requires
        m.control == ControlView::Deliver(value),
        m.stack.len() > 0,
        m.stack.last() == Kont::CallResult(lists, next, site),
        next >= lists@.len(),
    ensures
        step(m) == (MachineView {
            control: ControlView::Deliver(value.unwrapped()),
            stack: m.stack.drop_last(),
            ..m
        }),
        !(value.unwrapped() is Return),
{
    unwrapped_is_no_return(value);
}

/// A `Return` passes through a block, a `while` and a `for` unchanged: the
/// rest of the block and every further round are dropped.
pub proof fn return_unwinds<'a>(m: MachineView<'a>, value: ValueView)
    requires
        m.control == ControlView::Deliver(value),
        value is Return,
        m.stack.len() > 0,
        m.stack.last() is Block || m.stack.last() is WhileBody || m.stack.last() is ForBody,
    ensures
        step(m) == (MachineView { stack: m.stack.drop_last(), ..m }),
{
}

/// `return` wraps a value once: where the value is a `Return` already, it
/// is handed on as it is.
pub proof fn return_wraps_once<'a>(m: MachineView<'a>, value: ValueView)
    requires
        m.control == ControlView::Deliver(value),
        m.stack.len() > 0,
        m.stack.last() == Kont::<'a>::Return,
    ensures
        step(m).control == ControlView::Deliver(value.returning()),
        value.returning() is Return,
        value.returning().unwrapped() == value.unwrapped(),
{
    crate::evaluate::value::returning_wraps_once(value);
}

/// A value delivered to an empty stack ends the run with that value.
pub proof fn last_value_ends_the_run<'a>(m: MachineView<'a>, value: ValueView)
    requires
        m.control == ControlView::Deliver(value),
        m.stack.len() == 0,
    ensures
        step(m).control == ControlView::Finished(value),
        !step(m).running(),
{
}

/// A run that cannot step by itself is not changed by stepping.
pub proof fn stopped_runs_stay<'a>(m: MachineView<'a>, count: nat)
    requires
        !m.running(),
    ensures
        step(m) == m,
        steps(m, count) == m,
{
}

/// Stepping in two instalments is stepping once for the sum.
pub proof fn steps_compose<'a>(m: MachineView<'a>, first: nat, second: nat)
    ensures
        steps(steps(m, first), second) == steps(m, first + second),
    decreases first,
{
    if first == 0 {
    } else if !m.running() {
        stopped_runs_stay(m, second);
        stopped_runs_stay(m, first + second);
    } else {
        steps_compose(step(m), (first - 1) as nat, second);
    }
}

} // verus!
