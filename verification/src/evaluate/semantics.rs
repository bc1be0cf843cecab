//! The meaning of a program: the states of a run and the step from one
//! state to the next.

use vstd::prelude::*;
use crate::evaluate::host::{ReplyView, RequestView, RuntimeError};
use crate::evaluate::kont::{optional, Call, Kont, Loop};
use crate::evaluate::literal::LiteralView;
use crate::evaluate::operators::{binary, unary, AppliedView};
use crate::evaluate::scope::{assigned, defined, entered, lookup, resolve, FrameView};
use crate::evaluate::value::ValueView;
use crate::parser::Expr;
use crate::utils::padded;

verus! {

/// What a run is doing.
pub enum ControlView {
    /// About to evaluate a node in a frame.
    Evaluate(Expr, usize),
    /// About to hand a value to the topmost continuation.
    Deliver(ValueView),
    /// Waiting for the host.
    Awaiting(RequestView),
    /// Done, with the value of the program.
    Finished(ValueView),
    /// Failed.
    Failed(RuntimeError),
}

/// The state of a run.
pub struct MachineView<'a> {
    pub control: ControlView,
    /// The continuations, the topmost last.
    pub stack: Seq<Kont<'a>>,
    /// The left operands kept by the infix operators under way, the latest
    /// last.
    pub operands: Seq<LiteralView>,
    /// The frames.
    pub frames: Seq<FrameView>,
}

/// The value `nil`.
pub open spec fn nil() -> ValueView {
    ValueView::Literal(LiteralView::Nil)
}

/// A boolean as a value.
pub open spec fn boolean(b: bool) -> ValueView {
    ValueView::Literal(LiteralView::Boolean(b))
}

impl<'a> MachineView<'a> {
    /// The state of a run that is about to evaluate `program` in the global
    /// frame of `frames`.
    pub open spec fn start(program: Expr, frames: Seq<FrameView>) -> MachineView<'a> {
        MachineView {
            control: ControlView::Evaluate(program, 0),
            stack: Seq::empty(),
            operands: Seq::empty(),
            frames,
        }
    }

    /// Whether the run can take a step by itself.
    pub open spec fn running(self) -> bool {
        self.control is Evaluate || self.control is Deliver
    }

    /// The state with the value `value` to deliver.
    pub open spec fn deliver(self, value: ValueView) -> MachineView<'a> {
        MachineView { control: ControlView::Deliver(value), ..self }
    }

    /// The state after the failure `error`.
    pub open spec fn fail(self, error: RuntimeError) -> MachineView<'a> {
        MachineView { control: ControlView::Failed(error), ..self }
    }

    /// The state that waits for the host to answer `request`.
    pub open spec fn ask(self, request: RequestView) -> MachineView<'a> {
        MachineView { control: ControlView::Awaiting(request), ..self }
    }

    /// The state about to evaluate `expr` in the frame `env`.
    pub open spec fn go(self, expr: Expr, env: usize) -> MachineView<'a> {
        MachineView { control: ControlView::Evaluate(expr, env), ..self }
    }

    /// The state about to evaluate `expr` in the frame `env`, with `kont`
    /// to take its value.
    pub open spec fn defer(self, kont: Kont<'a>, expr: Expr, env: usize) -> MachineView<'a> {
        MachineView {
            control: ControlView::Evaluate(expr, env),
            stack: self.stack.push(kont),
            ..self
        }
    }

    /// The state with other frames.
    pub open spec fn with_frames(self, frames: Seq<FrameView>) -> MachineView<'a> {
        MachineView { frames, ..self }
    }

    /// The state with a new frame under the frame `parent`.
    pub open spec fn enter(self, parent: usize) -> MachineView<'a> {
        self.with_frames(entered(self.frames, parent as nat))
    }
}

/// Goes to the condition of a `for`, or, where it has none, straight to
/// its body: without a condition the loop never ends by itself.
pub open spec fn enter_loop<'a>(m: MachineView<'a>, l: Loop<'a>) -> MachineView<'a> {
    match l.condition {
        Some(condition) => m.defer(Kont::ForCondition(l), *condition, l.scope),
        None => m.defer(Kont::ForBody(l), *l.body, l.scope),
    }
}

/// Calls `callee` with the argument list `lists[index]`; the call stands in
/// the frame `site`.
///
/// The built-in clock asks the host for the time. A function fails unless
/// it gets as many arguments as it has parameters; then a new frame is made
/// under the frame in which the function was declared, and the arguments
/// are evaluated one after the other in the frame of the call. Anything
/// else cannot be called.
pub open spec fn call<'a>(
    m: MachineView<'a>,
    callee: ValueView,
    lists: &'a Vec<Vec<Expr>>,
    index: usize,
    site: usize,
) -> MachineView<'a> {
    if index >= lists@.len() {
        m.deliver(callee)
    } else {
        let after = Kont::CallResult(lists, (index + 1) as usize, site);
        match callee {
            ValueView::Clock => MachineView {
                control: ControlView::Awaiting(RequestView::Clock),
                stack: m.stack.push(after),
                ..m
            },
            ValueView::Closure(params, body, scope) => {
                let arguments = lists@[index as int];
                let frame = m.frames.len() as usize;
                if arguments@.len() != params@.len() {
                    m.fail(RuntimeError::Arity(params@.len() as usize, arguments@.len() as usize))
                } else if arguments@.len() == 0 {
                    m.with_frames(entered(m.frames, scope)).defer(after, body, frame)
                } else {
                    m.with_frames(entered(m.frames, scope)).defer(
                        Kont::Argument(
                            Call {
                                params: &params,
                                body: &body,
                                arguments: &arguments,
                                index: 0,
                                frame,
                                lists,
                                next: (index + 1) as usize,
                                site,
                            },
                        ),
                        arguments@[0],
                        site,
                    )
                }
            },
            _ => m.fail(RuntimeError::NotCallable),
        }
    }
}

/// Binds the value of an argument to its parameter in the new frame, and
/// goes on to the next argument or, behind the last, to the body.
pub open spec fn bind<'a>(m: MachineView<'a>, c: Call<'a>, value: ValueView) -> MachineView<'a> {
    let bound = if c.index < c.params@.len() {
        m.with_frames(defined(m.frames, c.frame as nat, c.params@[c.index as int]@, value))
    } else {
        m
    };
    if c.index + 1 < c.arguments@.len() {
        bound.defer(
            Kont::Argument(Call { index: (c.index + 1) as usize, ..c }),
            c.arguments@[c.index + 1],
            c.site,
        )
    } else {
        bound.defer(Kont::CallResult(c.lists, c.next, c.site), *c.body, c.frame)
    }
}

/// The first step of evaluating `expr` in the frame `env`.
pub open spec fn begin<'a>(m: MachineView<'a>, expr: Expr, env: usize) -> MachineView<'a> {
    match expr {
        Expr::True => m.deliver(boolean(true)),
        Expr::False => m.deliver(boolean(false)),
        Expr::Nil => m.deliver(nil()),
        Expr::Semicolon => m.deliver(nil()),
        Expr::String(text) => m.deliver(ValueView::Literal(LiteralView::String(text@))),
        Expr::Number(written, _) => m.ask(RequestView::Parse(written@)),
        Expr::Unary(op, operand) => m.defer(Kont::Unary(op), *operand, env),
        Expr::Binary(op, left, right) => m.defer(Kont::BinaryLeft(op, &*right, env), *left, env),
        Expr::Or(left, right) => m.defer(Kont::Or(&*right, env), *left, env),
        Expr::And(left, right) => m.defer(Kont::And(&*right, env), *left, env),
        Expr::Grouping(inner) => m.go(*inner, env),
        Expr::Identifier(name) => match lookup(m.frames, env as nat, name@) {
            Some(value) => m.deliver(value),
            None => m.fail(RuntimeError::UndefinedVariable),
        },
        Expr::Assignment(name, value, declares) => m.defer(
            Kont::Assign(&name, declares, env),
            *value,
            env,
        ),
        Expr::Print(value) => m.defer(Kont::Print, *value, env),
        Expr::Statements(exprs) => if exprs@.len() == 0 {
            m.deliver(nil())
        } else {
            let frame = m.frames.len() as usize;
            m.enter(env).defer(Kont::Block(&exprs, 1, frame), exprs@[0], frame)
        },
        Expr::IfElse(condition, taken, otherwise) => m.defer(
            Kont::If(&*taken, optional(otherwise), env),
            *condition,
            env,
        ),
        Expr::While(condition, body) => m.defer(
            Kont::WhileCondition(&*condition, &*body, env),
            *condition,
            env,
        ),
        Expr::For(initial, condition, increment, body) => {
            let l = Loop {
                condition: optional(condition),
                increment: optional(increment),
                body: &*body,
                scope: env,
            };
            match initial {
                Some(initial) => m.defer(Kont::ForInit(l), *initial, env),
                None => enter_loop(m, l),
            }
        },
        Expr::Callable(name, lists) => match lookup(m.frames, env as nat, name@) {
            Some(callee) => if lists@.len() == 0 {
                m.deliver(nil())
            } else {
                call(m, callee, &lists, 0, env)
            },
            None => m.fail(RuntimeError::UndefinedVariable),
        },
        Expr::Fun(name, params, body) => m.with_frames(
            defined(m.frames, env as nat, name@, ValueView::Closure(params, *body, env as nat)),
        ).deliver(nil()),
        Expr::Return(value) => m.defer(Kont::Return, *value, env),
    }
}

/// Applies the infix operator `op` to the operand kept last and `right`.
pub open spec fn combine<'a>(
    m: MachineView<'a>,
    op: crate::parser::BinaryOperator,
    right: LiteralView,
) -> MachineView<'a> {
    if m.operands.len() == 0 {
        m.fail(RuntimeError::TypeMismatch)
    } else {
        let rest = MachineView { operands: m.operands.drop_last(), ..m };
        match binary(op, m.operands.last(), right) {
            AppliedView::Value(value) => rest.deliver(ValueView::Literal(value)),
            AppliedView::Ask(op, a, b) => rest.ask(RequestView::Arithmetic(op, a, b)),
            AppliedView::Mismatch => rest.fail(RuntimeError::TypeMismatch),
        }
    }
}

/// Hands the scalar `value` to the continuation `kont`, which needs one.
pub open spec fn resume_with_scalar<'a>(
    m: MachineView<'a>,
    kont: Kont<'a>,
    value: LiteralView,
) -> MachineView<'a> {
    let same = ValueView::Literal(value);
    match kont {
        Kont::Unary(op) => match unary(op, value) {
            Some(result) => m.deliver(ValueView::Literal(result)),
            None => m.fail(RuntimeError::TypeMismatch),
        },
        Kont::BinaryLeft(op, right, env) => MachineView {
            operands: m.operands.push(value),
            ..m
        }.defer(Kont::BinaryRight(op), *right, env),
        Kont::BinaryRight(op) => combine(m, op, value),
        Kont::Or(right, env) => if value.truthy() {
            m.deliver(same)
        } else {
            m.go(*right, env)
        },
        Kont::And(right, env) => if !value.truthy() {
            m.deliver(same)
        } else {
            m.go(*right, env)
        },
        Kont::If(taken, otherwise, env) => if value.truthy() {
            m.go(*taken, env)
        } else {
            match otherwise {
                Some(otherwise) => m.go(*otherwise, env),
                None => m.deliver(nil()),
            }
        },
        Kont::WhileCondition(condition, body, env) => if value.truthy() {
            m.defer(Kont::WhileBody(condition, body, env), *body, env)
        } else {
            m.deliver(nil())
        },
        Kont::ForCondition(l) => if value.truthy() {
            m.defer(Kont::ForBody(l), *l.body, l.scope)
        } else {
            m.deliver(nil())
        },
        _ => m,
    }
}

/// Whether the continuation takes a scalar and nothing else: an operator,
/// `or`, `and`, and the conditions of `if`, `while` and `for`.
pub open spec fn needs_scalar(kont: Kont<'_>) -> bool {
    kont is Unary || kont is BinaryLeft || kont is BinaryRight || kont is Or || kont is And
        || kont is If || kont is WhileCondition || kont is ForCondition
}

/// Hands `value` to the continuation `kont`, which was taken off the stack
/// of `m`.
pub open spec fn resume<'a>(m: MachineView<'a>, kont: Kont<'a>, value: ValueView) -> MachineView<
    'a,
> {
    if needs_scalar(kont) {
        match value {
            ValueView::Literal(scalar) => resume_with_scalar(m, kont, scalar),
            _ => m.fail(RuntimeError::TypeMismatch),
        }
    } else {
        match kont {
            Kont::Assign(name, declares, env) => if declares {
                m.with_frames(defined(m.frames, env as nat, name@, value)).deliver(value)
            } else if resolve(m.frames, env as nat, name@) is Some {
                m.with_frames(assigned(m.frames, env as nat, name@, value)).deliver(value)
            } else {
                m.fail(RuntimeError::UndefinedVariable)
            },
            Kont::Print => match value.number() {
                Some(bits) => m.ask(RequestView::Format(bits)),
                None => m.ask(RequestView::Print(value.shown(Seq::empty()))),
            },
            Kont::Block(exprs, next, frame) => if value is Return {
                m.deliver(value)
            } else if next < exprs@.len() {
                m.defer(Kont::Block(exprs, (next + 1) as usize, frame), exprs@[next as int], frame)
            } else {
                m.deliver(value)
            },
            Kont::WhileBody(condition, body, env) => if value is Return {
                m.deliver(value)
            } else {
                m.defer(Kont::WhileCondition(condition, body, env), *condition, env)
            },
            Kont::ForInit(l) => enter_loop(m, l),
            Kont::ForBody(l) => if value is Return {
                m.deliver(value)
            } else {
                match l.increment {
                    Some(increment) => m.defer(Kont::ForIncrement(l), *increment, l.scope),
                    None => enter_loop(m, l),
                }
            },
            Kont::ForIncrement(l) => enter_loop(m, l),
            Kont::Argument(c) => bind(m, c, value),
            Kont::CallResult(lists, next, site) => if next < lists@.len() {
                call(m, value.unwrapped(), lists, next, site)
            } else {
                m.deliver(value.unwrapped())
            },
            Kont::Return => m.deliver(value.returning()),
            _ => m,
        }
    }
}

/// One step of a run. A run that waits for the host, is done or has failed
/// stays as it is.
pub open spec fn step<'a>(m: MachineView<'a>) -> MachineView<'a> {
    match m.control {
        ControlView::Evaluate(expr, env) => begin(m, expr, env),
        ControlView::Deliver(value) => if m.stack.len() == 0 {
            MachineView { control: ControlView::Finished(value), ..m }
        } else {
            resume(MachineView { stack: m.stack.drop_last(), ..m }, m.stack.last(), value)
        },
        _ => m,
    }
}

/// Up to `count` steps: the run stops early where it cannot step by itself.
pub open spec fn steps<'a>(m: MachineView<'a>, count: nat) -> MachineView<'a>
    decreases count,
{
    if count == 0 || !m.running() {
        m
    } else {
        steps(step(m), (count - 1) as nat)
    }
}

/// Whether `reply` answers what the run waits for.
pub open spec fn answers(control: ControlView, reply: ReplyView) -> bool {
    match (control, reply) {
        (ControlView::Awaiting(RequestView::Parse(_)), ReplyView::Number(_)) => true,
        (ControlView::Awaiting(RequestView::Parse(_)), ReplyView::Invalid) => true,
        (ControlView::Awaiting(RequestView::Arithmetic(_, _, _)), ReplyView::Number(_)) => true,
        (ControlView::Awaiting(RequestView::Clock), ReplyView::Number(_)) => true,
        (ControlView::Awaiting(RequestView::Format(_)), ReplyView::Text(_)) => true,
        (ControlView::Awaiting(RequestView::Print(_)), ReplyView::Done) => true,
        _ => false,
    }
}

/// The state after the host's reply. A number asked for is delivered; a
/// literal that is no number fails the run; the text of a number gets its
/// decimal point and is to be printed; a printed line yields `nil`. A
/// reply that does not answer the request changes nothing.
pub open spec fn answered<'a>(m: MachineView<'a>, reply: ReplyView) -> MachineView<'a> {
    if !answers(m.control, reply) {
        m
    } else {
        match reply {
            ReplyView::Number(bits) => m.deliver(ValueView::Literal(LiteralView::Number(bits))),
            ReplyView::Invalid => m.fail(RuntimeError::MalformedNumber),
            ReplyView::Text(text) => m.ask(RequestView::Print(padded(text))),
            ReplyView::Done => m.deliver(nil()),
        }
    }
}

} // verus!
