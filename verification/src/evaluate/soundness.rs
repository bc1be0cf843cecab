//! What stays true of a run from its start on.

use vstd::prelude::*;
use crate::evaluate::host::ReplyView;
use crate::evaluate::kont::{Call, Kont, Loop};
use crate::evaluate::scope::{
    assigning_keeps_frames_fitting,
    defining_keeps_frames_fitting,
    entered,
    entering_keeps_frames_fitting,
    found_values_fit,
    frames_fit,
    lookup,
    FrameView,
};
use crate::evaluate::semantics::{
    answered,
    begin,
    bind,
    call,
    combine,
    enter_loop,
    resume,
    resume_with_scalar,
    step,
    steps,
    ControlView,
    MachineView,
};
use crate::evaluate::literal::LiteralView;
use crate::evaluate::value::{value_fits, wrappers_keep_fitting, ValueView};
use crate::parser::Expr;

verus! {

/// Whether a call under way fits: its frames exist, it has as many
/// arguments as parameters, and the argument under evaluation is one of
/// them.
pub open spec fn call_fits(c: Call<'_>, count: nat) -> bool {
    &&& c.frame < count
    &&& c.site < count
    &&& c.index < c.arguments@.len()
    &&& c.arguments@.len() == c.params@.len()
}

/// Whether the frames that a continuation names exist.
pub open spec fn kont_fits(kont: Kont<'_>, count: nat) -> bool {
    match kont {
        Kont::BinaryLeft(_, _, env) => env < count,
        Kont::Or(_, env) => env < count,
        Kont::And(_, env) => env < count,
        Kont::Assign(_, _, env) => env < count,
        Kont::Block(_, _, frame) => frame < count,
        Kont::If(_, _, env) => env < count,
        Kont::WhileCondition(_, _, env) => env < count,
        Kont::WhileBody(_, _, env) => env < count,
        Kont::ForInit(l) => l.scope < count,
        Kont::ForCondition(l) => l.scope < count,
        Kont::ForBody(l) => l.scope < count,
        Kont::ForIncrement(l) => l.scope < count,
        Kont::Argument(c) => call_fits(c, count),
        Kont::CallResult(_, _, site) => site < count,
        _ => true,
    }
}

/// Whether what the control names exists.
pub open spec fn control_fits(control: ControlView, count: nat) -> bool {
    match control {
        ControlView::Evaluate(_, env) => env < count,
        ControlView::Deliver(value) => value_fits(value, count),
        ControlView::Finished(value) => value_fits(value, count),
        _ => true,
    }
}

/// How many infix operators on the stack hold their left operand and wait
/// for the right one.
pub open spec fn waiting_operators(stack: Seq<Kont<'_>>) -> nat
    decreases stack.len(),
{
    if stack.len() == 0 {
        0
    } else {
        waiting_operators(stack.drop_last()) + if stack.last() is BinaryRight {
            1nat
        } else {
            0nat
        }
    }
}

/// Whether the frames and the stacks of a run hang together: the global
/// frame exists, the frames fit, every frame that a continuation names
/// exists, and the operands kept are as many as the infix operators that
/// wait for their right side, and `extra` more.
pub open spec fn settled(m: MachineView<'_>, extra: nat) -> bool {
    &&& 0 < m.frames.len()
    &&& frames_fit(m.frames)
    &&& forall|i: int| 0 <= i < m.stack.len() ==> kont_fits(#[trigger] m.stack[i], m.frames.len())
    &&& m.operands.len() == waiting_operators(m.stack) + extra
}

/// The invariant of a run: unless it has failed, its frames and stacks
/// hang together and what its control names exists.
pub open spec fn sound(m: MachineView<'_>) -> bool {
    m.control is Failed || (settled(m, 0) && control_fits(m.control, m.frames.len()))
}

/// A continuation that fits a number of frames fits every greater number.
pub proof fn kont_fits_more_frames(kont: Kont<'_>, count: nat, more: nat)
    requires
        kont_fits(kont, count),
        count <= more,
    ensures
        kont_fits(kont, more),
{
}

/// A continuation put on the stack counts as a waiting operator exactly if
/// it is one.
pub proof fn waiting_operators_of_push<'a>(stack: Seq<Kont<'a>>, kont: Kont<'a>)
    ensures
        waiting_operators(stack.push(kont)) == waiting_operators(stack) + if kont
            is BinaryRight {
            1nat
        } else {
            0nat
        },
{
    assert(stack.push(kont).drop_last() =~= stack);
}

/// A sound run stays sound when it turns to a node with a continuation to
/// take the value.
pub proof fn deferring_is_sound<'a>(
    m: MachineView<'a>,
    extra: nat,
    kont: Kont<'a>,
    expr: Expr,
    env: usize,
)
    requires
        settled(m, extra),
        kont_fits(kont, m.frames.len()),
        env < m.frames.len(),
        extra + waiting_operators(m.stack) == waiting_operators(m.stack.push(kont)),
    ensures
        sound(m.defer(kont, expr, env)),
{
}

/// Entering a loop keeps a run sound.
pub proof fn entering_a_loop_is_sound<'a>(m: MachineView<'a>, l: Loop<'a>)
    requires
        settled(m, 0),
        l.scope < m.frames.len(),
    ensures
        sound(enter_loop(m, l)),
        enter_loop(m, l).frames == m.frames,
{
    waiting_operators_of_push(m.stack, Kont::ForCondition(l));
    waiting_operators_of_push(m.stack, Kont::ForBody(l));
}

/// A call keeps a run sound, and makes at most one frame.
pub proof fn calling_is_sound<'a>(
    m: MachineView<'a>,
    callee: ValueView,
    lists: &'a Vec<Vec<Expr>>,
    index: usize,
    site: usize,
)
    requires
        settled(m, 0),
        value_fits(callee, m.frames.len()),
        site < m.frames.len(),
    ensures
        sound(call(m, callee, lists, index, site)),
        m.frames.len() <= call(m, callee, lists, index, site).frames.len() <= m.frames.len() + 1,
{
    if index < lists@.len() {
        let after = Kont::CallResult(lists, (index + 1) as usize, site);
        waiting_operators_of_push(m.stack, after);
        match callee {
            ValueView::Closure(params, body, scope) => {
                let arguments = lists@[index as int];
                if arguments@.len() == params@.len() {
                    entering_keeps_frames_fitting(m.frames, scope);
                    let inside = m.with_frames(entered(m.frames, scope));
                    let frame = m.frames.len() as usize;
                    assert forall|i: int| 0 <= i < inside.stack.len() implies kont_fits(
                        #[trigger] inside.stack[i],
                        inside.frames.len(),
                    ) by {
                        kont_fits_more_frames(m.stack[i], m.frames.len(), inside.frames.len());
                    }
                    if arguments@.len() > 0 {
                        let c = Call {
                            params: &params,
                            body: &body,
                            arguments: &arguments,
                            index: 0,
                            frame,
                            lists,
                            next: (index + 1) as usize,
                            site,
                        };
                        waiting_operators_of_push(m.stack, Kont::Argument(c));
                    }
                }
            },
            _ => {},
        }
    }
}

/// Binding an argument keeps a run sound.
pub proof fn binding_is_sound<'a>(m: MachineView<'a>, c: Call<'a>, value: ValueView)
    requires
        settled(m, 0),
        call_fits(c, m.frames.len()),
        value_fits(value, m.frames.len()),
    ensures
        sound(bind(m, c, value)),
        bind(m, c, value).frames.len() == m.frames.len(),
{
    defining_keeps_frames_fitting(m.frames, c.frame as nat, c.params@[c.index as int]@, value);
    waiting_operators_of_push(
        m.stack,
        Kont::Argument(Call { index: (c.index + 1) as usize, ..c }),
    );
    waiting_operators_of_push(m.stack, Kont::CallResult(c.lists, c.next, c.site));
}

/// The first step of evaluating a node keeps a run sound, and makes at most
/// one frame.
pub proof fn beginning_is_sound<'a>(m: MachineView<'a>, expr: Expr, env: usize)
    requires
        settled(m, 0),
        env < m.frames.len(),
    ensures
        sound(begin(m, expr, env)),
        m.frames.len() <= begin(m, expr, env).frames.len() <= m.frames.len() + 1,
{
    match expr {
        Expr::Unary(op, operand) => {
            waiting_operators_of_push(m.stack, Kont::Unary(op));
        },
        Expr::Binary(op, left, right) => {
            waiting_operators_of_push(m.stack, Kont::BinaryLeft(op, &*right, env));
        },
        Expr::Or(left, right) => {
            waiting_operators_of_push(m.stack, Kont::Or(&*right, env));
        },
        Expr::And(left, right) => {
            waiting_operators_of_push(m.stack, Kont::And(&*right, env));
        },
        Expr::Identifier(name) => {
            found_values_fit(m.frames, env as nat, name@);
        },
        Expr::Assignment(name, value, declares) => {
            waiting_operators_of_push(m.stack, Kont::Assign(&name, declares, env));
        },
        Expr::Print(value) => {
            waiting_operators_of_push(m.stack, Kont::Print);
        },
        Expr::Statements(exprs) => {
            if exprs@.len() > 0 {
                let frame = m.frames.len() as usize;
                entering_keeps_frames_fitting(m.frames, env as nat);
                let inside = m.enter(env);
                assert forall|i: int| 0 <= i < inside.stack.len() implies kont_fits(
                    #[trigger] inside.stack[i],
                    inside.frames.len(),
                ) by {
                    kont_fits_more_frames(m.stack[i], m.frames.len(), inside.frames.len());
                }
                waiting_operators_of_push(m.stack, Kont::Block(&exprs, 1, frame));
            }
        },
        Expr::IfElse(condition, taken, otherwise) => {
            waiting_operators_of_push(
                m.stack,
                Kont::If(&*taken, crate::evaluate::kont::optional(otherwise), env),
            );
        },
        Expr::While(condition, body) => {
            waiting_operators_of_push(m.stack, Kont::WhileCondition(&*condition, &*body, env));
        },
        Expr::For(initial, condition, increment, body) => {
            let l = Loop {
                condition: crate::evaluate::kont::optional(condition),
                increment: crate::evaluate::kont::optional(increment),
                body: &*body,
                scope: env,
            };
            waiting_operators_of_push(m.stack, Kont::ForInit(l));
            entering_a_loop_is_sound(m, l);
        },
        Expr::Callable(name, lists) => {
            found_values_fit(m.frames, env as nat, name@);
            match lookup(m.frames, env as nat, name@) {
                Some(callee) => {
                    if lists@.len() > 0 {
                        calling_is_sound(m, callee, &lists, 0, env);
                    }
                },
                None => {},
            }
        },
        Expr::Fun(name, params, body) => {
            defining_keeps_frames_fitting(
                m.frames,
                env as nat,
                name@,
                ValueView::Closure(params, *body, env as nat),
            );
        },
        Expr::Return(value) => {
            waiting_operators_of_push(m.stack, Kont::Return);
        },
        _ => {},
    }
}

/// Applying an infix operator keeps a run sound.
pub proof fn combining_is_sound<'a>(
    m: MachineView<'a>,
    op: crate::parser::BinaryOperator,
    right: LiteralView,
)
    requires
        settled(m, 1),
    ensures
        sound(combine(m, op, right)),
        combine(m, op, right).frames == m.frames,
{
}

/// Handing a scalar to a continuation keeps a run sound.
pub proof fn resuming_with_a_scalar_is_sound<'a>(
    m: MachineView<'a>,
    kont: Kont<'a>,
    value: LiteralView,
)
    requires
        crate::evaluate::semantics::needs_scalar(kont),
        kont_fits(kont, m.frames.len()),
        settled(
            m,
            if kont is BinaryRight {
                1
            } else {
                0
            },
        ),
    ensures
        sound(resume_with_scalar(m, kont, value)),
        resume_with_scalar(m, kont, value).frames == m.frames,
{
    match kont {
        Kont::BinaryLeft(op, right, env) => {
            waiting_operators_of_push(m.stack, Kont::BinaryRight(op));
        },
        Kont::BinaryRight(op) => {
            combining_is_sound(m, op, value);
        },
        Kont::WhileCondition(condition, body, env) => {
            waiting_operators_of_push(m.stack, Kont::WhileBody(condition, body, env));
        },
        Kont::ForCondition(l) => {
            waiting_operators_of_push(m.stack, Kont::ForBody(l));
        },
        _ => {},
    }
}

/// Handing a value to a continuation keeps a run sound, and makes at most
/// one frame.
pub proof fn resuming_is_sound<'a>(m: MachineView<'a>, kont: Kont<'a>, value: ValueView)
    requires
        kont_fits(kont, m.frames.len()),
        value_fits(value, m.frames.len()),
        settled(
            m,
            if kont is BinaryRight {
                1
            } else {
                0
            },
        ),
    ensures
        sound(resume(m, kont, value)),
        m.frames.len() <= resume(m, kont, value).frames.len() <= m.frames.len() + 1,
{
    wrappers_keep_fitting(value, m.frames.len());
    if crate::evaluate::semantics::needs_scalar(kont) {
        match value {
            ValueView::Literal(scalar) => resuming_with_a_scalar_is_sound(m, kont, scalar),
            _ => {},
        }
    } else {
        match kont {
            Kont::Assign(name, declares, env) => {
                defining_keeps_frames_fitting(m.frames, env as nat, name@, value);
                assigning_keeps_frames_fitting(m.frames, env as nat, name@, value);
            },
            Kont::Block(exprs, next, frame) => {
                waiting_operators_of_push(
                    m.stack,
                    Kont::Block(exprs, (next + 1) as usize, frame),
                );
            },
            Kont::WhileBody(condition, body, env) => {
                waiting_operators_of_push(m.stack, Kont::WhileCondition(condition, body, env));
            },
            Kont::ForInit(l) => entering_a_loop_is_sound(m, l),
            Kont::ForBody(l) => {
                waiting_operators_of_push(m.stack, Kont::ForIncrement(l));
                entering_a_loop_is_sound(m, l);
            },
            Kont::ForIncrement(l) => entering_a_loop_is_sound(m, l),
            Kont::Argument(c) => binding_is_sound(m, c, value),
            Kont::CallResult(lists, next, site) => {
                calling_is_sound(m, value.unwrapped(), lists, next, site);
            },
            _ => {},
        }
    }
}

/// A step keeps a run sound, and makes at most one frame.
pub proof fn a_step_is_sound<'a>(m: MachineView<'a>)
    requires
        sound(m),
    ensures
        sound(step(m)),
        m.frames.len() <= step(m).frames.len() <= m.frames.len() + 1,
{
    match m.control {
        ControlView::Evaluate(expr, env) => beginning_is_sound(m, expr, env),
        ControlView::Deliver(value) => {
            if m.stack.len() > 0 {
                let popped = MachineView { stack: m.stack.drop_last(), ..m };
                resuming_is_sound(popped, m.stack.last(), value);
            }
        },
        _ => {},
    }
}

/// The host's reply keeps a run sound, and makes no frame.
pub proof fn a_reply_is_sound<'a>(m: MachineView<'a>, reply: ReplyView)
    requires
        sound(m),
    ensures
        sound(answered(m, reply)),
        answered(m, reply).frames == m.frames,
{
}

/// Steps keep a run sound, and each makes at most one frame.
pub proof fn steps_are_sound<'a>(m: MachineView<'a>, count: nat)
    requires
        sound(m),
    ensures
        sound(steps(m, count)),
        m.frames.len() <= steps(m, count).frames.len() <= m.frames.len() + count,
    decreases count,
{
    if count > 0 && m.running() {
        a_step_is_sound(m);
        steps_are_sound(step(m), (count - 1) as nat);
    }
}

/// A run starts sound in frames that hang together; those of a new run do,
/// with or without the clock.
pub proof fn a_run_starts_sound<'a>(program: Expr, frames: Seq<FrameView>)
    requires
        frames_fit(frames),
        0 < frames.len(),
    ensures
        sound(MachineView::<'a>::start(program, frames)),
        frames_fit(seq![FrameView::empty(None)]),
        frames_fit(
            seq![
                FrameView::empty(None).with(crate::evaluate::scope::clock_name(), ValueView::Clock),
            ],
        ),
{
    let with_clock = seq![
        FrameView::empty(None).with(crate::evaluate::scope::clock_name(), ValueView::Clock),
    ];
    assert forall|i: int, name: Seq<char>|
        0 <= i < with_clock.len() && #[trigger] with_clock[i].bindings.contains_key(
            name,
        ) implies value_fits(with_clock[i].bindings[name], with_clock.len()) by {}
}

/// In a sound run an infix operator that gets its right operand finds its
/// left operand kept: the result is that of the operator on the two, and
/// the run fails only where they do not fit the operator.
pub proof fn a_waiting_operator_has_its_operand<'a>(
    m: MachineView<'a>,
    op: crate::parser::BinaryOperator,
    right: LiteralView,
)
    requires
        sound(m),
        m.control == ControlView::Deliver(ValueView::Literal(right)),
        m.stack.len() > 0,
        m.stack.last() == Kont::<'a>::BinaryRight(op),
    ensures
        m.operands.len() > 0,
        step(m).control is Failed <==> crate::evaluate::operators::binary(
            op,
            m.operands.last(),
            right,
        ) is Mismatch,
{
}

/// In a sound run every argument is bound: its value is defined under the
/// name of its parameter in the frame of the call, which exists.
pub proof fn every_argument_is_bound<'a>(m: MachineView<'a>, c: Call<'a>, value: ValueView)
    requires
        sound(m),
        m.control == ControlView::Deliver(value),
        m.stack.len() > 0,
        m.stack.last() == Kont::Argument(c),
    ensures
        c.frame < m.frames.len(),
        c.index < c.params@.len(),
        step(m).frames == m.frames.update(
            c.frame as int,
            m.frames[c.frame as int].with(c.params@[c.index as int]@, value),
        ),
        lookup(step(m).frames, c.frame as nat, c.params@[c.index as int]@) == Some(value),
{
    assert(kont_fits(m.stack[m.stack.len() - 1], m.frames.len()));
}

/// In a sound run a function is called in a frame of its own whose parent
/// is the frame in which the function was declared, not the frame of the
/// call.
pub proof fn a_call_runs_under_the_declaring_frame<'a>(
    m: MachineView<'a>,
    params: Vec<String>,
    body: Expr,
    scope: nat,
    lists: &'a Vec<Vec<Expr>>,
    index: usize,
    site: usize,
)
    requires
        settled(m, 0),
        value_fits(ValueView::Closure(params, body, scope), m.frames.len()),
        index < lists@.len(),
        lists@[index as int]@.len() == params@.len(),
    ensures
        call(m, ValueView::Closure(params, body, scope), lists, index, site).frames
            == m.frames.push(FrameView::empty(Some(scope))),
{
}

} // verus!
