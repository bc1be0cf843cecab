//! A run: the state of an evaluation, stepped until it needs its host.

use vstd::prelude::*;
use crate::evaluate::host::{Reply, Request, RuntimeError};
use crate::evaluate::kont::{unboxed, Call, Kont, Loop};
use crate::evaluate::literal::{Literal, LiteralView};
use crate::evaluate::operators::{apply_binary, apply_unary, Applied};
use crate::evaluate::scope::Scope;
use crate::evaluate::semantics;
use crate::evaluate::semantics::{ControlView, MachineView};
use crate::evaluate::scope::frames_fit;
use crate::evaluate::soundness::{a_reply_is_sound, a_run_starts_sound, a_step_is_sound, sound};
use crate::evaluate::value::{Callable, Value};
use crate::parser::{BinaryOperator, Expr};
use crate::utils::pad_number;

verus! {

/// What a run is doing.
#[derive(Debug)]
pub enum Control<'a> {
    /// About to evaluate a node in a frame.
    Evaluate(&'a Expr, usize),
    /// About to hand a value to the topmost continuation.
    Deliver(Value<'a>),
    /// Waiting for the host to answer a request.
    Awaiting(Request),
    /// Done, with the value of the program.
    Finished(Value<'a>),
    /// Failed.
    Failed(RuntimeError),
}

impl<'a> View for Control<'a> {
    type V = ControlView;

    open spec fn view(&self) -> ControlView {
        match self {
            Control::Evaluate(expr, env) => ControlView::Evaluate(**expr, *env),
            Control::Deliver(value) => ControlView::Deliver(value@),
            Control::Awaiting(request) => ControlView::Awaiting(request@),
            Control::Finished(value) => ControlView::Finished(value@),
            Control::Failed(error) => ControlView::Failed(*error),
        }
    }
}

/// The views of the operands kept.
pub open spec fn literal_views(operands: Seq<Literal>) -> Seq<LiteralView> {
    operands.map_values(|operand: Literal| operand@)
}

/// The state of a run.
#[derive(Debug)]
pub struct Machine<'a> {
    control: Control<'a>,
    stack: Vec<Kont<'a>>,
    operands: Vec<Literal>,
    scope: Scope<'a>,
}

impl<'a> View for Machine<'a> {
    type V = MachineView<'a>;

    closed spec fn view(&self) -> MachineView<'a> {
        MachineView {
            control: self.control@,
            stack: self.stack@,
            operands: literal_views(self.operands@),
            frames: self.scope@,
        }
    }
}

/// What is left of a run while its control is being decided.
struct Rest<'a> {
    stack: Vec<Kont<'a>>,
    operands: Vec<Literal>,
    scope: Scope<'a>,
}

impl<'a> Rest<'a> {
    /// The state that has these parts and the control `control`.
    spec fn under(self, control: ControlView) -> MachineView<'a> {
        MachineView {
            control,
            stack: self.stack@,
            operands: literal_views(self.operands@),
            frames: self.scope@,
        }
    }

    fn to(self, control: Control<'a>) -> (machine: Machine<'a>)
        ensures
            machine@ == self.under(control@),
    {
        Machine { control, stack: self.stack, operands: self.operands, scope: self.scope }
    }

    fn deliver(self, value: Value<'a>) -> (machine: Machine<'a>)
        ensures
            machine@ == self.under(ControlView::Deliver(value@)),
    {
        self.to(Control::Deliver(value))
    }

    fn fail(self, error: RuntimeError) -> (machine: Machine<'a>)
        ensures
            machine@ == self.under(ControlView::Failed(error)),
    {
        self.to(Control::Failed(error))
    }

    fn ask(self, request: Request) -> (machine: Machine<'a>)
        ensures
            machine@ == self.under(ControlView::Awaiting(request@)),
    {
        self.to(Control::Awaiting(request))
    }

    fn go(self, expr: &'a Expr, env: usize) -> (machine: Machine<'a>)
        ensures
            machine@ == self.under(ControlView::Evaluate(*expr, env)),
    {
        self.to(Control::Evaluate(expr, env))
    }

    fn defer(self, kont: Kont<'a>, expr: &'a Expr, env: usize) -> (machine: Machine<'a>)
        ensures
            machine@ == (MachineView {
                control: ControlView::Evaluate(*expr, env),
                stack: self.stack@.push(kont),
                operands: literal_views(self.operands@),
                frames: self.scope@,
            }),
    {
        let mut stack = self.stack;
        stack.push(kont);
        Machine {
            control: Control::Evaluate(expr, env),
            stack,
            operands: self.operands,
            scope: self.scope,
        }
    }

    fn enter_loop(self, l: Loop<'a>) -> (machine: Machine<'a>)
        ensures
            forall|control: ControlView|
                machine@ == semantics::enter_loop(#[trigger] self.under(control), l),
    {
        match l.condition {
            Some(condition) => self.defer(Kont::ForCondition(l), condition, l.scope),
            None => self.defer(Kont::ForBody(l), l.body, l.scope),
        }
    }

    fn call(
        self,
        callee: Value<'a>,
        lists: &'a Vec<Vec<Expr>>,
        index: usize,
        site: usize,
    ) -> (machine: Machine<'a>)
        ensures
            forall|control: ControlView|
                machine@ == semantics::call(
                    #[trigger] self.under(control),
                    callee@,
                    lists,
                    index,
                    site,
                ),
    {
        if index >= lists.len() {
            return self.deliver(callee);
        }
        let after = Kont::CallResult(lists, index + 1, site);
        match callee {
            Value::Callable(Callable::Clock) => {
                let mut stack = self.stack;
                stack.push(after);
                Machine {
                    control: Control::Awaiting(Request::Clock),
                    stack,
                    operands: self.operands,
                    scope: self.scope,
                }
            },
            Value::Callable(Callable::Closure(params, body, captured)) => {
                let arguments = &lists[index];
                if arguments.len() != params.len() {
                    return self.fail(RuntimeError::Arity(params.len(), arguments.len()));
                }
                let mut scope = self.scope;
                let frame = scope.child(captured);
                let rest = Rest { stack: self.stack, operands: self.operands, scope };
                if arguments.len() == 0 {
                    rest.defer(after, body, frame)
                } else {
                    rest.defer(
                        Kont::Argument(
                            Call {
                                params,
                                body,
                                arguments,
                                index: 0,
                                frame,
                                lists,
                                next: index + 1,
                                site,
                            },
                        ),
                        &arguments[0],
                        site,
                    )
                }
            },
            _ => self.fail(RuntimeError::NotCallable),
        }
    }

    fn bind(self, c: Call<'a>, value: Value<'a>) -> (machine: Machine<'a>)
        ensures
            forall|control: ControlView|
                machine@ == semantics::bind(#[trigger] self.under(control), c, value@),
    {
        let mut scope = self.scope;
        if c.index < c.params.len() {
            scope.define(c.frame, c.params[c.index].clone(), value);
        }
        let rest = Rest { stack: self.stack, operands: self.operands, scope };
        if c.index < c.arguments.len() && c.index + 1 < c.arguments.len() {
            let following = Call {
                params: c.params,
                body: c.body,
                arguments: c.arguments,
                index: c.index + 1,
                frame: c.frame,
                lists: c.lists,
                next: c.next,
                site: c.site,
            };
            rest.defer(Kont::Argument(following), &c.arguments[c.index + 1], c.site)
        } else {
            rest.defer(Kont::CallResult(c.lists, c.next, c.site), c.body, c.frame)
        }
    }

    fn begin(self, expr: &'a Expr, env: usize) -> (machine: Machine<'a>)
        ensures
            forall|control: ControlView|
                machine@ == semantics::begin(#[trigger] self.under(control), *expr, env),
    {
        match expr {
            Expr::True => self.deliver(Value::Literal(Literal::Boolean(true))),
            Expr::False => self.deliver(Value::Literal(Literal::Boolean(false))),
            Expr::Nil => self.deliver(Value::nil()),
            Expr::Semicolon => self.deliver(Value::nil()),
            Expr::String(text) => self.deliver(Value::Literal(Literal::String(text.clone()))),
            Expr::Number(written, _) => self.ask(Request::Parse(written.clone())),
            Expr::Unary(op, operand) => self.defer(Kont::Unary(*op), &**operand, env),
            Expr::Binary(op, left, right) => self.defer(
                Kont::BinaryLeft(*op, &**right, env),
                &**left,
                env,
            ),
            Expr::Or(left, right) => self.defer(Kont::Or(&**right, env), &**left, env),
            Expr::And(left, right) => self.defer(Kont::And(&**right, env), &**left, env),
            Expr::Grouping(inner) => self.go(&**inner, env),
            Expr::Identifier(name) => match self.scope.get(env, name) {
                Some(value) => self.deliver(value),
                None => self.fail(RuntimeError::UndefinedVariable),
            },
            Expr::Assignment(name, value, declares) => self.defer(
                Kont::Assign(name, *declares, env),
                &**value,
                env,
            ),
            Expr::Print(value) => self.defer(Kont::Print, &**value, env),
            Expr::Statements(exprs) => {
                if exprs.len() == 0 {
                    self.deliver(Value::nil())
                } else {
                    let mut scope = self.scope;
                    let frame = scope.child(env);
                    let rest = Rest { stack: self.stack, operands: self.operands, scope };
                    rest.defer(Kont::Block(exprs, 1, frame), &exprs[0], frame)
                }
            },
            Expr::IfElse(condition, taken, otherwise) => self.defer(
                Kont::If(&**taken, unboxed(otherwise), env),
                &**condition,
                env,
            ),
            Expr::While(condition, body) => self.defer(
                Kont::WhileCondition(&**condition, &**body, env),
                &**condition,
                env,
            ),
            Expr::For(initial, condition, increment, body) => {
                let l = Loop {
                    condition: unboxed(condition),
                    increment: unboxed(increment),
                    body: &**body,
                    scope: env,
                };
                match initial {
                    Some(initial) => self.defer(Kont::ForInit(l), &**initial, env),
                    None => self.enter_loop(l),
                }
            },
            Expr::Callable(name, lists) => match self.scope.get(env, name) {
                Some(callee) => {
                    if lists.len() == 0 {
                        self.deliver(Value::nil())
                    } else {
                        self.call(callee, lists, 0, env)
                    }
                },
                None => self.fail(RuntimeError::UndefinedVariable),
            },
            Expr::Fun(name, params, body) => {
                let mut scope = self.scope;
                scope.define(
                    env,
                    name.clone(),
                    Value::Callable(Callable::Closure(params, &**body, env)),
                );
                let rest = Rest { stack: self.stack, operands: self.operands, scope };
                rest.deliver(Value::nil())
            },
            Expr::Return(value) => self.defer(Kont::Return, &**value, env),
        }
    }
}

impl<'a> Rest<'a> {
    fn combine(self, op: BinaryOperator, right: &Literal) -> (machine: Machine<'a>)
        ensures
            forall|control: ControlView|
                machine@ == semantics::combine(#[trigger] self.under(control), op, right@),
    {
        let mut operands = self.operands;
        match operands.pop() {
            None => Machine {
                control: Control::Failed(RuntimeError::TypeMismatch),
                stack: self.stack,
                operands,
                scope: self.scope,
            },
            Some(left) => {
                assert(literal_views(operands@) =~= literal_views(self.operands@).drop_last());
                let rest = Rest { stack: self.stack, operands, scope: self.scope };
                match apply_binary(op, &left, right) {
                    Applied::Value(value) => rest.deliver(Value::Literal(value)),
                    Applied::Ask(op, a, b) => rest.ask(Request::Arithmetic(op, a, b)),
                    Applied::Mismatch => rest.fail(RuntimeError::TypeMismatch),
                }
            },
        }
    }

    fn resume_with_scalar(self, kont: Kont<'a>, value: Literal) -> (machine: Machine<'a>)
        requires
            semantics::needs_scalar(kont),
        ensures
            forall|control: ControlView|
                machine@ == semantics::resume_with_scalar(
                    #[trigger] self.under(control),
                    kont,
                    value@,
                ),
    {
        match kont {
            Kont::Unary(op) => match apply_unary(op, &value) {
                Some(result) => self.deliver(Value::Literal(result)),
                None => self.fail(RuntimeError::TypeMismatch),
            },
            Kont::BinaryLeft(op, right, env) => {
                let mut operands = self.operands;
                operands.push(value);
                assert(literal_views(operands@) =~= literal_views(self.operands@).push(value@));
                let rest = Rest { stack: self.stack, operands, scope: self.scope };
                rest.defer(Kont::BinaryRight(op), right, env)
            },
            Kont::BinaryRight(op) => self.combine(op, &value),
            Kont::Or(right, env) => {
                if value.as_bool() {
                    self.deliver(Value::Literal(value))
                } else {
                    self.go(right, env)
                }
            },
            Kont::And(right, env) => {
                if !value.as_bool() {
                    self.deliver(Value::Literal(value))
                } else {
                    self.go(right, env)
                }
            },
            Kont::If(taken, otherwise, env) => {
                if value.as_bool() {
                    self.go(taken, env)
                } else {
                    match otherwise {
                        Some(otherwise) => self.go(otherwise, env),
                        None => self.deliver(Value::nil()),
                    }
                }
            },
            Kont::WhileCondition(condition, body, env) => {
                if value.as_bool() {
                    self.defer(Kont::WhileBody(condition, body, env), body, env)
                } else {
                    self.deliver(Value::nil())
                }
            },
            Kont::ForCondition(l) => {
                if value.as_bool() {
                    self.defer(Kont::ForBody(l), l.body, l.scope)
                } else {
                    self.deliver(Value::nil())
                }
            },
            _ => self.fail(RuntimeError::TypeMismatch),
        }
    }

    fn assign(self, name: &'a String, declares: bool, env: usize, value: Value<'a>) -> (machine:
        Machine<'a>)
        ensures
            forall|control: ControlView|
                machine@ == semantics::resume(
                    #[trigger] self.under(control),
                    Kont::Assign(name, declares, env),
                    value@,
                ),
    {
        let kept = value.clone();
        let mut scope = self.scope;
        if declares {
            scope.define(env, name.clone(), value);
            let rest = Rest { stack: self.stack, operands: self.operands, scope };
            rest.deliver(kept)
        } else if scope.set(env, name, value) {
            let rest = Rest { stack: self.stack, operands: self.operands, scope };
            rest.deliver(kept)
        } else {
            let rest = Rest { stack: self.stack, operands: self.operands, scope };
            rest.fail(RuntimeError::UndefinedVariable)
        }
    }

    fn print(self, value: Value<'a>) -> (machine: Machine<'a>)
        ensures
            forall|control: ControlView|
                machine@ == semantics::resume(#[trigger] self.under(control), Kont::Print, value@),
    {
        match value.number() {
            Some(number) => self.ask(Request::Format(number)),
            None => {
                let text = value.to_string("");
                proof {
                    reveal_strlit("");
                    assert(""@ =~= Seq::<char>::empty());
                }
                self.ask(Request::Print(text))
            },
        }
    }

    fn resume(self, kont: Kont<'a>, value: Value<'a>) -> (machine: Machine<'a>)
        ensures
            forall|control: ControlView|
                machine@ == semantics::resume(#[trigger] self.under(control), kont, value@),
    {
        match kont {
            Kont::Assign(name, declares, env) => self.assign(name, declares, env, value),
            Kont::Print => self.print(value),
            Kont::Block(exprs, next, frame) => {
                if value.is_return() {
                    self.deliver(value)
                } else if next < exprs.len() {
                    self.defer(Kont::Block(exprs, next + 1, frame), &exprs[next], frame)
                } else {
                    self.deliver(value)
                }
            },
            Kont::WhileBody(condition, body, env) => {
                if value.is_return() {
                    self.deliver(value)
                } else {
                    self.defer(Kont::WhileCondition(condition, body, env), condition, env)
                }
            },
            Kont::ForInit(l) => self.enter_loop(l),
            Kont::ForBody(l) => {
                if value.is_return() {
                    self.deliver(value)
                } else {
                    match l.increment {
                        Some(increment) => self.defer(Kont::ForIncrement(l), increment, l.scope),
                        None => self.enter_loop(l),
                    }
                }
            },
            Kont::ForIncrement(l) => self.enter_loop(l),
            Kont::Argument(c) => self.bind(c, value),
            Kont::CallResult(lists, next, site) => {
                let result = value.unwrap();
                if next < lists.len() {
                    self.call(result, lists, next, site)
                } else {
                    self.deliver(result)
                }
            },
            Kont::Return => self.deliver(value.into_return()),
            _ => match value {
                Value::Literal(scalar) => self.resume_with_scalar(kont, scalar),
                _ => self.fail(RuntimeError::TypeMismatch),
            },
        }
    }
}

impl<'a> Machine<'a> {
    /// A run that is about to evaluate `program` in the global frame of
    /// `scope`.
    pub fn new(program: &'a Expr, scope: Scope<'a>) -> (machine: Machine<'a>)
        ensures
            machine@ == MachineView::start(*program, scope@),
            frames_fit(scope@) && scope@.len() > 0 ==> sound(machine@),
    {
        proof {
            if frames_fit(scope@) && scope@.len() > 0 {
                a_run_starts_sound(*program, scope@);
            }
        }
        let machine = Machine {
            control: Control::Evaluate(program, 0),
            stack: Vec::new(),
            operands: Vec::new(),
            scope,
        };
        assert(literal_views(machine.operands@) =~= Seq::empty());
        machine
    }

    /// What the run is doing.
    pub fn control(&self) -> (control: &Control<'a>)
        ensures
            control@ == self@.control,
    {
        &self.control
    }

    /// The frames of the run.
    pub fn scope(&self) -> (scope: &Scope<'a>)
        ensures
            scope@ == self@.frames,
    {
        &self.scope
    }

    /// Whether the run can take a step by itself.
    pub fn is_running(&self) -> (running: bool)
        ensures
            running == self@.running(),
    {
        match &self.control {
            Control::Evaluate(_, _) => true,
            Control::Deliver(_) => true,
            _ => false,
        }
    }

    /// Takes one step. A run that waits for the host, is done or has failed
    /// stays as it is.
    pub fn step(self) -> (next: Machine<'a>)
        ensures
            next@ == semantics::step(self@),
            sound(self@) ==> sound(next@),
    {
        let ghost before = self@;
        proof {
            if sound(before) {
                a_step_is_sound(before);
            }
        }
        let Machine { control, stack, operands, scope } = self;
        match control {
            Control::Evaluate(expr, env) => {
                let rest = Rest { stack, operands, scope };
                assert(rest.under(before.control) == before);
                rest.begin(expr, env)
            },
            Control::Deliver(value) => {
                let mut stack = stack;
                match stack.pop() {
                    None => Machine { control: Control::Finished(value), stack, operands, scope },
                    Some(kont) => {
                        let rest = Rest { stack, operands, scope };
                        assert(rest.under(before.control) == (MachineView {
                            stack: before.stack.drop_last(),
                            ..before
                        }));
                        rest.resume(kont, value)
                    },
                }
            },
            other => Machine { control: other, stack, operands, scope },
        }
    }

    /// Takes steps until the run cannot step by itself, and at most
    /// `budget` of them.
    pub fn run(self, budget: usize) -> (last: Machine<'a>)
        ensures
            last@ == semantics::steps(self@, budget as nat),
            sound(self@) ==> sound(last@),
    {
        let mut machine = self;
        let mut left: usize = budget;
        while left > 0 && machine.is_running()
            invariant
                semantics::steps(self@, budget as nat) == semantics::steps(machine@, left as nat),
                sound(self@) ==> sound(machine@),
            decreases left,
        {
            machine = machine.step();
            left -= 1;
        }
        machine
    }

    /// Takes the host's reply to the request that the run waits for. A
    /// reply that does not answer the request changes nothing.
    pub fn reply(self, reply: Reply) -> (next: Machine<'a>)
        ensures
            next@ == semantics::answered(self@, reply@),
            sound(self@) ==> sound(next@),
    {
        proof {
            if sound(self@) {
                a_reply_is_sound(self@, reply@);
            }
        }
        let Machine { control, stack, operands, scope } = self;
        let rest = Rest { stack, operands, scope };
        match (control, reply) {
            (Control::Awaiting(Request::Parse(_)), Reply::Number(n)) => rest.deliver(
                Value::Literal(Literal::Number(n)),
            ),
            (Control::Awaiting(Request::Parse(_)), Reply::Invalid) => rest.fail(
                RuntimeError::MalformedNumber,
            ),
            (Control::Awaiting(Request::Arithmetic(_, _, _)), Reply::Number(n)) => rest.deliver(
                Value::Literal(Literal::Number(n)),
            ),
            (Control::Awaiting(Request::Clock), Reply::Number(n)) => rest.deliver(
                Value::Literal(Literal::Number(n)),
            ),
            (Control::Awaiting(Request::Format(_)), Reply::Text(text)) => rest.ask(
                Request::Print(pad_number(text.as_str())),
            ),
            (Control::Awaiting(Request::Print(_)), Reply::Done) => rest.deliver(Value::nil()),
            (control, _) => rest.to(control),
        }
    }
}

/// Starts the evaluation of `program` in the global frame of `scope`.
///
/// The run that is returned has taken no step yet: `run` steps it until it
/// has a request for the host, is done or has failed, and `reply` hands it
/// the host's answer.
pub fn evaluate<'a>(program: &'a Expr, scope: Scope<'a>) -> (machine: Machine<'a>)
    ensures
        machine@ == MachineView::start(*program, scope@),
        frames_fit(scope@) && scope@.len() > 0 ==> sound(machine@),
{
    Machine::new(program, scope)
}

} // verus!
