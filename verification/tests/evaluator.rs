use lox_interpreter::evaluate::{
    evaluate, Control, Literal, Reply, Request, RuntimeError, Scope, Value,
};
use lox_interpreter::number::Number;
use lox_interpreter::parser::{parse_tokens, BinaryOperator, Condition, Expr, Fault};
use lox_interpreter::scanner::{scan_tokens, Type};
use lox_interpreter::utils::pad_number;

/// What a program did: the lines it printed, and how it ended.
struct Outcome {
    printed: Vec<String>,
    value: Option<String>,
    error: Option<RuntimeError>,
}

fn number(value: f64) -> Number {
    Number::from_bits(value.to_bits())
}

fn float(number: &Number) -> f64 {
    f64::from_bits(number.to_bits())
}

fn parse(source: &str) -> Expr {
    let mut scanned = scan_tokens(source);
    assert!(scanned.errors.is_empty());
    for token in scanned.tokens.iter_mut() {
        if token.ty == Type::Number {
            let value: f64 = token.lexeme.parse().unwrap();
            token.literal = Some(pad_number(&value.to_string()));
        }
    }
    parse_tokens(&scanned.tokens).unwrap()
}

fn answer(request: &Request, printed: &mut Vec<String>) -> Reply {
    match request {
        Request::Parse(text) => match text.parse::<f64>() {
            Ok(value) => Reply::Number(number(value)),
            Err(_) => Reply::Invalid,
        },
        Request::Arithmetic(op, a, b) => {
            let (a, b) = (float(a), float(b));
            Reply::Number(number(match op {
                BinaryOperator::Plus => a + b,
                BinaryOperator::Minus => a - b,
                BinaryOperator::Star => a * b,
                BinaryOperator::Slash => a / b,
                _ => unreachable!(),
            }))
        }
        Request::Format(n) => Reply::Text(float(n).to_string()),
        Request::Print(line) => {
            printed.push(line.clone());
            Reply::Done
        }
        Request::Clock => Reply::Number(number(1700000000.0)),
    }
}

fn show(value: &Value) -> String {
    match value.number() {
        Some(n) => value.to_string(&float(&n).to_string()),
        None => value.to_string(""),
    }
}

fn run(source: &str) -> Outcome {
    let tree = parse(source);
    let mut printed = Vec::new();
    let mut machine = evaluate(&tree, Scope::global());
    for _ in 0..100_000 {
        machine = machine.run(1000);
        let reply = match machine.control() {
            Control::Awaiting(request) => answer(request, &mut printed),
            Control::Finished(value) => {
                return Outcome { printed, value: Some(show(value)), error: None };
            }
            Control::Failed(error) => {
                return Outcome { printed, value: None, error: Some(*error) };
            }
            _ => continue,
        };
        machine = machine.reply(reply);
    }
    panic!("the program did not end");
}

fn value_of(source: &str) -> String {
    let outcome = run(source);
    assert_eq!(outcome.error, None);
    outcome.value.unwrap()
}

#[test]
fn arithmetic_is_left_associative() {
    assert_eq!(value_of("6 / 3 - 1"), "1.0");
    assert_eq!(value_of("10 - 4 - 3"), "3.0");
    assert_eq!(value_of("2 + 3 * 4"), "14.0");
    assert_eq!(value_of("(2 + 3) * 4"), "20.0");
    assert_eq!(value_of("7 / 2"), "3.5");
}

#[test]
fn bang_follows_truthiness() {
    assert_eq!(value_of("!0"), "true");
    assert_eq!(value_of("!\"\""), "false");
    assert_eq!(value_of("!nil"), "true");
    assert_eq!(value_of("!1"), "false");
    assert_eq!(value_of("!true"), "false");
    assert_eq!(value_of("!false"), "true");
}

#[test]
fn number_and_string_are_never_equal() {
    assert_eq!(value_of("1 == \"1\""), "false");
    assert_eq!(value_of("1 != \"1\""), "true");
    assert_eq!(value_of("\"1\" == 1"), "false");
    assert_eq!(value_of("\"1\" != 1"), "true");
}

#[test]
fn inner_declaration_shadows_outer() {
    let outcome = run("var x = 1; { var x = 2; print x; } print x;");
    assert_eq!(outcome.error, None);
    assert_eq!(outcome.printed, vec!["2.0", "1.0"]);
}

#[test]
fn closure_sees_later_assignment() {
    let outcome = run(
        "var x = 1;\n\
         fun makeAdder() { fun adder() { return x; } return adder; }\n\
         var f = makeAdder();\n\
         x = 2;\n\
         print f();",
    );
    assert_eq!(outcome.error, None);
    assert_eq!(outcome.printed, vec!["2.0"]);
}

#[test]
fn and_skips_right_side_when_left_is_falsy() {
    let outcome = run("print false and (1/0); print nil and undefined_name;");
    assert_eq!(outcome.error, None);
    assert_eq!(outcome.printed, vec!["false", "nil"]);
}

#[test]
fn or_skips_right_side_when_left_is_truthy() {
    let outcome = run("print 1 or undefined_name; print \"\" or 2; print false or 3;");
    assert_eq!(outcome.error, None);
    assert_eq!(outcome.printed, vec!["1.0", "", "3.0"]);
}

#[test]
fn for_loop_counts_up() {
    let outcome = run("for (var i = 0; i < 3; i = i + 1) print i;");
    assert_eq!(outcome.error, None);
    assert_eq!(outcome.printed, vec!["0.0", "1.0", "2.0"]);
}

#[test]
fn for_without_condition_runs_until_return() {
    let outcome = run(
        "fun f() { var i = 0; for (;; i = i + 1) { if (i >= 3) return i; } }\n\
         print f();",
    );
    assert_eq!(outcome.error, None);
    assert_eq!(outcome.printed, vec!["3.0"]);
}

#[test]
fn while_loop_reads_condition_each_round() {
    let outcome = run("var i = 0; while (i < 3) { print i; i = i + 1; }");
    assert_eq!(outcome.error, None);
    assert_eq!(outcome.printed, vec!["0.0", "1.0", "2.0"]);
}

#[test]
fn factorial_returns_through_blocks() {
    let outcome = run(
        "fun fact(n) { if (n <= 1) { return 1; } return n * fact(n - 1); }\n\
         print fact(5);",
    );
    assert_eq!(outcome.error, None);
    assert_eq!(outcome.printed, vec!["120.0"]);
}

#[test]
fn return_leaves_a_loop_inside_a_block() {
    let outcome = run(
        "fun first() { var i = 0; while (true) { { if (i == 2) { return i; } } i = i + 1; } }\n\
         print first();",
    );
    assert_eq!(outcome.error, None);
    assert_eq!(outcome.printed, vec!["2.0"]);
}

#[test]
fn numbers_print_with_a_decimal_point() {
    let outcome = run("print 3; print 2.5; print 10 / 4; print 100;");
    assert_eq!(outcome.error, None);
    assert_eq!(outcome.printed, vec!["3.0", "2.5", "2.5", "100.0"]);
}

#[test]
fn wrong_argument_count_is_a_runtime_error() {
    let outcome = run("fun f(a, b) {} f(1);");
    assert_eq!(outcome.error, Some(RuntimeError::Arity(2, 1)));
    let outcome = run("fun g() {} g(1, 2);");
    assert_eq!(outcome.error, Some(RuntimeError::Arity(0, 2)));
}

#[test]
fn undefined_variable_is_a_runtime_error() {
    assert_eq!(run("print y;").error, Some(RuntimeError::UndefinedVariable));
    assert_eq!(run("y = 1;").error, Some(RuntimeError::UndefinedVariable));
    assert_eq!(run("y();").error, Some(RuntimeError::UndefinedVariable));
}

#[test]
fn output_before_a_failure_stays() {
    let outcome = run("print 1; print -\"a\"; print 2;");
    assert_eq!(outcome.printed, vec!["1.0"]);
    assert_eq!(outcome.error, Some(RuntimeError::TypeMismatch));
}

#[test]
fn calling_a_number_is_a_runtime_error() {
    assert_eq!(run("var x = 1; x();").error, Some(RuntimeError::NotCallable));
}

#[test]
fn operators_reject_mixed_operands() {
    assert_eq!(run("1 + \"a\"").error, Some(RuntimeError::TypeMismatch));
    assert_eq!(run("\"a\" < \"b\"").error, Some(RuntimeError::TypeMismatch));
    assert_eq!(run("true < false").error, Some(RuntimeError::TypeMismatch));
    assert_eq!(run("nil == nil").error, Some(RuntimeError::TypeMismatch));
    assert_eq!(run("-true").error, Some(RuntimeError::TypeMismatch));
}

#[test]
fn strings_concatenate_and_compare() {
    assert_eq!(value_of("\"foo\" + \"bar\""), "foobar");
    assert_eq!(value_of("\"a\" == \"a\""), "true");
    assert_eq!(value_of("\"a\" != \"a\""), "false");
    assert_eq!(value_of("\"a\" == \"b\""), "false");
}

#[test]
fn numbers_compare_as_doubles() {
    assert_eq!(value_of("1 < 2"), "true");
    assert_eq!(value_of("2 <= 2"), "true");
    assert_eq!(value_of("3 > 4"), "false");
    assert_eq!(value_of("4 >= 5"), "false");
    assert_eq!(value_of("-1 < 0"), "true");
    assert_eq!(value_of("-2 < -1"), "true");
    assert_eq!(value_of("0 == -0"), "true");
    assert_eq!(value_of("1.5 == 1.5"), "true");
    assert_eq!(value_of("1.5 != 1.5"), "false");
    assert_eq!(value_of("(0/0) == (0/0)"), "false");
    assert_eq!(value_of("(0/0) != (0/0)"), "true");
}

#[test]
fn logical_operators_yield_the_operand() {
    assert_eq!(value_of("nil or \"yes\""), "yes");
    assert_eq!(value_of("1 and 2"), "2.0");
    assert_eq!(value_of("0 and 2"), "0.0");
}

#[test]
fn if_without_else_yields_nil() {
    assert_eq!(value_of("if (false) 1"), "nil");
    assert_eq!(value_of("if (true) 1 else 2"), "1.0");
    assert_eq!(value_of("if (0) 1 else 2"), "2.0");
}

#[test]
fn assignment_changes_the_nearest_frame() {
    let outcome = run("var x = 1; { x = 2; { var x = 3; x = 4; print x; } print x; } print x;");
    assert_eq!(outcome.error, None);
    assert_eq!(outcome.printed, vec!["4.0", "2.0", "2.0"]);
}

#[test]
fn functions_are_lexically_scoped() {
    let outcome = run(
        "var x = \"global\";\n\
         fun show() { print x; }\n\
         { var x = \"local\"; show(); }",
    );
    assert_eq!(outcome.error, None);
    assert_eq!(outcome.printed, vec!["global"]);
}

#[test]
fn curried_calls_chain() {
    let outcome = run(
        "fun add(a) { fun inner(b) { return a + b; } return inner; }\n\
         print add(1)(2);",
    );
    assert_eq!(outcome.error, None);
    assert_eq!(outcome.printed, vec!["3.0"]);
}

#[test]
fn counters_keep_their_own_frames() {
    let outcome = run(
        "fun counter() { var n = 0; fun next() { n = n + 1; return n; } return next; }\n\
         var a = counter(); var b = counter();\n\
         print a(); print a(); print b();",
    );
    assert_eq!(outcome.error, None);
    assert_eq!(outcome.printed, vec!["1.0", "2.0", "1.0"]);
}

#[test]
fn function_without_return_yields_nil() {
    let outcome = run("fun f() {} print f(); fun g() { 1; } print g();");
    assert_eq!(outcome.error, None);
    assert_eq!(outcome.printed, vec!["nil", "nil"]);
}

#[test]
fn arguments_are_evaluated_at_the_call_site() {
    let outcome = run(
        "var x = 1;\n\
         fun f(a) { var x = 10; return a; }\n\
         { var x = 2; print f(x); }",
    );
    assert_eq!(outcome.error, None);
    assert_eq!(outcome.printed, vec!["2.0"]);
}

#[test]
fn clock_asks_the_host() {
    assert_eq!(value_of("clock()"), "1700000000.0");
}

#[test]
fn functions_print_as_functions() {
    let outcome = run("fun f() {} print f; print clock;");
    assert_eq!(outcome.printed, vec!["<fn foo>", "<fn foo>"]);
}

#[test]
fn grouping_a_call_is_rejected_by_the_parser() {
    let scanned = scan_tokens("(1)(2)");
    let error = parse_tokens(&scanned.tokens).unwrap_err();
    assert_eq!(error.fault, Fault::CanOnlyCall);
    assert_eq!(error.fault.condition(), Condition::Runtime);
    assert_eq!(error.line, 1);
}

#[test]
fn a_reply_of_the_wrong_kind_changes_nothing() {
    let tree = parse("1 + 2");
    let mut machine = evaluate(&tree, Scope::new()).run(100);
    assert!(matches!(machine.control(), Control::Awaiting(Request::Parse(_))));
    machine = machine.reply(Reply::Done);
    assert!(matches!(machine.control(), Control::Awaiting(Request::Parse(_))));
    machine = machine.reply(Reply::Text(String::from("1")));
    assert!(matches!(machine.control(), Control::Awaiting(Request::Parse(_))));
    machine = machine.reply(Reply::Invalid);
    assert!(matches!(machine.control(), Control::Failed(RuntimeError::MalformedNumber)));
}

#[test]
fn a_budget_of_steps_bounds_a_run() {
    let tree = parse("while (true) {}");
    let machine = evaluate(&tree, Scope::new()).run(1000);
    assert!(machine.is_running());
    let machine = evaluate(&tree, Scope::new()).run(0);
    assert!(matches!(machine.control(), Control::Evaluate(_, 0)));
}

#[test]
fn scope_define_set_get() {
    let mut scope = Scope::new();
    let x = String::from("x");
    let y = String::from("y");
    assert!(scope.get(0, &x).is_none());
    scope.define(0, x.clone(), Value::Literal(Literal::Boolean(true)));
    let inner = scope.child(0);
    assert_eq!(inner, 1);
    assert!(matches!(scope.get(inner, &x), Some(Value::Literal(Literal::Boolean(true)))));
    assert!(scope.set(inner, &x, Value::Literal(Literal::Nil)));
    assert!(matches!(scope.get(0, &x), Some(Value::Literal(Literal::Nil))));
    assert!(!scope.set(inner, &y, Value::Literal(Literal::Nil)));
    assert!(scope.get(inner, &y).is_none());
    scope.define(inner, x.clone(), Value::Literal(Literal::Boolean(false)));
    assert!(matches!(scope.get(inner, &x), Some(Value::Literal(Literal::Boolean(false)))));
    assert!(matches!(scope.get(0, &x), Some(Value::Literal(Literal::Nil))));
    assert!(scope.get(7, &x).is_none());
    assert_eq!(scope.len(), 2);
}

#[test]
fn global_scope_holds_the_clock() {
    let scope = Scope::global();
    assert!(matches!(scope.get(0, &String::from("clock")), Some(Value::Callable(_))));
}

#[test]
fn literal_truthiness() {
    assert!(Literal::Boolean(true).as_bool());
    assert!(!Literal::Boolean(false).as_bool());
    assert!(Literal::String(String::new()).as_bool());
    assert!(!Literal::Nil.as_bool());
    assert!(!Literal::Number(number(0.0)).as_bool());
    assert!(!Literal::Number(number(-0.0)).as_bool());
    assert!(Literal::Number(number(0.5)).as_bool());
    assert!(Literal::Number(number(f64::NAN)).as_bool());
}

#[test]
fn runtime_errors_have_messages() {
    assert_eq!(RuntimeError::Arity(2, 1).to_string(), "Expected 2 arguments but got 1");
    assert_eq!(RuntimeError::UndefinedVariable.to_string(), "Undefined variable.");
    assert_eq!(RuntimeError::NotCallable.to_string(), "Can only call functions and classes.");
    assert_eq!(RuntimeError::TypeMismatch.condition(), Condition::Runtime);
    assert_eq!(RuntimeError::TypeMismatch.condition().exit_code(), 70);
}

#[test]
fn malformed_number_fails_the_run() {
    let tree = Expr::Number(String::from("1.2.3"), String::from("1.2.3"));
    let mut printed = Vec::new();
    let mut machine = evaluate(&tree, Scope::new()).run(10);
    let reply = match machine.control() {
        Control::Awaiting(request) => answer(request, &mut printed),
        _ => panic!("no request"),
    };
    machine = machine.reply(reply).run(10);
    assert!(matches!(machine.control(), Control::Failed(RuntimeError::MalformedNumber)));
}

#[test]
fn steps_in_instalments_reach_the_same_state() {
    let tree = parse("var a = true; { var b = a; if (b) { a = nil; } } a");
    let whole = evaluate(&tree, Scope::new()).run(1000);
    let mut parts = evaluate(&tree, Scope::new());
    let mut rounds = 0;
    while parts.is_running() {
        parts = parts.run(1);
        rounds += 1;
    }
    assert!(rounds > 10);
    assert!(matches!(whole.control(), Control::Finished(Value::Literal(Literal::Nil))));
    assert!(matches!(parts.control(), Control::Finished(Value::Literal(Literal::Nil))));
    assert_eq!(whole.scope().len(), parts.scope().len());
    assert_eq!(whole.scope().len(), 4);
}

#[test]
fn values_show_as_print_writes_them() {
    assert_eq!(Value::Literal(Literal::Boolean(true)).to_string(""), "true");
    assert_eq!(Value::Literal(Literal::Boolean(false)).to_string(""), "false");
    assert_eq!(Value::Literal(Literal::Nil).to_string(""), "nil");
    assert_eq!(Value::Literal(Literal::String(String::from("a b"))).to_string("7"), "a b");
    assert_eq!(Value::Literal(Literal::Number(number(7.0))).to_string("7"), "7.0");
    assert_eq!(Value::Literal(Literal::Number(number(7.5))).to_string("7.5"), "7.5");
    let returning = Value::Literal(Literal::Number(number(7.0))).into_return();
    assert!(returning.is_return());
    assert_eq!(returning.to_string("7"), "7.0");
    assert_eq!(returning.number(), Some(number(7.0)));
    let twice = returning.into_return();
    assert!(matches!(&twice, Value::Return(inner) if !inner.is_return()));
    assert!(matches!(twice.unwrap(), Value::Literal(Literal::Number(_))));
    assert_eq!(Value::nil().number(), None);
}
