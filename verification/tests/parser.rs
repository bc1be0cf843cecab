use lox_interpreter::parser::{
    parse_tokens, BinaryOperator, Condition, Expr, Fault, ParseError, UnaryOperator,
};
use lox_interpreter::scanner::{scan_tokens, Token, Type};

fn tokens(source: &str) -> Vec<Token> {
    let scanned = scan_tokens(source);
    assert!(scanned.errors.is_empty());
    scanned.tokens
}

fn parse(source: &str) -> Expr {
    parse_tokens(&tokens(source)).unwrap()
}

fn shown(source: &str) -> String {
    parse(source).to_string()
}

fn fault(source: &str) -> ParseError {
    parse_tokens(&tokens(source)).unwrap_err()
}

#[test]
fn literals() {
    assert_eq!(shown("true"), "true");
    assert_eq!(shown("false"), "false");
    assert_eq!(shown("nil"), "nil");
    assert_eq!(shown("\"hello\""), "hello");
    assert_eq!(shown("42"), "42.0");
    assert_eq!(shown("1.5"), "1.5");
}

#[test]
fn number_shows_its_literal() {
    let mut tokens = tokens("1.50");
    tokens[0].fill_number("1.5");
    let tree = parse_tokens(&tokens).unwrap();
    assert_eq!(tree.to_string(), "1.5");
    assert!(matches!(&tree, Expr::Number(written, _) if written == "1.50"));
}

#[test]
fn same_level_operators_fold_left() {
    assert_eq!(shown("6 / 3 - 1"), "(- (/ 6.0 3.0) 1.0)");
    assert_eq!(shown("1 - 2 - 3"), "(- (- 1.0 2.0) 3.0)");
    assert_eq!(shown("1 * 2 / 3 * 4"), "(* (/ (* 1.0 2.0) 3.0) 4.0)");
    assert_eq!(shown("1 < 2 <= 3"), "(<= (< 1.0 2.0) 3.0)");
    assert_eq!(shown("1 == 2 != 3"), "(!= (== 1.0 2.0) 3.0)");
    assert_eq!(shown("a or b or c"), "identifier a or identifier b or identifier c");
    let tree = parse("a or b or c");
    assert!(matches!(&tree, Expr::Or(left, _) if matches!(**left, Expr::Or(_, _))));
    let tree = parse("a and b and c");
    assert!(matches!(&tree, Expr::And(left, _) if matches!(**left, Expr::And(_, _))));
}

#[test]
fn tighter_levels_bind_first() {
    assert_eq!(shown("1 + 2 * 3"), "(+ 1.0 (* 2.0 3.0))");
    assert_eq!(shown("1 * 2 + 3"), "(+ (* 1.0 2.0) 3.0)");
    assert_eq!(shown("1 + 2 < 3 - 4"), "(< (+ 1.0 2.0) (- 3.0 4.0))");
    assert_eq!(shown("1 < 2 == 3 > 4"), "(== (< 1.0 2.0) (> 3.0 4.0))");
    assert_eq!(shown("-1 * 2"), "(* (- 1.0) 2.0)");
    assert_eq!(shown("!true == false"), "(== (! true) false)");
    let tree = parse("a or b and c");
    assert!(matches!(&tree, Expr::Or(_, right) if matches!(**right, Expr::And(_, _))));
    let tree = parse("a == b and c");
    assert!(matches!(&tree, Expr::And(left, _) if matches!(**left, Expr::Binary(BinaryOperator::EqualEqual, _, _))));
}

#[test]
fn unary_operators_nest() {
    assert_eq!(shown("!!true"), "(! (! true))");
    assert_eq!(shown("--1"), "(- (- 1.0))");
    assert!(matches!(parse("-x"), Expr::Unary(UnaryOperator::Minus, _)));
}

#[test]
fn grouping() {
    assert_eq!(shown("(1 + 2) * 3"), "(* (group (+ 1.0 2.0)) 3.0)");
    assert_eq!(shown("((true))"), "(group (group true))");
}

#[test]
fn empty_block_is_nil() {
    assert!(matches!(parse("{}"), Expr::Nil));
}

#[test]
fn block_holds_its_statements() {
    let tree = parse("{ var x = 2; print x; }");
    match &tree {
        Expr::Statements(items) => {
            assert_eq!(items.len(), 4);
            assert!(matches!(&items[0], Expr::Assignment(name, _, true) if name == "x"));
            assert!(matches!(&items[1], Expr::Semicolon));
            assert!(matches!(&items[2], Expr::Print(_)));
            assert!(matches!(&items[3], Expr::Semicolon));
        }
        _ => panic!("no block"),
    }
    assert_eq!(tree.to_string(), "statements 4");
}

#[test]
fn program_of_one_statement_is_that_statement() {
    assert!(matches!(parse("1"), Expr::Number(_, _)));
    assert!(matches!(parse("1;"), Expr::Statements(items) if items.len() == 2));
    assert!(matches!(parse(""), Expr::Statements(items) if items.is_empty()));
}

#[test]
fn names_are_read_assigned_or_called() {
    assert_eq!(shown("x"), "identifier x");
    assert!(matches!(parse("x = 1"), Expr::Assignment(name, _, false) if name == "x"));
    assert_eq!(shown("x = 1"), "assignment x = 1.0");
    match parse("f(1, x)(2)()") {
        Expr::Callable(name, lists) => {
            assert_eq!(name, "f");
            assert_eq!(lists.len(), 3);
            assert_eq!(lists[0].len(), 2);
            assert_eq!(lists[1].len(), 1);
            assert_eq!(lists[2].len(), 0);
        }
        _ => panic!("no call"),
    }
    assert_eq!(shown("f()"), "callbale f");
    assert_eq!(shown("x + y"), "(+ identifier x identifier y)");
}

#[test]
fn declarations() {
    assert!(matches!(parse("var x = 1"), Expr::Assignment(name, value, true)
        if name == "x" && matches!(*value, Expr::Number(_, _))));
    match parse("var x;") {
        Expr::Assignment(name, value, true) => {
            assert_eq!(name, "x");
            assert!(matches!(*value, Expr::Semicolon));
        }
        _ => panic!("no declaration"),
    }
}

#[test]
fn print_and_return() {
    assert_eq!(shown("print 1 + 2"), "print (+ 1.0 2.0)");
    assert_eq!(shown("return 1"), "return");
    assert!(matches!(parse("return;"), Expr::Return(value) if matches!(*value, Expr::Semicolon)));
}

#[test]
fn if_with_and_without_else() {
    assert!(matches!(parse("if (a) b"), Expr::IfElse(_, _, None)));
    assert!(matches!(parse("if (a) b else c"), Expr::IfElse(_, _, Some(_))));
    assert!(matches!(parse("if (a) print b; else print c;"), Expr::Statements(items)
        if items.len() == 2 && matches!(&items[0], Expr::IfElse(_, _, Some(_)))));
    assert!(matches!(parse("if (a) b;"), Expr::IfElse(_, _, None)));
    assert_eq!(shown("if (a) b"), "if (group identifier a) then identifier b");
}

#[test]
fn while_loop() {
    assert!(matches!(parse("while (a) { b; }"), Expr::While(_, body)
        if matches!(*body, Expr::Statements(_))));
    assert_eq!(shown("while (a) b"), "while ((group identifier a)) identifier b");
}

#[test]
fn for_clauses_are_optional() {
    assert!(matches!(
        parse("for (var i = 0; i < 3; i = i + 1) print i;"),
        Expr::Statements(items) if matches!(&items[0], Expr::For(Some(_), Some(_), Some(_), _))
    ));
    assert!(matches!(parse("for (;;) {}"), Expr::For(None, None, None, body)
        if matches!(*body, Expr::Nil)));
    assert!(matches!(parse("for (; a;) { b; }"), Expr::For(None, Some(_), None, _)));
    assert!(matches!(parse("for (var i; a; i = 1) { b; }"), Expr::For(Some(_), Some(_), Some(_), _)));
    assert_eq!(shown("for (;;) {}"), "for (;;) nil");
    assert_eq!(shown("for (; a;) print b"), "for (;identifier a;) print identifier b");
}

#[test]
fn function_declaration() {
    match parse("fun add(a, b) { return a + b; }") {
        Expr::Fun(name, params, body) => {
            assert_eq!(name, "add");
            assert_eq!(params, vec!["a", "b"]);
            assert!(matches!(*body, Expr::Statements(_)));
        }
        _ => panic!("no function"),
    }
    assert!(matches!(parse("fun f() {}"), Expr::Fun(_, params, body)
        if params.is_empty() && matches!(*body, Expr::Nil)));
    assert_eq!(shown("fun f() {}"), "fun f");
}

#[test]
fn function_body_is_the_block_alone() {
    match parse("fun f() { 1; } - 2") {
        Expr::Binary(BinaryOperator::Minus, left, right) => {
            assert!(matches!(*left, Expr::Fun(_, _, body) if matches!(*body, Expr::Statements(_))));
            assert!(matches!(*right, Expr::Number(_, _)));
        }
        _ => panic!("no difference"),
    }
}

#[test]
fn faults_are_reported_with_their_line() {
    assert_eq!(fault("(1 + 2"), ParseError { fault: Fault::UnmatchedParentheses, line: 1 });
    assert_eq!(fault("\n\n{ 1;"), ParseError { fault: Fault::UnmatchedBraces, line: 3 });
    assert_eq!(fault("{"), ParseError { fault: Fault::UnmatchedBraces, line: 1 });
    assert_eq!(fault("1 +"), ParseError { fault: Fault::ExpectedToken, line: 1 });
    assert_eq!(fault("\n)"), ParseError { fault: Fault::UnknownToken, line: 2 });
    assert_eq!(fault("1 + * 2").fault, Fault::UnknownToken);
    assert_eq!(fault("else").fault, Fault::UnknownToken);
    assert_eq!(fault("var 1 = 2").fault, Fault::ExpectedIdentifier);
    assert_eq!(fault("var").fault, Fault::ExpectedIdentifier);
    assert_eq!(fault("var x 1").fault, Fault::ExpectedAssignment);
    assert_eq!(fault("var x").fault, Fault::ExpectedAssignment);
    assert_eq!(fault("print ;").fault, Fault::PrintWithoutExpression);
    assert_eq!(fault("f(1; 2)").fault, Fault::UnexpectedSemicolon);
    assert_eq!(fault("f(1, 2").fault, Fault::UnmatchedParentheses);
    assert_eq!(fault("f(").fault, Fault::UnmatchedParentheses);
    assert_eq!(fault("fun (a) {}").fault, Fault::ExpectedIdentifier);
    assert_eq!(fault("fun f {}").fault, Fault::ExpectedLeftParen);
    assert_eq!(fault("fun f(a b) {}").fault, Fault::MissingComma);
    assert_eq!(fault("fun f(a, 1) {}").fault, Fault::ExpectedIdentifier);
    assert_eq!(fault("fun f(a").fault, Fault::UnmatchedParentheses);
    assert_eq!(fault("fun f() 1").fault, Fault::ExpectedLeftBrace);
    assert_eq!(fault("fun f()").fault, Fault::ExpectedLeftBrace);
    assert_eq!(fault("for x").fault, Fault::ExpectedLeftParen);
    assert_eq!(fault("for ({}; a; b) {}").fault, Fault::EmptyClause);
    assert_eq!(fault("for (a; {}; b) {}").fault, Fault::EmptyClause);
    assert_eq!(fault("for (a; b; {}) {}").fault, Fault::EmptyClause);
    assert_eq!(fault("for (a; b; c {}").fault, Fault::UnmatchedParentheses);
    assert_eq!(fault("for (;;) var x;").fault, Fault::BadForBody);
    assert_eq!(fault("for (;;) x = 1").fault, Fault::BadForBody);
    assert_eq!(fault("for (;;)").fault, Fault::ExpectedToken);
}

#[test]
fn only_names_can_be_called() {
    assert_eq!(fault("1(2)").fault, Fault::CanOnlyCall);
    assert_eq!(fault("\"a\"()").fault, Fault::CanOnlyCall);
    assert_eq!(fault("(f)(1)").fault, Fault::CanOnlyCall);
    assert_eq!(Fault::CanOnlyCall.condition(), Condition::Runtime);
    assert_eq!(Fault::UnmatchedBraces.condition(), Condition::Syntax);
    assert_eq!(Fault::CanOnlyCall.message(), "Can only call functions and classes.");
    assert_eq!(Fault::UnmatchedParentheses.message(), "Unmatched parentheses.");
}

#[test]
fn string_token_needs_its_value() {
    let tokens = vec![Token::new(Type::String, "\"a\"", None, 4)];
    assert_eq!(
        parse_tokens(&tokens).unwrap_err(),
        ParseError { fault: Fault::MissingLiteral, line: 4 }
    );
}

#[test]
fn operators_come_from_token_kinds() {
    assert_eq!(UnaryOperator::from(Type::Bang), Some(UnaryOperator::Bang));
    assert_eq!(UnaryOperator::from(Type::Minus), Some(UnaryOperator::Minus));
    assert_eq!(UnaryOperator::from(Type::Plus), None);
    assert_eq!(BinaryOperator::from(Type::BangEqual), Some(BinaryOperator::BangEqual));
    assert_eq!(BinaryOperator::from(Type::EqualEqual), Some(BinaryOperator::EqualEqual));
    assert_eq!(BinaryOperator::from(Type::Less), Some(BinaryOperator::Less));
    assert_eq!(BinaryOperator::from(Type::LessEqual), Some(BinaryOperator::LessEqual));
    assert_eq!(BinaryOperator::from(Type::Greater), Some(BinaryOperator::Greater));
    assert_eq!(BinaryOperator::from(Type::GreaterEqual), Some(BinaryOperator::GreaterEqual));
    assert_eq!(BinaryOperator::from(Type::Star), Some(BinaryOperator::Star));
    assert_eq!(BinaryOperator::from(Type::Plus), Some(BinaryOperator::Plus));
    assert_eq!(BinaryOperator::from(Type::Minus), Some(BinaryOperator::Minus));
    assert_eq!(BinaryOperator::from(Type::Slash), Some(BinaryOperator::Slash));
    assert_eq!(BinaryOperator::from(Type::Bang), None);
    assert_eq!(UnaryOperator::Bang.to_string(), "!");
    assert_eq!(UnaryOperator::Minus.to_string(), "-");
    assert_eq!(BinaryOperator::LessEqual.to_string(), "<=");
    assert_eq!(BinaryOperator::Slash.to_string(), "/");
}

#[test]
fn parse_errors_are_reported_with_their_line() {
    assert_eq!(fault("\n(1").to_string(), "[line 2] Error: Unmatched parentheses.");
    assert_eq!(fault("1(2)").to_string(), "[line 1] Error: Can only call functions and classes.");
}

#[test]
fn conditions_have_exit_codes() {
    assert_eq!(Condition::Syntax.exit_code(), 65);
    assert_eq!(Condition::Runtime.exit_code(), 70);
}
