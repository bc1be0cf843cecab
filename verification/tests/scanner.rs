use lox_interpreter::scanner::comment;
use lox_interpreter::scanner::identifier;
use lox_interpreter::scanner::keywords;
use lox_interpreter::scanner::number;
use lox_interpreter::scanner::string;
use lox_interpreter::scanner::{scan_tokens, Token, Type};

fn chars(text: &str) -> Vec<char> {
    text.chars().collect()
}

fn kinds(source: &str) -> Vec<Type> {
    scan_tokens(source).tokens.iter().map(|token| token.ty).collect()
}

fn lexemes(source: &str) -> Vec<String> {
    scan_tokens(source).tokens.iter().map(|token| token.lexeme.clone()).collect()
}

#[test]
fn single_character_tokens() {
    assert_eq!(
        kinds("(){}*.,+-;/"),
        vec![
            Type::LeftParen,
            Type::RightParen,
            Type::LeftBrace,
            Type::RightBrace,
            Type::Star,
            Type::Dot,
            Type::Comma,
            Type::Plus,
            Type::Minus,
            Type::Semicolon,
            Type::Slash,
        ]
    );
    assert_eq!(lexemes("( ) ;"), vec!["(", ")", ";"]);
}

#[test]
fn one_or_two_character_tokens() {
    assert_eq!(
        kinds("! != = == < <= > >="),
        vec![
            Type::Bang,
            Type::BangEqual,
            Type::Equal,
            Type::EqualEqual,
            Type::Less,
            Type::LessEqual,
            Type::Greater,
            Type::GreaterEqual,
        ]
    );
    assert_eq!(lexemes("!= >= ="), vec!["!=", ">=", "="]);
    assert_eq!(kinds("==="), vec![Type::EqualEqual, Type::Equal]);
}

#[test]
fn comments_run_to_the_end_of_the_line() {
    let scanned = scan_tokens("1 // nothing here ) (\n2");
    assert_eq!(scanned.tokens.len(), 2);
    assert_eq!(scanned.tokens[0].line, 1);
    assert_eq!(scanned.tokens[1].line, 2);
    assert_eq!(scanned.tokens[1].lexeme, "2");
    assert!(scan_tokens("// only a comment").tokens.is_empty());
}

#[test]
fn comment_scan_stops_at_line_feed() {
    let text = chars("abc\ndef");
    assert_eq!(comment::scan(&text, 0), 3);
    assert_eq!(comment::scan(&text, 3), 3);
    assert_eq!(comment::scan(&text, 4), 7);
    assert_eq!(comment::scan(&text, 7), 7);
}

#[test]
fn keywords_are_recognised() {
    assert_eq!(
        kinds("and class else false for fun if nil or print return super this true var while"),
        vec![
            Type::And,
            Type::Class,
            Type::Else,
            Type::False,
            Type::For,
            Type::Fun,
            Type::If,
            Type::Nil,
            Type::Or,
            Type::Print,
            Type::Return,
            Type::Super,
            Type::This,
            Type::True,
            Type::Var,
            Type::While,
        ]
    );
    assert_eq!(keywords::map(&String::from("while")), Some(Type::While));
    assert_eq!(keywords::map(&String::from("whilst")), None);
    assert_eq!(keywords::map(&String::from("")), None);
    assert_eq!(keywords::map(&String::from("And")), None);
}

#[test]
fn identifiers_hold_letters_digits_and_underscores() {
    assert_eq!(kinds("foo _bar baz9 andy"), vec![Type::Identifier; 4]);
    assert_eq!(lexemes("foo _bar baz9 andy"), vec!["foo", "_bar", "baz9", "andy"]);
    assert!(identifier::is_alpha_numeric('a'));
    assert!(identifier::is_alpha_numeric('Z'));
    assert!(identifier::is_alpha_numeric('_'));
    assert!(identifier::is_alpha_numeric('5'));
    assert!(!identifier::is_alpha_numeric('-'));
    assert!(!identifier::is_alpha_numeric(' '));
    assert!(!identifier::is_alpha_numeric('é'));
    let text = chars("ab_1+c");
    assert_eq!(identifier::scan(&text, 1), (String::from("ab_1"), 4));
    assert_eq!(identifier::scan(&text, 6), (String::from("c"), 6));
}

#[test]
fn numbers_take_a_point_only_before_a_digit() {
    assert_eq!(lexemes("12 3.25 4. .5 6.7.8"), vec!["12", "3.25", "4", ".", ".", "5", "6.7", ".", "8"]);
    assert_eq!(
        kinds("4. .5"),
        vec![Type::Number, Type::Dot, Type::Dot, Type::Number]
    );
    let text = chars("12.50)");
    assert_eq!(number::scan(&text, 1), (String::from("12.50"), 5));
    let text = chars("7.");
    assert_eq!(number::scan(&text, 1), (String::from("7"), 1));
    let text = chars("7.x");
    assert_eq!(number::scan(&text, 1), (String::from("7"), 1));
}

#[test]
fn number_tokens_get_their_literal_from_the_host() {
    let mut scanned = scan_tokens("42 x");
    assert_eq!(scanned.tokens[0].literal, None);
    scanned.tokens[0].fill_number("42");
    assert_eq!(scanned.tokens[0].literal, Some(String::from("42.0")));
    scanned.tokens[0].fill_number("1.5");
    assert_eq!(scanned.tokens[0].literal, Some(String::from("1.5")));
    scanned.tokens[1].fill_number("1.5");
    assert_eq!(scanned.tokens[1].literal, None);
    assert_eq!(scanned.tokens[1].ty, Type::Identifier);
}

#[test]
fn strings_carry_their_value() {
    let scanned = scan_tokens("\"hello world\" \"\"");
    assert!(scanned.errors.is_empty());
    assert_eq!(scanned.tokens.len(), 2);
    assert_eq!(scanned.tokens[0].ty, Type::String);
    assert_eq!(scanned.tokens[0].lexeme, "\"hello world\"");
    assert_eq!(scanned.tokens[0].literal, Some(String::from("hello world")));
    assert_eq!(scanned.tokens[1].lexeme, "\"\"");
    assert_eq!(scanned.tokens[1].literal, Some(String::new()));
}

#[test]
fn strings_may_span_lines() {
    let scanned = scan_tokens("\"a\nb\" x");
    assert_eq!(scanned.tokens[0].literal, Some(String::from("a\nb")));
    assert_eq!(scanned.tokens[0].line, 2);
    assert_eq!(scanned.tokens[1].line, 2);
}

#[test]
fn unterminated_string_is_an_error() {
    let scanned = scan_tokens("1 \"abc\ndef");
    assert_eq!(scanned.tokens.len(), 1);
    assert_eq!(scanned.errors.len(), 1);
    assert_eq!(scanned.errors[0].message, "Unterminated string.");
    assert_eq!(scanned.errors[0].line, 2);
}

#[test]
fn quote_at_the_very_end_is_an_empty_string() {
    let scanned = scan_tokens("x \"");
    assert!(scanned.errors.is_empty());
    assert_eq!(scanned.tokens.len(), 2);
    assert_eq!(scanned.tokens[1].lexeme, "\"\"");
    assert_eq!(scanned.tokens[1].literal, Some(String::new()));
}

#[test]
fn string_scan_reports_end_and_lines() {
    let text = chars("\"ab\nc\" d");
    let mut line = 1;
    let scanned = string::scan(&text, 1, &mut line);
    assert_eq!(scanned.end, 6);
    assert_eq!(line, 2);
    assert_eq!(scanned.outcome.unwrap(), (String::from("\"ab\nc\""), String::from("ab\nc")));
    let text = chars("\"ab\n\n");
    let mut line = 3;
    let scanned = string::scan(&text, 1, &mut line);
    assert_eq!(scanned.end, 5);
    assert_eq!(line, 5);
    let error = scanned.outcome.unwrap_err();
    assert_eq!(error.line, 5);
    assert_eq!(error.message, "Unterminated string.");
}

#[test]
fn unexpected_characters_are_errors() {
    let scanned = scan_tokens("1 @\n# 2 \r");
    assert_eq!(scanned.tokens.len(), 2);
    assert_eq!(scanned.errors.len(), 3);
    assert_eq!(scanned.errors[0].message, "Unexpected character: @");
    assert_eq!(scanned.errors[0].line, 1);
    assert_eq!(scanned.errors[1].message, "Unexpected character: #");
    assert_eq!(scanned.errors[1].line, 2);
    assert_eq!(scanned.errors[2].message, "Unexpected character: \r");
}

#[test]
fn blanks_tabs_and_line_feeds_give_no_token() {
    let scanned = scan_tokens(" \t\n\n  \t");
    assert!(scanned.tokens.is_empty());
    assert!(scanned.errors.is_empty());
    assert!(scan_tokens("").tokens.is_empty());
}

#[test]
fn lines_are_counted_from_one() {
    let scanned = scan_tokens("a\nb\n\nc");
    let lines: Vec<usize> = scanned.tokens.iter().map(|token| token.line).collect();
    assert_eq!(lines, vec![1, 2, 4]);
}

#[test]
fn token_new_keeps_its_parts() {
    let token = Token::new(Type::String, "\"a\"", Some(String::from("a")), 7);
    assert_eq!(token.ty, Type::String);
    assert_eq!(token.lexeme, "\"a\"");
    assert_eq!(token.literal, Some(String::from("a")));
    assert_eq!(token.line, 7);
}

#[test]
fn kinds_have_upper_case_names() {
    assert_eq!(Type::LeftParen.to_string(), "LEFT_PAREN");
    assert_eq!(Type::RightBrace.to_string(), "RIGHT_BRACE");
    assert_eq!(Type::BangEqual.to_string(), "BANG_EQUAL");
    assert_eq!(Type::GreaterEqual.to_string(), "GREATER_EQUAL");
    assert_eq!(Type::String.to_string(), "STRING");
    assert_eq!(Type::Identifier.to_string(), "IDENTIFIER");
    assert_eq!(Type::While.to_string(), "WHILE");
}

#[test]
fn tokens_are_listed_line_by_line() {
    let mut scanned = scan_tokens("var x = 1.50; \"a b\" @");
    scanned.tokens[3].fill_number("1.5");
    assert_eq!(
        scanned.listing(),
        vec![
            "VAR var null",
            "IDENTIFIER x null",
            "EQUAL = null",
            "NUMBER 1.50 1.5",
            "SEMICOLON ; null",
            "STRING \"a b\" a b",
            "EOF  null",
        ]
    );
    assert_eq!(scanned.reports(), vec!["[line 1] Error: Unexpected character: @"]);
    assert_eq!(scanned.tokens[5].to_string(), "STRING \"a b\" a b");
    assert_eq!(scanned.errors[0].to_string(), "[line 1] Error: Unexpected character: @");
    assert_eq!(scan_tokens("").listing(), vec!["EOF  null"]);
    assert!(scan_tokens("").reports().is_empty());
}

#[test]
fn errors_are_reported_with_their_line() {
    let scanned = scan_tokens("\n\n\"open");
    assert_eq!(scanned.reports(), vec!["[line 3] Error: Unterminated string."]);
}

#[test]
fn every_kind_has_its_name() {
    let names = [
        (Type::RightParen, "RIGHT_PAREN"),
        (Type::RightBrace, "RIGHT_BRACE"),
        (Type::LeftParen, "LEFT_PAREN"),
        (Type::LeftBrace, "LEFT_BRACE"),
        (Type::Star, "STAR"),
        (Type::Dot, "DOT"),
        (Type::Comma, "COMMA"),
        (Type::Plus, "PLUS"),
        (Type::Minus, "MINUS"),
        (Type::Semicolon, "SEMICOLON"),
        (Type::Slash, "SLASH"),
        (Type::Bang, "BANG"),
        (Type::BangEqual, "BANG_EQUAL"),
        (Type::Equal, "EQUAL"),
        (Type::EqualEqual, "EQUAL_EQUAL"),
        (Type::Less, "LESS"),
        (Type::LessEqual, "LESS_EQUAL"),
        (Type::Greater, "GREATER"),
        (Type::GreaterEqual, "GREATER_EQUAL"),
        (Type::String, "STRING"),
        (Type::Number, "NUMBER"),
        (Type::Identifier, "IDENTIFIER"),
        (Type::And, "AND"),
        (Type::Class, "CLASS"),
        (Type::Else, "ELSE"),
        (Type::False, "FALSE"),
        (Type::For, "FOR"),
        (Type::Fun, "FUN"),
        (Type::If, "IF"),
        (Type::Nil, "NIL"),
        (Type::Or, "OR"),
        (Type::Print, "PRINT"),
        (Type::Return, "RETURN"),
        (Type::Super, "SUPER"),
        (Type::This, "THIS"),
        (Type::True, "TRUE"),
        (Type::Var, "VAR"),
        (Type::While, "WHILE"),
    ];
    for (kind, name) in names {
        assert_eq!(kind.to_string(), name);
    }
}

#[test]
fn line_feed_at_the_end_gives_nothing() {
    let scanned = scan_tokens("a\n");
    assert_eq!(scanned.tokens.len(), 1);
    assert!(scanned.errors.is_empty());
    let scanned = scan_tokens("a\n\n@");
    assert_eq!(scanned.errors[0].line, 3);
}
