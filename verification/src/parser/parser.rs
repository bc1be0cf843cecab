//! The recursive-descent parser.

use vstd::prelude::*;
use crate::parser::error::{Fault, ParseError};
use crate::parser::expr::{
    list_views,
    list_views_push,
    texts,
    views,
    views_index,
    views_push,
    BinaryOperator,
    Expr,
    ExprView,
    UnaryOperator,
};
use crate::parser::grammar;
use crate::parser::grammar::{kind_at, Level, Parse};
use crate::scanner::{Token, Type};

verus! {

/// What a parsing function returns, as the grammar states it.
pub open spec fn parsed(result: Result<(Expr, usize), ParseError>) -> Parse {
    match result {
        Ok((expr, next)) => Ok((expr@, next as int)),
        Err(error) => Err(error),
    }
}

/// Whether a successful result read at least one token from `pos` on and
/// stayed inside the `len` tokens.
pub open spec fn advanced<T>(result: Result<(T, usize), ParseError>, pos: usize, len: nat) -> bool {
    result matches Ok(found) ==> pos < found.1 <= len
}

fn fail<T>(fault: Fault, line: usize) -> (result: Result<T, ParseError>)
    ensures
        result == grammar::fails::<T>(fault, line),
{
    Err(ParseError { fault, line })
}

fn next_is(tokens: &[Token], pos: usize, ty: Type) -> (is: bool)
    ensures
        is == (kind_at(tokens@, pos as int) == Some(ty)),
        tokens@.len() <= usize::MAX,
{
    pos < tokens.len() && tokens[pos].ty == ty
}

fn peek(tokens: &[Token], pos: usize) -> (kind: Option<Type>)
    ensures
        kind == kind_at(tokens@, pos as int),
        tokens@.len() <= usize::MAX,
{
    if pos < tokens.len() {
        Some(tokens[pos].ty)
    } else {
        None
    }
}

fn line_at(tokens: &[Token], pos: usize) -> (line: usize)
    ensures
        line == grammar::line_at(tokens@, pos as int),
{
    if pos < tokens.len() {
        tokens[pos].line
    } else if tokens.len() > 0 {
        tokens[tokens.len() - 1].line
    } else {
        0
    }
}

impl Level {
    /// Whether a token of kind `ty` is an operator of this level.
    pub fn admits(&self, ty: Type) -> (joins: bool)
        ensures
            joins == self.joins(ty),
    {
        match self {
            Level::Or => ty == Type::Or,
            Level::And => ty == Type::And,
            Level::Equality => ty == Type::EqualEqual || ty == Type::BangEqual,
            Level::Comparison => ty == Type::Greater || ty == Type::GreaterEqual || ty
                == Type::Less || ty == Type::LessEqual,
            Level::Term => ty == Type::Minus || ty == Type::Plus,
            Level::Factor => ty == Type::Star || ty == Type::Slash,
        }
    }

    /// Joins two trees by the operator `ty` of this level.
    pub fn build(&self, ty: Type, left: Expr, right: Expr) -> (joined: Expr)
        ensures
            joined@ == self.join(ty, left@, right@),
    {
        match self {
            Level::Or => Expr::Or(Box::new(left), Box::new(right)),
            Level::And => Expr::And(Box::new(left), Box::new(right)),
            _ => match BinaryOperator::from(ty) {
                Some(operator) => Expr::Binary(operator, Box::new(left), Box::new(right)),
                None => left,
            },
        }
    }
}

fn expression(tokens: &[Token], pos: usize) -> (result: Result<(Expr, usize), ParseError>)
    requires
        pos <= tokens@.len(),
    ensures
        parsed(result) == grammar::expression(tokens@, pos as int),
        advanced(result, pos, tokens@.len()),
    decreases tokens@.len() - pos, 21nat,
{
    or(tokens, pos)
}

fn or(tokens: &[Token], pos: usize) -> (result: Result<(Expr, usize), ParseError>)
    requires
        pos <= tokens@.len(),
    ensures
        parsed(result) == grammar::chain(tokens@, pos as int, Level::Or),
        advanced(result, pos, tokens@.len()),
    decreases tokens@.len() - pos, 20nat,
{
    chain(tokens, pos, Level::Or)
}

fn and(tokens: &[Token], pos: usize) -> (result: Result<(Expr, usize), ParseError>)
    requires
        pos <= tokens@.len(),
    ensures
        parsed(result) == grammar::chain(tokens@, pos as int, Level::And),
        advanced(result, pos, tokens@.len()),
    decreases tokens@.len() - pos, 17nat,
{
    chain(tokens, pos, Level::And)
}

fn equality(tokens: &[Token], pos: usize) -> (result: Result<(Expr, usize), ParseError>)
    requires
        pos <= tokens@.len(),
    ensures
        parsed(result) == grammar::chain(tokens@, pos as int, Level::Equality),
        advanced(result, pos, tokens@.len()),
    decreases tokens@.len() - pos, 14nat,
{
    chain(tokens, pos, Level::Equality)
}

fn comparison(tokens: &[Token], pos: usize) -> (result: Result<(Expr, usize), ParseError>)
    requires
        pos <= tokens@.len(),
    ensures
        parsed(result) == grammar::chain(tokens@, pos as int, Level::Comparison),
        advanced(result, pos, tokens@.len()),
    decreases tokens@.len() - pos, 11nat,
{
    chain(tokens, pos, Level::Comparison)
}

fn term(tokens: &[Token], pos: usize) -> (result: Result<(Expr, usize), ParseError>)
    requires
        pos <= tokens@.len(),
    ensures
        parsed(result) == grammar::chain(tokens@, pos as int, Level::Term),
        advanced(result, pos, tokens@.len()),
    decreases tokens@.len() - pos, 8nat,
{
    chain(tokens, pos, Level::Term)
}

fn factor(tokens: &[Token], pos: usize) -> (result: Result<(Expr, usize), ParseError>)
    requires
        pos <= tokens@.len(),
    ensures
        parsed(result) == grammar::chain(tokens@, pos as int, Level::Factor),
        advanced(result, pos, tokens@.len()),
    decreases tokens@.len() - pos, 5nat,
{
    chain(tokens, pos, Level::Factor)
}

fn operand(tokens: &[Token], pos: usize, level: Level) -> (result: Result<
    (Expr, usize),
    ParseError,
>)
    requires
        pos <= tokens@.len(),
    ensures
        parsed(result) == grammar::operand(tokens@, pos as int, level),
        advanced(result, pos, tokens@.len()),
    decreases tokens@.len() - pos, 3 * level.weight(),
{
    match level {
        Level::Or => and(tokens, pos),
        Level::And => equality(tokens, pos),
        Level::Equality => comparison(tokens, pos),
        Level::Comparison => term(tokens, pos),
        Level::Term => factor(tokens, pos),
        Level::Factor => unary(tokens, pos),
    }
}

fn chain(tokens: &[Token], pos: usize, level: Level) -> (result: Result<(Expr, usize), ParseError>)
    requires
        pos <= tokens@.len(),
    ensures
        parsed(result) == grammar::chain(tokens@, pos as int, level),
        advanced(result, pos, tokens@.len()),
    decreases tokens@.len() - pos, 3 * level.weight() + 1,
{
    let (mut left, mut at) = match operand(tokens, pos, level) {
        Ok(found) => found,
        Err(error) => {
            return Err(error);
        },
    };
    loop
        invariant
            pos < at <= tokens@.len(),
            grammar::chain(tokens@, pos as int, level) == grammar::chain_rest(
                tokens@,
                at as int,
                level,
                left@,
            ),
        decreases tokens@.len() - at,
    {
        match peek(tokens, at) {
            Some(ty) if level.admits(ty) => {
                match operand(tokens, at + 1, level) {
                    Ok((right, next)) => {
                        left = level.build(ty, left, right);
                        at = next;
                    },
                    Err(error) => {
                        return Err(error);
                    },
                }
            },
            _ => {
                return Ok((left, at));
            },
        }
    }
}

fn unary(tokens: &[Token], pos: usize) -> (result: Result<(Expr, usize), ParseError>)
    requires
        pos <= tokens@.len(),
    ensures
        parsed(result) == grammar::unary(tokens@, pos as int),
        advanced(result, pos, tokens@.len()),
    decreases tokens@.len() - pos, 1nat,
{
    if let Some(ty) = peek(tokens, pos) {
        if let Some(operator) = UnaryOperator::from(ty) {
            return match unary(tokens, pos + 1) {
                Ok((right, next)) => Ok((Expr::Unary(operator, Box::new(right)), next)),
                Err(error) => Err(error),
            };
        }
    }
    primary(tokens, pos)
}

fn number_shown(token: &Token) -> (text: String)
    ensures
        text@ == grammar::number_shown(*token),
{
    match &token.literal {
        Some(literal) => literal.clone(),
        None => token.lexeme.clone(),
    }
}

fn literal(tokens: &[Token], pos: usize) -> (result: Result<(Expr, usize), ParseError>)
    requires
        pos < tokens@.len(),
    ensures
        parsed(result) == grammar::literal(tokens@, pos as int),
        advanced(result, pos, tokens@.len()),
{
    let token = &tokens[pos];
    if next_is(tokens, pos + 1, Type::LeftParen) {
        return fail(Fault::CanOnlyCall, token.line);
    }
    if token.ty == Type::Number {
        Ok((Expr::Number(token.lexeme.clone(), number_shown(token)), pos + 1))
    } else {
        match &token.literal {
            Some(value) => Ok((Expr::String(value.clone()), pos + 1)),
            None => fail(Fault::MissingLiteral, token.line),
        }
    }
}

fn group(tokens: &[Token], pos: usize, line: usize) -> (result: Result<(Expr, usize), ParseError>)
    requires
        pos <= tokens@.len(),
    ensures
        parsed(result) == grammar::group(tokens@, pos as int, line),
        advanced(result, pos, tokens@.len()),
    decreases tokens@.len() - pos, 22nat,
{
    match expression(tokens, pos) {
        Ok((inner, close)) => {
            if !next_is(tokens, close, Type::RightParen) {
                return fail(Fault::UnmatchedParentheses, line);
            }
            if next_is(tokens, close + 1, Type::LeftParen) {
                return fail(Fault::CanOnlyCall, line);
            }
            Ok((Expr::Grouping(Box::new(inner)), close + 1))
        },
        Err(error) => Err(error),
    }
}

fn named(tokens: &[Token], pos: usize, line: usize, name: String) -> (result: Result<
    (Expr, usize),
    ParseError,
>)
    requires
        0 < pos <= tokens@.len(),
    ensures
        parsed(result) == grammar::named(tokens@, pos as int, line, name@),
        result matches Ok(found) ==> pos <= found.1 <= tokens@.len(),
    decreases tokens@.len() - pos, 24nat,
{
    if next_is(tokens, pos, Type::Equal) {
        match expression(tokens, pos + 1) {
            Ok((value, end)) => Ok((Expr::Assignment(name, Box::new(value), false), end)),
            Err(error) => Err(error),
        }
    } else if next_is(tokens, pos, Type::LeftParen) {
        calls(tokens, pos, line, name)
    } else {
        Ok((Expr::Identifier(name), pos))
    }
}

fn declaration(tokens: &[Token], pos: usize, line: usize) -> (result: Result<
    (Expr, usize),
    ParseError,
>)
    requires
        pos <= tokens@.len(),
    ensures
        parsed(result) == grammar::declaration(tokens@, pos as int, line),
        advanced(result, pos, tokens@.len()),
    decreases tokens@.len() - pos, 22nat,
{
    proof {
        reveal_with_fuel(crate::parser::expr::tree_of, 2);
    }
    if !next_is(tokens, pos, Type::Identifier) {
        return fail(Fault::ExpectedIdentifier, line);
    }
    let name = tokens[pos].lexeme.clone();
    if next_is(tokens, pos + 1, Type::Equal) {
        match expression(tokens, pos + 2) {
            Ok((value, end)) => Ok((Expr::Assignment(name, Box::new(value), true), end)),
            Err(error) => Err(error),
        }
    } else if next_is(tokens, pos + 1, Type::Semicolon) {
        Ok((Expr::Assignment(name, Box::new(Expr::Semicolon), true), pos + 2))
    } else {
        fail(Fault::ExpectedAssignment, line)
    }
}

fn print(tokens: &[Token], pos: usize, line: usize) -> (result: Result<(Expr, usize), ParseError>)
    requires
        pos <= tokens@.len(),
    ensures
        parsed(result) == grammar::print(tokens@, pos as int, line),
        advanced(result, pos, tokens@.len()),
    decreases tokens@.len() - pos, 22nat,
{
    match expression(tokens, pos) {
        Ok((value, end)) => {
            if let Expr::Semicolon = value {
                return fail(Fault::PrintWithoutExpression, line);
            }
            Ok((Expr::Print(Box::new(value)), end))
        },
        Err(error) => Err(error),
    }
}

fn returned(tokens: &[Token], pos: usize) -> (result: Result<(Expr, usize), ParseError>)
    requires
        pos <= tokens@.len(),
    ensures
        parsed(result) == grammar::returned(tokens@, pos as int),
        advanced(result, pos, tokens@.len()),
    decreases tokens@.len() - pos, 22nat,
{
    match expression(tokens, pos) {
        Ok((value, end)) => Ok((Expr::Return(Box::new(value)), end)),
        Err(error) => Err(error),
    }
}

fn while_loop(tokens: &[Token], pos: usize) -> (result: Result<(Expr, usize), ParseError>)
    requires
        pos <= tokens@.len(),
    ensures
        parsed(result) == grammar::while_loop(tokens@, pos as int),
        advanced(result, pos, tokens@.len()),
    decreases tokens@.len() - pos, 22nat,
{
    match expression(tokens, pos) {
        Ok((condition, then)) => match expression(tokens, then) {
            Ok((body, end)) => Ok((Expr::While(Box::new(condition), Box::new(body)), end)),
            Err(error) => Err(error),
        },
        Err(error) => Err(error),
    }
}

fn primary(tokens: &[Token], pos: usize) -> (result: Result<(Expr, usize), ParseError>)
    requires
        pos <= tokens@.len(),
    ensures
        parsed(result) == grammar::primary(tokens@, pos as int),
        advanced(result, pos, tokens@.len()),
    decreases tokens@.len() - pos, 0nat,
{
    if pos >= tokens.len() {
        return fail(Fault::ExpectedToken, line_at(tokens, pos));
    }
    let token = &tokens[pos];
    let line = token.line;
    let next: usize = pos + 1;
    match token.ty {
        Type::True => Ok((Expr::True, next)),
        Type::False => Ok((Expr::False, next)),
        Type::Nil => Ok((Expr::Nil, next)),
        Type::Semicolon => Ok((Expr::Semicolon, next)),
        Type::Number => literal(tokens, pos),
        Type::String => literal(tokens, pos),
        Type::LeftParen => group(tokens, next, line),
        Type::LeftBrace => {
            if next_is(tokens, next, Type::RightBrace) {
                Ok((Expr::Nil, next + 1))
            } else {
                block(tokens, next, line)
            }
        },
        Type::Identifier => named(tokens, next, line, token.lexeme.clone()),
        Type::Var => declaration(tokens, next, line),
        Type::Print => print(tokens, next, line),
        Type::Return => returned(tokens, next),
        Type::While => while_loop(tokens, next),
        Type::If => conditional(tokens, next),
        Type::Fun => function(tokens, next, line),
        Type::For => for_loop(tokens, next, line),
        _ => fail(Fault::UnknownToken, line),
    }
}

fn block(tokens: &[Token], pos: usize, line: usize) -> (result: Result<(Expr, usize), ParseError>)
    requires
        pos <= tokens@.len(),
    ensures
        parsed(result) == grammar::block(tokens@, pos as int, line, Seq::empty()),
        advanced(result, pos, tokens@.len()),
    decreases tokens@.len() - pos, 22nat,
{
    let mut items: Vec<Expr> = Vec::new();
    let mut at: usize = pos;
    loop
        invariant
            pos <= at <= tokens@.len(),
            grammar::block(tokens@, pos as int, line, Seq::empty()) == grammar::block(
                tokens@,
                at as int,
                line,
                views(items@),
            ),
        decreases tokens@.len() - at,
    {
        if at >= tokens.len() {
            return fail(Fault::UnmatchedBraces, line);
        }
        match expression(tokens, at) {
            Ok((item, next)) => {
                proof {
                    views_push(items@, item);
                }
                items.push(item);
                if next_is(tokens, next, Type::RightBrace) {
                    return Ok((Expr::Statements(items), next + 1));
                }
                at = next;
            },
            Err(error) => {
                return Err(error);
            },
        }
    }
}

fn arguments(tokens: &[Token], pos: usize, line: usize) -> (result: Result<
    (Vec<Expr>, usize),
    ParseError,
>)
    requires
        pos <= tokens@.len(),
    ensures
        match result {
            Ok((items, next)) => grammar::arguments(tokens@, pos as int, line, Seq::empty())
                == Ok::<(Seq<ExprView>, int), ParseError>((views(items@), next as int)),
            Err(error) => grammar::arguments(tokens@, pos as int, line, Seq::empty()) == Err::<
                (Seq<ExprView>, int),
                ParseError,
            >(error),
        },
        advanced(result, pos, tokens@.len()),
    decreases tokens@.len() - pos, 22nat,
{
    let mut items: Vec<Expr> = Vec::new();
    let mut at: usize = pos;
    loop
        invariant
            pos <= at <= tokens@.len(),
            grammar::arguments(tokens@, pos as int, line, Seq::empty()) == grammar::arguments(
                tokens@,
                at as int,
                line,
                views(items@),
            ),
        decreases tokens@.len() - at,
    {
        match peek(tokens, at) {
            None => {
                return fail(Fault::UnmatchedParentheses, line);
            },
            Some(Type::RightParen) => {
                return Ok((items, at + 1));
            },
            Some(Type::Comma) => {
                at = at + 1;
            },
            Some(Type::Semicolon) => {
                return fail(Fault::UnexpectedSemicolon, line);
            },
            Some(_) => {
                match expression(tokens, at) {
                    Ok((item, next)) => {
                        proof {
                            views_push(items@, item);
                        }
                        items.push(item);
                        at = next;
                    },
                    Err(error) => {
                        return Err(error);
                    },
                }
            },
        }
    }
}

fn calls(tokens: &[Token], pos: usize, line: usize, name: String) -> (result: Result<
    (Expr, usize),
    ParseError,
>)
    requires
        pos < tokens@.len(),
    ensures
        parsed(result) == grammar::calls(tokens@, pos as int, line, name@, Seq::empty()),
        advanced(result, pos, tokens@.len()),
    decreases tokens@.len() - pos, 23nat,
{
    let mut lists: Vec<Vec<Expr>> = Vec::new();
    let mut at: usize = pos;
    let len = tokens.len();
    loop
        invariant
            len == tokens@.len(),
            pos <= at < tokens@.len(),
            grammar::calls(tokens@, pos as int, line, name@, Seq::empty()) == grammar::calls(
                tokens@,
                at as int,
                line,
                name@,
                list_views(lists@),
            ),
        decreases tokens@.len() - at,
    {
        match arguments(tokens, at + 1, line) {
            Ok((items, next)) => {
                proof {
                    list_views_push(lists@, items);
                }
                lists.push(items);
                if !next_is(tokens, next, Type::LeftParen) {
                    return Ok((Expr::Callable(name, lists), next));
                }
                at = next;
            },
            Err(error) => {
                return Err(error);
            },
        }
    }
}

fn conditional(tokens: &[Token], pos: usize) -> (result: Result<(Expr, usize), ParseError>)
    requires
        pos <= tokens@.len(),
    ensures
        parsed(result) == grammar::conditional(tokens@, pos as int),
        advanced(result, pos, tokens@.len()),
    decreases tokens@.len() - pos, 22nat,
{
    proof {
        reveal_with_fuel(crate::parser::expr::tree_of, 2);
    }
    let (condition, then) = match expression(tokens, pos) {
        Ok(found) => found,
        Err(error) => {
            return Err(error);
        },
    };
    let (taken, after) = match expression(tokens, then) {
        Ok(found) => found,
        Err(error) => {
            return Err(error);
        },
    };
    let rest: usize = if next_is(tokens, after, Type::Semicolon) {
        after + 1
    } else {
        after
    };
    if next_is(tokens, rest, Type::Else) {
        match expression(tokens, rest + 1) {
            Ok((otherwise, end)) => Ok(
                (
                    Expr::IfElse(Box::new(condition), Box::new(taken), Some(Box::new(otherwise))),
                    end,
                ),
            ),
            Err(error) => Err(error),
        }
    } else {
        Ok((Expr::IfElse(Box::new(condition), Box::new(taken), None), rest))
    }
}

fn parameters(tokens: &[Token], pos: usize, line: usize) -> (result: Result<
    (Vec<String>, usize),
    ParseError,
>)
    requires
        pos <= tokens@.len(),
    ensures
        match result {
            Ok((names, next)) => grammar::parameters(tokens@, pos as int, line, Seq::empty())
                == Ok::<(Seq<Seq<char>>, int), ParseError>((texts(names@), next as int)),
            Err(error) => grammar::parameters(tokens@, pos as int, line, Seq::empty()) == Err::<
                (Seq<Seq<char>>, int),
                ParseError,
            >(error),
        },
        advanced(result, pos, tokens@.len()),
{
    let mut names: Vec<String> = Vec::new();
    let mut at: usize = pos;
    assert(texts(names@) =~= Seq::empty());
    loop
        invariant
            pos <= at <= tokens@.len(),
            grammar::parameters(tokens@, pos as int, line, Seq::empty()) == grammar::parameters(
                tokens@,
                at as int,
                line,
                texts(names@),
            ),
        decreases tokens@.len() - at,
    {
        match peek(tokens, at) {
            None => {
                return fail(Fault::UnmatchedParentheses, line);
            },
            Some(Type::RightParen) => {
                return Ok((names, at + 1));
            },
            Some(Type::Comma) => {
                at = at + 1;
            },
            Some(Type::Identifier) => {
                if let Some(follower) = peek(tokens, at + 1) {
                    if follower != Type::RightParen && follower != Type::Comma {
                        return fail(Fault::MissingComma, line);
                    }
                }
                let name = tokens[at].lexeme.clone();
                assert(texts(names@.push(name)) =~= texts(names@).push(name@));
                names.push(name);
                at = at + 1;
            },
            Some(_) => {
                return fail(Fault::ExpectedIdentifier, line);
            },
        }
    }
}

fn function(tokens: &[Token], pos: usize, line: usize) -> (result: Result<
    (Expr, usize),
    ParseError,
>)
    requires
        pos <= tokens@.len(),
    ensures
        parsed(result) == grammar::function(tokens@, pos as int, line),
        advanced(result, pos, tokens@.len()),
    decreases tokens@.len() - pos, 22nat,
{
    if !next_is(tokens, pos, Type::Identifier) {
        return fail(Fault::ExpectedIdentifier, line);
    }
    if !next_is(tokens, pos + 1, Type::LeftParen) {
        return fail(Fault::ExpectedLeftParen, line);
    }
    let name = tokens[pos].lexeme.clone();
    let (names, start) = match parameters(tokens, pos + 2, line) {
        Ok(found) => found,
        Err(error) => {
            return Err(error);
        },
    };
    if !next_is(tokens, start, Type::LeftBrace) {
        return fail(Fault::ExpectedLeftBrace, line);
    }
    match primary(tokens, start) {
        Ok((body, end)) => Ok((Expr::Fun(name, names, Box::new(body)), end)),
        Err(error) => Err(error),
    }
}

fn clause(tokens: &[Token], pos: usize, line: usize, closer: Type) -> (result: Result<
    (Option<Box<Expr>>, usize),
    ParseError,
>)
    requires
        pos <= tokens@.len(),
    ensures
        match result {
            Ok((item, next)) => grammar::clause(tokens@, pos as int, line, closer) == Ok::<
                (Option<Box<ExprView>>, int),
                ParseError,
            >((crate::parser::expr::optional_view(item), next as int)),
            Err(error) => grammar::clause(tokens@, pos as int, line, closer) == Err::<
                (Option<Box<ExprView>>, int),
                ParseError,
            >(error),
        },
        advanced(result, pos, tokens@.len()),
    decreases tokens@.len() - pos, 22nat,
{
    if next_is(tokens, pos, closer) {
        return Ok((None, pos + 1));
    }
    match expression(tokens, pos) {
        Ok((item, next)) => {
            if let Expr::Nil = item {
                return fail(Fault::EmptyClause, line);
            }
            if next_is(tokens, next, closer) {
                Ok((Some(Box::new(item)), next + 1))
            } else if closer == Type::RightParen {
                fail(Fault::UnmatchedParentheses, line)
            } else {
                Ok((Some(Box::new(item)), next))
            }
        },
        Err(error) => Err(error),
    }
}

fn for_loop(tokens: &[Token], pos: usize, line: usize) -> (result: Result<
    (Expr, usize),
    ParseError,
>)
    requires
        pos <= tokens@.len(),
    ensures
        parsed(result) == grammar::for_loop(tokens@, pos as int, line),
        advanced(result, pos, tokens@.len()),
    decreases tokens@.len() - pos, 23nat,
{
    if !next_is(tokens, pos, Type::LeftParen) {
        return fail(Fault::ExpectedLeftParen, line);
    }
    let (initial, second) = match clause(tokens, pos + 1, line, Type::Semicolon) {
        Ok(found) => found,
        Err(error) => {
            return Err(error);
        },
    };
    let (condition, third) = match clause(tokens, second, line, Type::Semicolon) {
        Ok(found) => found,
        Err(error) => {
            return Err(error);
        },
    };
    let (increment, start) = match clause(tokens, third, line, Type::RightParen) {
        Ok(found) => found,
        Err(error) => {
            return Err(error);
        },
    };
    match expression(tokens, start) {
        Ok((body, end)) => {
            let fits = match &body {
                Expr::Statements(_) => true,
                Expr::Print(_) => true,
                Expr::Nil => true,
                _ => false,
            };
            if fits {
                Ok((Expr::For(initial, condition, increment, Box::new(body)), end))
            } else {
                fail(Fault::BadForBody, line)
            }
        },
        Err(error) => Err(error),
    }
}

/// What `parse_tokens` returns, as the grammar states it.
pub open spec fn parsed_program(result: Result<Expr, ParseError>) -> Result<ExprView, ParseError> {
    match result {
        Ok(expr) => Ok(expr@),
        Err(error) => Err(error),
    }
}

/// Parses a whole token sequence.
///
/// Returns the tree of the program as the grammar gives it: the one
/// statement of a program of one statement, else the block of its
/// statements. The first fault ends the parse and is returned with the line
/// of the construct it stands in.
pub fn parse_tokens(tokens: &[Token]) -> (result: Result<Expr, ParseError>)
    ensures
        parsed_program(result) == grammar::program(tokens@),
{
    let mut items: Vec<Expr> = Vec::new();
    let mut at: usize = 0;
    while at < tokens.len()
        invariant
            at <= tokens@.len(),
            grammar::statements(tokens@, 0, Seq::empty()) == grammar::statements(
                tokens@,
                at as int,
                views(items@),
            ),
        decreases tokens@.len() - at,
    {
        match expression(tokens, at) {
            Ok((item, next)) => {
                proof {
                    views_push(items@, item);
                }
                items.push(item);
                at = next;
            },
            Err(error) => {
                return Err(error);
            },
        }
    }
    proof {
        crate::parser::expr::views_len(items@);
        if items@.len() == 1 {
            views_index(items@, 0);
        }
    }
    if items.len() == 1 {
        match items.pop() {
            Some(only) => Ok(only),
            None => Ok(Expr::Statements(items)),
        }
    } else {
        Ok(Expr::Statements(items))
    }
}

} // verus!
