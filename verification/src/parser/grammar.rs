//! The grammar, as functions from a token sequence and a position to the
//! tree that starts there and the position behind it.

use vstd::prelude::*;
use crate::parser::error::{Fault, ParseError};
use crate::parser::expr::{BinaryOperator, ExprView, UnaryOperator};
use crate::scanner::{Token, Type};

verus! {

/// A tree and the position behind it, or the error.
pub type Parse = Result<(ExprView, int), ParseError>;

/// A list of trees and the position behind it, or the error.
pub type ParseList = Result<(Seq<ExprView>, int), ParseError>;

/// The kind of the token at `pos`, if there is one.
pub open spec fn kind_at(tokens: Seq<Token>, pos: int) -> Option<Type> {
    if 0 <= pos < tokens.len() {
        Some(tokens[pos].ty)
    } else {
        None
    }
}

/// The line that an error at `pos` names: that of the token there, or, behind
/// the last token, that of the last token.
pub open spec fn line_at(tokens: Seq<Token>, pos: int) -> usize {
    if 0 <= pos < tokens.len() {
        tokens[pos].line
    } else if tokens.len() > 0 {
        tokens[tokens.len() - 1].line
    } else {
        0
    }
}

/// The tree `tree`, read up to the position `next`.
pub open spec fn found(tree: ExprView, next: int) -> Parse {
    Ok((tree, next))
}

/// The error for `fault` in the construct that starts on `line`.
pub open spec fn fails<T>(fault: Fault, line: usize) -> Result<T, ParseError> {
    Err(ParseError { fault, line })
}

/// `result`, as long as it read at least one token from `pos` on and did
/// not read past the end. Every parse does.
pub open spec fn progress<T>(result: Result<(T, int), ParseError>, pos: int, len: nat) -> Result<
    (T, int),
    ParseError,
> {
    match result {
        Ok((_, next)) => if pos < next <= len {
            result
        } else {
            fails(Fault::ExpectedToken, 0)
        },
        Err(_) => result,
    }
}

/// The levels of infix operators, from the loosest to the tightest.
#[derive(Clone, Copy, Debug, PartialEq, Eq, Structural)]
pub enum Level {
    Or,
    And,
    Equality,
    Comparison,
    Term,
    Factor,
}

impl Level {
    /// Whether a token of kind `ty` is an operator of this level.
    pub open spec fn joins(self, ty: Type) -> bool {
        match self {
            Level::Or => ty == Type::Or,
            Level::And => ty == Type::And,
            Level::Equality => ty == Type::EqualEqual || ty == Type::BangEqual,
            Level::Comparison => ty == Type::Greater || ty == Type::GreaterEqual || ty
                == Type::Less || ty == Type::LessEqual,
            Level::Term => ty == Type::Minus || ty == Type::Plus,
            Level::Factor => ty == Type::Star || ty == Type::Slash,
        }
    }

    /// The tree that joins `left` and `right` by the operator `ty` of this
    /// level.
    pub open spec fn join(self, ty: Type, left: ExprView, right: ExprView) -> ExprView {
        match self {
            Level::Or => ExprView::Or(Box::new(left), Box::new(right)),
            Level::And => ExprView::And(Box::new(left), Box::new(right)),
            _ => match BinaryOperator::of(ty) {
                Some(operator) => ExprView::Binary(operator, Box::new(left), Box::new(right)),
                None => left,
            },
        }
    }

    /// How loosely the level binds: a weight for the recursion.
    pub open spec fn weight(self) -> nat {
        match self {
            Level::Or => 6,
            Level::And => 5,
            Level::Equality => 4,
            Level::Comparison => 3,
            Level::Term => 2,
            Level::Factor => 1,
        }
    }
}

/// An expression: a chain of the loosest level.
pub open spec fn expression(tokens: Seq<Token>, pos: int) -> Parse
    decreases tokens.len() - pos, 14nat,
{
    chain(tokens, pos, Level::Or)
}

/// An operand of `level`: a chain of the next tighter level, and below the
/// tightest a unary expression.
pub open spec fn operand(tokens: Seq<Token>, pos: int, level: Level) -> Parse
    decreases tokens.len() - pos, 2 * level.weight(),
{
    match level {
        Level::Or => chain(tokens, pos, Level::And),
        Level::And => chain(tokens, pos, Level::Equality),
        Level::Equality => chain(tokens, pos, Level::Comparison),
        Level::Comparison => chain(tokens, pos, Level::Term),
        Level::Term => chain(tokens, pos, Level::Factor),
        Level::Factor => unary(tokens, pos),
    }
}

/// A chain of `level`: an operand, and as long as an operator of the level
/// follows, that operator and another operand, joined to the left.
pub open spec fn chain(tokens: Seq<Token>, pos: int, level: Level) -> Parse
    decreases tokens.len() - pos, 2 * level.weight() + 1,
{
    match progress(operand(tokens, pos, level), pos, tokens.len()) {
        Ok((left, next)) => chain_rest(tokens, next, level, left),
        Err(error) => Err(error),
    }
}

/// The rest of a chain of `level` behind the tree `left`.
pub open spec fn chain_rest(tokens: Seq<Token>, pos: int, level: Level, left: ExprView) -> Parse
    decreases tokens.len() - pos, 0nat,
{
    match kind_at(tokens, pos) {
        Some(ty) if level.joins(ty) => match progress(
            operand(tokens, pos + 1, level),
            pos + 1,
            tokens.len(),
        ) {
            Ok((right, next)) => chain_rest(tokens, next, level, level.join(ty, left, right)),
            Err(error) => Err(error),
        },
        _ => Ok((left, pos)),
    }
}

/// A unary expression: `!` or `-` in front of a unary expression, or a
/// primary expression.
pub open spec fn unary(tokens: Seq<Token>, pos: int) -> Parse
    decreases tokens.len() - pos, 1nat,
{
    match kind_at(tokens, pos) {
        Some(ty) if UnaryOperator::of(ty) is Some => match progress(
            unary(tokens, pos + 1),
            pos + 1,
            tokens.len(),
        ) {
            Ok((right, next)) => Ok(
                (ExprView::Unary(UnaryOperator::of(ty)->0, Box::new(right)), next),
            ),
            Err(error) => Err(error),
        },
        _ => primary(tokens, pos),
    }
}

/// The text under which the number token is displayed: its literal, or
/// without one its lexeme.
pub open spec fn number_shown(token: Token) -> Seq<char> {
    match token.literal {
        Some(literal) => literal@,
        None => token.lexeme@,
    }
}

/// A number or a string at `pos`. Neither may be called. A number keeps its
/// lexeme and the text under which it is displayed; a string has to carry
/// its value.
pub open spec fn literal(tokens: Seq<Token>, pos: int) -> Parse
    recommends
        0 <= pos < tokens.len(),
{
    let token = tokens[pos];
    if kind_at(tokens, pos + 1) == Some(Type::LeftParen) {
        fails(Fault::CanOnlyCall, token.line)
    } else if token.ty == Type::Number {
        Ok((ExprView::Number(token.lexeme@, number_shown(token)), pos + 1))
    } else {
        match token.literal {
            Some(value) => Ok((ExprView::String(value@), pos + 1)),
            None => fails(Fault::MissingLiteral, token.line),
        }
    }
}

/// The rest of a parenthesised expression behind its `(`: an expression
/// and the `)`, behind which no `(` may stand.
pub open spec fn group(tokens: Seq<Token>, pos: int, line: usize) -> Parse
    decreases tokens.len() - pos, 15nat,
{
    match progress(expression(tokens, pos), pos, tokens.len()) {
        Ok((inner, close)) => if kind_at(tokens, close) != Some(Type::RightParen) {
            fails(Fault::UnmatchedParentheses, line)
        } else if kind_at(tokens, close + 1) == Some(Type::LeftParen) {
            fails(Fault::CanOnlyCall, line)
        } else {
            Ok((ExprView::Grouping(Box::new(inner)), close + 1))
        },
        Err(error) => Err(error),
    }
}

/// What follows the identifier `name`: behind `=` a value, which makes an
/// assignment; behind `(` the argument lists of a chain of calls; else
/// nothing, and the name is read.
pub open spec fn named(tokens: Seq<Token>, pos: int, line: usize, name: Seq<char>) -> Parse
    decreases tokens.len() - pos, 17nat,
{
    if kind_at(tokens, pos) == Some(Type::Equal) {
        match progress(expression(tokens, pos + 1), pos + 1, tokens.len()) {
            Ok((value, end)) => Ok((ExprView::Assignment(name, Box::new(value), false), end)),
            Err(error) => Err(error),
        }
    } else if kind_at(tokens, pos) == Some(Type::LeftParen) {
        calls(tokens, pos, line, name, Seq::empty())
    } else {
        Ok((ExprView::Identifier(name), pos))
    }
}

/// The rest of a declaration behind `var`: a name, and either `=` with a
/// value or a `;`.
pub open spec fn declaration(tokens: Seq<Token>, pos: int, line: usize) -> Parse
    decreases tokens.len() - pos, 15nat,
{
    if kind_at(tokens, pos) != Some(Type::Identifier) {
        fails(Fault::ExpectedIdentifier, line)
    } else if kind_at(tokens, pos + 1) == Some(Type::Equal) {
        match progress(expression(tokens, pos + 2), pos + 2, tokens.len()) {
            Ok((value, end)) => Ok(
                (ExprView::Assignment(tokens[pos].lexeme@, Box::new(value), true), end),
            ),
            Err(error) => Err(error),
        }
    } else if kind_at(tokens, pos + 1) == Some(Type::Semicolon) {
        Ok(
            (
                ExprView::Assignment(tokens[pos].lexeme@, Box::new(ExprView::Semicolon), true),
                pos + 2,
            ),
        )
    } else {
        fails(Fault::ExpectedAssignment, line)
    }
}

/// The rest of a `print` behind its keyword: an expression, which may not
/// be the empty statement.
pub open spec fn print(tokens: Seq<Token>, pos: int, line: usize) -> Parse
    decreases tokens.len() - pos, 15nat,
{
    match progress(expression(tokens, pos), pos, tokens.len()) {
        Ok((value, end)) => if value is Semicolon {
            fails(Fault::PrintWithoutExpression, line)
        } else {
            Ok((ExprView::Print(Box::new(value)), end))
        },
        Err(error) => Err(error),
    }
}

/// The rest of a `return` behind its keyword: an expression.
pub open spec fn returned(tokens: Seq<Token>, pos: int) -> Parse
    decreases tokens.len() - pos, 15nat,
{
    match progress(expression(tokens, pos), pos, tokens.len()) {
        Ok((value, end)) => Ok((ExprView::Return(Box::new(value)), end)),
        Err(error) => Err(error),
    }
}

/// The rest of a `while` behind its keyword: the condition and the body.
pub open spec fn while_loop(tokens: Seq<Token>, pos: int) -> Parse
    decreases tokens.len() - pos, 15nat,
{
    match progress(expression(tokens, pos), pos, tokens.len()) {
        Ok((condition, then)) => match progress(expression(tokens, then), then, tokens.len()) {
            Ok((body, end)) => Ok((ExprView::While(Box::new(condition), Box::new(body)), end)),
            Err(error) => Err(error),
        },
        Err(error) => Err(error),
    }
}

/// A primary expression: a literal, a parenthesised expression, a block, a
/// name (read, assigned or called), or one of the statements that start
/// with a keyword. An error names the line of the token at `pos`, on which
/// the construct starts. A block without statements is `nil`.
pub open spec fn primary(tokens: Seq<Token>, pos: int) -> Parse
    decreases tokens.len() - pos, 0nat,
{
    if !(0 <= pos < tokens.len()) {
        fails(Fault::ExpectedToken, line_at(tokens, pos))
    } else {
        let token = tokens[pos];
        let line = token.line;
        let next = pos + 1;
        match token.ty {
            Type::True => Ok((ExprView::True, next)),
            Type::False => Ok((ExprView::False, next)),
            Type::Nil => Ok((ExprView::Nil, next)),
            Type::Semicolon => Ok((ExprView::Semicolon, next)),
            Type::Number => literal(tokens, pos),
            Type::String => literal(tokens, pos),
            Type::LeftParen => group(tokens, next, line),
            Type::LeftBrace => if kind_at(tokens, next) == Some(Type::RightBrace) {
                Ok((ExprView::Nil, next + 1))
            } else {
                block(tokens, next, line, Seq::empty())
            },
            Type::Identifier => named(tokens, next, line, token.lexeme@),
            Type::Var => declaration(tokens, next, line),
            Type::Print => print(tokens, next, line),
            Type::Return => returned(tokens, next),
            Type::While => while_loop(tokens, next),
            Type::If => conditional(tokens, next),
            Type::Fun => function(tokens, next, line),
            Type::For => for_loop(tokens, next, line),
            _ => fails(Fault::UnknownToken, line),
        }
    }
}

/// The statements of a block from `pos` on, behind `items`, up to the
/// closing brace. The block opened on `line`.
pub open spec fn block(tokens: Seq<Token>, pos: int, line: usize, items: Seq<ExprView>) -> Parse
    decreases tokens.len() - pos, 15nat,
{
    if !(0 <= pos < tokens.len()) {
        fails(Fault::UnmatchedBraces, line)
    } else {
        match progress(expression(tokens, pos), pos, tokens.len()) {
            Ok((item, next)) => if kind_at(tokens, next) == Some(Type::RightBrace) {
                Ok((ExprView::Statements(items.push(item)), next + 1))
            } else {
                block(tokens, next, line, items.push(item))
            },
            Err(error) => Err(error),
        }
    }
}

/// The arguments of one call from `pos` on, behind `items`, up to the
/// closing parenthesis. Commas are passed over wherever they stand.
pub open spec fn arguments(
    tokens: Seq<Token>,
    pos: int,
    line: usize,
    items: Seq<ExprView>,
) -> ParseList
    decreases tokens.len() - pos, 15nat,
{
    match kind_at(tokens, pos) {
        None => fails(Fault::UnmatchedParentheses, line),
        Some(Type::RightParen) => Ok((items, pos + 1)),
        Some(Type::Comma) => arguments(tokens, pos + 1, line, items),
        Some(Type::Semicolon) => fails(Fault::UnexpectedSemicolon, line),
        Some(_) => match progress(expression(tokens, pos), pos, tokens.len()) {
            Ok((item, next)) => arguments(tokens, next, line, items.push(item)),
            Err(error) => Err(error),
        },
    }
}

/// A chain of calls of `name`: the argument list that opens at `pos`, and
/// every argument list that opens directly behind another.
pub open spec fn calls(
    tokens: Seq<Token>,
    pos: int,
    line: usize,
    name: Seq<char>,
    lists: Seq<Seq<ExprView>>,
) -> Parse
    decreases tokens.len() - pos, 16nat,
{
    if !(0 <= pos < tokens.len()) {
        fails(Fault::UnmatchedParentheses, line)
    } else {
        match progress(arguments(tokens, pos + 1, line, Seq::empty()), pos + 1, tokens.len()) {
            Ok((items, next)) => if kind_at(tokens, next) == Some(Type::LeftParen) {
                calls(tokens, next, line, name, lists.push(items))
            } else {
                Ok((ExprView::Callable(name, lists.push(items)), next))
            },
            Err(error) => Err(error),
        }
    }
}

/// The rest of an `if` behind its keyword: the condition, the branch taken
/// when it holds, and, behind an optional `;`, an optional `else` with its
/// branch.
pub open spec fn conditional(tokens: Seq<Token>, pos: int) -> Parse
    decreases tokens.len() - pos, 15nat,
{
    match progress(expression(tokens, pos), pos, tokens.len()) {
        Ok((condition, then)) => match progress(expression(tokens, then), then, tokens.len()) {
            Ok((taken, after)) => {
                let rest = if kind_at(tokens, after) == Some(Type::Semicolon) {
                    after + 1
                } else {
                    after
                };
                if kind_at(tokens, rest) == Some(Type::Else) {
                    match progress(expression(tokens, rest + 1), rest + 1, tokens.len()) {
                        Ok((otherwise, end)) => Ok(
                            (
                                ExprView::IfElse(
                                    Box::new(condition),
                                    Box::new(taken),
                                    Some(Box::new(otherwise)),
                                ),
                                end,
                            ),
                        ),
                        Err(error) => Err(error),
                    }
                } else {
                    Ok((ExprView::IfElse(Box::new(condition), Box::new(taken), None), rest))
                }
            },
            Err(error) => Err(error),
        },
        Err(error) => Err(error),
    }
}

/// The parameters of a function from `pos` on, behind `names`, up to the
/// closing parenthesis.
pub open spec fn parameters(
    tokens: Seq<Token>,
    pos: int,
    line: usize,
    names: Seq<Seq<char>>,
) -> Result<(Seq<Seq<char>>, int), ParseError>
    decreases tokens.len() - pos,
{
    match kind_at(tokens, pos) {
        None => fails(Fault::UnmatchedParentheses, line),
        Some(Type::RightParen) => Ok((names, pos + 1)),
        Some(Type::Comma) => parameters(tokens, pos + 1, line, names),
        Some(Type::Identifier) => match kind_at(tokens, pos + 1) {
            Some(follower) if follower != Type::RightParen && follower != Type::Comma => fails(
                Fault::MissingComma,
                line,
            ),
            _ => parameters(tokens, pos + 1, line, names.push(tokens[pos].lexeme@)),
        },
        Some(_) => fails(Fault::ExpectedIdentifier, line),
    }
}

/// The rest of a function declaration behind `fun`: the name, the
/// parameters in parentheses, and the body, which is a block.
pub open spec fn function(tokens: Seq<Token>, pos: int, line: usize) -> Parse
    decreases tokens.len() - pos, 15nat,
{
    if kind_at(tokens, pos) != Some(Type::Identifier) {
        fails(Fault::ExpectedIdentifier, line)
    } else if kind_at(tokens, pos + 1) != Some(Type::LeftParen) {
        fails(Fault::ExpectedLeftParen, line)
    } else {
        match progress(parameters(tokens, pos + 2, line, Seq::empty()), pos + 2, tokens.len()) {
            Ok((names, start)) => if kind_at(tokens, start) != Some(Type::LeftBrace) {
                fails(Fault::ExpectedLeftBrace, line)
            } else {
                match progress(primary(tokens, start), start, tokens.len()) {
                    Ok((body, end)) => Ok(
                        (ExprView::Fun(tokens[pos].lexeme@, names, Box::new(body)), end),
                    ),
                    Err(error) => Err(error),
                }
            },
            Err(error) => Err(error),
        }
    }
}

/// One clause of a `for` header, which `closer` ends: nothing where the
/// closer stands at once; else an expression, which may not be `nil`. A
/// `;` behind the expression is read if it is there; the `)` has to be.
pub open spec fn clause(tokens: Seq<Token>, pos: int, line: usize, closer: Type) -> Result<
    (Option<Box<ExprView>>, int),
    ParseError,
>
    decreases tokens.len() - pos, 15nat,
{
    if kind_at(tokens, pos) == Some(closer) {
        Ok((None, pos + 1))
    } else {
        match progress(expression(tokens, pos), pos, tokens.len()) {
            Ok((item, next)) => if item is Nil {
                fails(Fault::EmptyClause, line)
            } else if kind_at(tokens, next) == Some(closer) {
                Ok((Some(Box::new(item)), next + 1))
            } else if closer == Type::RightParen {
                fails(Fault::UnmatchedParentheses, line)
            } else {
                Ok((Some(Box::new(item)), next))
            },
            Err(error) => Err(error),
        }
    }
}

/// Whether a tree may be the body of a `for`.
pub open spec fn may_be_for_body(body: ExprView) -> bool {
    body is Statements || body is Print || body is Nil
}

/// The rest of a `for` behind its keyword: the three clauses in
/// parentheses, and the body.
pub open spec fn for_loop(tokens: Seq<Token>, pos: int, line: usize) -> Parse
    decreases tokens.len() - pos, 16nat,
{
    if kind_at(tokens, pos) != Some(Type::LeftParen) {
        fails(Fault::ExpectedLeftParen, line)
    } else {
        match progress(clause(tokens, pos + 1, line, Type::Semicolon), pos + 1, tokens.len()) {
            Ok((initial, second)) => match progress(
                clause(tokens, second, line, Type::Semicolon),
                second,
                tokens.len(),
            ) {
                Ok((condition, third)) => match progress(
                    clause(tokens, third, line, Type::RightParen),
                    third,
                    tokens.len(),
                ) {
                    Ok((increment, start)) => match progress(
                        expression(tokens, start),
                        start,
                        tokens.len(),
                    ) {
                        Ok((body, end)) => if may_be_for_body(body) {
                            Ok(
                                (
                                    ExprView::For(initial, condition, increment, Box::new(body)),
                                    end,
                                ),
                            )
                        } else {
                            fails(Fault::BadForBody, line)
                        },
                        Err(error) => Err(error),
                    },
                    Err(error) => Err(error),
                },
                Err(error) => Err(error),
            },
            Err(error) => Err(error),
        }
    }
}

/// The statements of a program from `pos` on, behind `items`.
pub open spec fn statements(tokens: Seq<Token>, pos: int, items: Seq<ExprView>) -> Result<
    Seq<ExprView>,
    ParseError,
>
    decreases tokens.len() - pos,
{
    if !(0 <= pos < tokens.len()) {
        Ok(items)
    } else {
        match progress(expression(tokens, pos), pos, tokens.len()) {
            Ok((item, next)) => statements(tokens, next, items.push(item)),
            Err(error) => Err(error),
        }
    }
}

/// The tree of a whole program: its one statement, or the block of its
/// statements where there are none or several.
pub open spec fn program(tokens: Seq<Token>) -> Result<ExprView, ParseError> {
    match statements(tokens, 0, Seq::empty()) {
        Ok(items) => if items.len() == 1 {
            Ok(items[0])
        } else {
            Ok(ExprView::Statements(items))
        },
        Err(error) => Err(error),
    }
}

} // verus!
