//! What holds of every parse.

use vstd::prelude::*;
use crate::parser::expr::ExprView;
use crate::parser::error::ParseError;
use crate::parser::grammar::{
    arguments,
    block,
    calls,
    chain,
    chain_rest,
    clause,
    conditional,
    declaration,
    expression,
    for_loop,
    found,
    function,
    group,
    kind_at,
    named,
    operand,
    parameters,
    primary,
    print,
    progress,
    returned,
    unary,
    while_loop,
    Level,
};
use crate::scanner::{Token, Type};

verus! {

/// Whether an operator of `level` stands at `pos`.
pub open spec fn operator_at(tokens: Seq<Token>, pos: int, level: Level) -> bool {
    match kind_at(tokens, pos) {
        Some(ty) => level.joins(ty),
        None => false,
    }
}

/// Where a chain ends: with the tree built so far, once no operator of the
/// level follows.
pub proof fn chain_ends_without_operator(
    tokens: Seq<Token>,
    pos: int,
    level: Level,
    left: ExprView,
)
    requires
        !operator_at(tokens, pos, level),
    ensures
        chain_rest(tokens, pos, level, left) == found(left, pos),
{
}

/// Every further operator of a chain takes the whole tree built so far as
/// its left operand.
pub proof fn chain_takes_tree_so_far_as_left_operand(
    tokens: Seq<Token>,
    pos: int,
    level: Level,
    left: ExprView,
    right: ExprView,
    next: int,
)
    requires
        operator_at(tokens, pos, level),
        operand(tokens, pos + 1, level) == found(right, next),
        pos + 1 < next <= tokens.len(),
    ensures
        chain_rest(tokens, pos, level, left) == chain_rest(
            tokens,
            next,
            level,
            level.join(tokens[pos].ty, left, right),
        ),
{
}

/// Operators of one level associate to the left: three operands `a`, `b`
/// and `c` with two operators between them parse as `(a op b) op c`.
pub proof fn chains_associate_to_the_left(
    tokens: Seq<Token>,
    pos: int,
    level: Level,
    a: ExprView,
    b: ExprView,
    c: ExprView,
    first: int,
    second: int,
    end: int,
)
    requires
        operand(tokens, pos, level) == found(a, first),
        pos < first,
        operator_at(tokens, first, level),
        operand(tokens, first + 1, level) == found(b, second),
        first + 1 < second,
        operator_at(tokens, second, level),
        operand(tokens, second + 1, level) == found(c, end),
        second + 1 < end <= tokens.len(),
        !operator_at(tokens, end, level),
    ensures
        chain(tokens, pos, level) == found(
            level.join(tokens[second].ty, level.join(tokens[first].ty, a, b), c),
            end,
        ),
{
    let ab = level.join(tokens[first].ty, a, b);
    chain_takes_tree_so_far_as_left_operand(tokens, first, level, a, b, second);
    chain_takes_tree_so_far_as_left_operand(tokens, second, level, ab, c, end);
    chain_ends_without_operator(tokens, end, level, level.join(tokens[second].ty, ab, c));
}

/// A tighter level binds first: the operand of a term is a whole chain of
/// factors, and so on up the ladder from `or` down to the unary operators.
pub proof fn operands_are_chains_of_the_tighter_level(tokens: Seq<Token>, pos: int)
    ensures
        operand(tokens, pos, Level::Or) == chain(tokens, pos, Level::And),
        operand(tokens, pos, Level::And) == chain(tokens, pos, Level::Equality),
        operand(tokens, pos, Level::Equality) == chain(tokens, pos, Level::Comparison),
        operand(tokens, pos, Level::Comparison) == chain(tokens, pos, Level::Term),
        operand(tokens, pos, Level::Term) == chain(tokens, pos, Level::Factor),
        operand(tokens, pos, Level::Factor) == crate::parser::grammar::unary(tokens, pos),
{
}

/// Whether a parse that started at `pos` and succeeded ended behind `pos`
/// and inside the tokens.
pub open spec fn advances<T>(result: Result<(T, int), ParseError>, pos: int, len: nat) -> bool {
    result matches Ok(read) ==> pos < read.1 <= len
}

/// Whether a parse that started at `pos` and succeeded ended at or behind
/// `pos` and inside the tokens.
pub open spec fn stays<T>(result: Result<(T, int), ParseError>, pos: int, len: nat) -> bool {
    result matches Ok(read) ==> pos <= read.1 <= len
}

/// The rest of a chain ends at or behind the place where it starts.
pub proof fn chain_rest_stays(tokens: Seq<Token>, pos: int, level: Level, left: ExprView)
    requires
        0 <= pos <= tokens.len(),
    ensures
        stays(chain_rest(tokens, pos, level, left), pos, tokens.len()),
    decreases tokens.len() - pos,
{
    match kind_at(tokens, pos) {
        Some(ty) if level.joins(ty) => match progress(
            operand(tokens, pos + 1, level),
            pos + 1,
            tokens.len(),
        ) {
            Ok((right, next)) => chain_rest_stays(
                tokens,
                next,
                level,
                level.join(ty, left, right),
            ),
            Err(_) => {},
        },
        _ => {},
    }
}

/// A chain reads at least one token.
pub proof fn chain_advances(tokens: Seq<Token>, pos: int, level: Level)
    requires
        0 <= pos,
    ensures
        advances(chain(tokens, pos, level), pos, tokens.len()),
{
    match progress(operand(tokens, pos, level), pos, tokens.len()) {
        Ok((left, next)) => chain_rest_stays(tokens, next, level, left),
        Err(_) => {},
    }
}

/// A block reads at least one token.
pub proof fn block_advances(tokens: Seq<Token>, pos: int, line: usize, items: Seq<ExprView>)
    requires
        0 <= pos,
    ensures
        advances(block(tokens, pos, line, items), pos, tokens.len()),
    decreases tokens.len() - pos,
{
    if 0 <= pos < tokens.len() {
        match progress(expression(tokens, pos), pos, tokens.len()) {
            Ok((item, next)) => if kind_at(tokens, next) != Some(Type::RightBrace) {
                block_advances(tokens, next, line, items.push(item));
            },
            Err(_) => {},
        }
    }
}

/// An argument list reads at least one token.
pub proof fn arguments_advance(tokens: Seq<Token>, pos: int, line: usize, items: Seq<ExprView>)
    requires
        0 <= pos,
    ensures
        advances(arguments(tokens, pos, line, items), pos, tokens.len()),
    decreases tokens.len() - pos,
{
    match kind_at(tokens, pos) {
        None => {},
        Some(Type::RightParen) => {},
        Some(Type::Comma) => arguments_advance(tokens, pos + 1, line, items),
        Some(Type::Semicolon) => {},
        Some(_) => match progress(expression(tokens, pos), pos, tokens.len()) {
            Ok((item, next)) => arguments_advance(tokens, next, line, items.push(item)),
            Err(_) => {},
        },
    }
}

/// A chain of calls reads at least one token.
pub proof fn calls_advance(
    tokens: Seq<Token>,
    pos: int,
    line: usize,
    name: Seq<char>,
    lists: Seq<Seq<ExprView>>,
)
    requires
        0 <= pos,
    ensures
        advances(calls(tokens, pos, line, name, lists), pos, tokens.len()),
    decreases tokens.len() - pos,
{
    if 0 <= pos < tokens.len() {
        match progress(arguments(tokens, pos + 1, line, Seq::empty()), pos + 1, tokens.len()) {
            Ok((items, next)) => if kind_at(tokens, next) == Some(Type::LeftParen) {
                calls_advance(tokens, next, line, name, lists.push(items));
            },
            Err(_) => {},
        }
    }
}

/// A parameter list reads at least one token.
pub proof fn parameters_advance(
    tokens: Seq<Token>,
    pos: int,
    line: usize,
    names: Seq<Seq<char>>,
)
    requires
        0 <= pos,
    ensures
        advances(parameters(tokens, pos, line, names), pos, tokens.len()),
    decreases tokens.len() - pos,
{
    match kind_at(tokens, pos) {
        Some(Type::Comma) => parameters_advance(tokens, pos + 1, line, names),
        Some(Type::Identifier) => match kind_at(tokens, pos + 1) {
            Some(follower) if follower != Type::RightParen && follower != Type::Comma => {},
            _ => parameters_advance(tokens, pos + 1, line, names.push(tokens[pos].lexeme@)),
        },
        _ => {},
    }
}

/// A parenthesised expression reads at least one token behind its `(`.
pub proof fn group_advances(tokens: Seq<Token>, pos: int, line: usize)
    requires
        0 <= pos,
    ensures
        advances(group(tokens, pos, line), pos, tokens.len()),
{
}

/// What follows a name ends at or behind the place where it starts.
pub proof fn named_stays(tokens: Seq<Token>, pos: int, line: usize, name: Seq<char>)
    requires
        0 <= pos <= tokens.len(),
    ensures
        stays(named(tokens, pos, line, name), pos, tokens.len()),
{
    calls_advance(tokens, pos, line, name, Seq::empty());
}

/// A declaration reads at least one token behind `var`.
pub proof fn declaration_advances(tokens: Seq<Token>, pos: int, line: usize)
    requires
        0 <= pos,
    ensures
        advances(declaration(tokens, pos, line), pos, tokens.len()),
{
}

/// `print`, `return` and `while` read at least one token behind their
/// keyword.
pub proof fn simple_statements_advance(tokens: Seq<Token>, pos: int, line: usize)
    requires
        0 <= pos,
    ensures
        advances(print(tokens, pos, line), pos, tokens.len()),
        advances(returned(tokens, pos), pos, tokens.len()),
        advances(while_loop(tokens, pos), pos, tokens.len()),
{
}

/// An `if` reads at least one token behind its keyword.
pub proof fn conditional_advances(tokens: Seq<Token>, pos: int)
    requires
        0 <= pos,
    ensures
        advances(conditional(tokens, pos), pos, tokens.len()),
{
}

/// A function declaration reads at least one token behind `fun`.
pub proof fn function_advances(tokens: Seq<Token>, pos: int, line: usize)
    requires
        0 <= pos,
    ensures
        advances(function(tokens, pos, line), pos, tokens.len()),
{
}

/// A clause of a `for` header reads at least one token.
pub proof fn clause_advances(tokens: Seq<Token>, pos: int, line: usize, closer: Type)
    requires
        0 <= pos,
    ensures
        advances(clause(tokens, pos, line, closer), pos, tokens.len()),
{
}

/// A `for` reads at least one token behind its keyword.
pub proof fn for_loop_advances(tokens: Seq<Token>, pos: int, line: usize)
    requires
        0 <= pos,
    ensures
        advances(for_loop(tokens, pos, line), pos, tokens.len()),
{
}

/// A primary expression reads at least one token.
pub proof fn primary_advances(tokens: Seq<Token>, pos: int)
    requires
        0 <= pos,
    ensures
        advances(primary(tokens, pos), pos, tokens.len()),
{
    if 0 <= pos < tokens.len() {
        let line = tokens[pos].line;
        let next = pos + 1;
        block_advances(tokens, next, line, Seq::empty());
        group_advances(tokens, next, line);
        named_stays(tokens, next, line, tokens[pos].lexeme@);
        declaration_advances(tokens, next, line);
        simple_statements_advance(tokens, next, line);
        conditional_advances(tokens, next);
        function_advances(tokens, next, line);
        for_loop_advances(tokens, next, line);
    }
}

/// A unary expression reads at least one token.
pub proof fn unary_advances(tokens: Seq<Token>, pos: int)
    requires
        0 <= pos,
    ensures
        advances(unary(tokens, pos), pos, tokens.len()),
{
    primary_advances(tokens, pos);
}

/// Every expression that parses reads at least one token and none behind
/// the last: the grammar's guard `progress` never turns a parse down.
pub proof fn every_parse_advances(tokens: Seq<Token>, pos: int)
    requires
        0 <= pos,
    ensures
        advances(expression(tokens, pos), pos, tokens.len()),
        progress(expression(tokens, pos), pos, tokens.len()) == expression(tokens, pos),
        forall|level: Level|
            progress(#[trigger] operand(tokens, pos, level), pos, tokens.len()) == operand(
                tokens,
                pos,
                level,
            ),
        progress(unary(tokens, pos), pos, tokens.len()) == unary(tokens, pos),
        progress(primary(tokens, pos), pos, tokens.len()) == primary(tokens, pos),
{
    chain_advances(tokens, pos, Level::Or);
    chain_advances(tokens, pos, Level::And);
    chain_advances(tokens, pos, Level::Equality);
    chain_advances(tokens, pos, Level::Comparison);
    chain_advances(tokens, pos, Level::Term);
    chain_advances(tokens, pos, Level::Factor);
    unary_advances(tokens, pos);
    primary_advances(tokens, pos);
}

} // verus!
