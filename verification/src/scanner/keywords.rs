//! The reserved words.

use vstd::prelude::*;
use crate::scanner::token::Type;

verus! {

/// The kind of token that the reserved word `text` stands for; `None` for
/// any other text.
pub open spec fn keyword(text: Seq<char>) -> Option<Type> {
    if text == "and"@ {
        Some(Type::And)
    } else if text == "class"@ {
        Some(Type::Class)
    } else if text == "else"@ {
        Some(Type::Else)
    } else if text == "false"@ {
        Some(Type::False)
    } else if text == "for"@ {
        Some(Type::For)
    } else if text == "fun"@ {
        Some(Type::Fun)
    } else if text == "if"@ {
        Some(Type::If)
    } else if text == "nil"@ {
        Some(Type::Nil)
    } else if text == "or"@ {
        Some(Type::Or)
    } else if text == "print"@ {
        Some(Type::Print)
    } else if text == "return"@ {
        Some(Type::Return)
    } else if text == "super"@ {
        Some(Type::Super)
    } else if text == "this"@ {
        Some(Type::This)
    } else if text == "true"@ {
        Some(Type::True)
    } else if text == "var"@ {
        Some(Type::Var)
    } else if text == "while"@ {
        Some(Type::While)
    } else {
        None
    }
}

fn is_word(text: &String, word: &str) -> (same: bool)
    ensures
        same == (text@ == word@),
{
    *text == String::from_str(word)
}

/// Maps a reserved word to its kind of token, and any other text to `None`.
pub fn map(text: &String) -> (found: Option<Type>)
    ensures
        found == keyword(text@),
{
    if is_word(text, "and") {
        Some(Type::And)
    } else if is_word(text, "class") {
        Some(Type::Class)
    } else if is_word(text, "else") {
        Some(Type::Else)
    } else if is_word(text, "false") {
        Some(Type::False)
    } else if is_word(text, "for") {
        Some(Type::For)
    } else if is_word(text, "fun") {
        Some(Type::Fun)
    } else if is_word(text, "if") {
        Some(Type::If)
    } else if is_word(text, "nil") {
        Some(Type::Nil)
    } else if is_word(text, "or") {
        Some(Type::Or)
    } else if is_word(text, "print") {
        Some(Type::Print)
    } else if is_word(text, "return") {
        Some(Type::Return)
    } else if is_word(text, "super") {
        Some(Type::Super)
    } else if is_word(text, "this") {
        Some(Type::This)
    } else if is_word(text, "true") {
        Some(Type::True)
    } else if is_word(text, "var") {
        Some(Type::Var)
    } else if is_word(text, "while") {
        Some(Type::While)
    } else {
        None
    }
}

} // verus!
