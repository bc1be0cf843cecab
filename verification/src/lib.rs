//! A tree-walking interpreter for a small dynamically typed scripting
//! language: scanner, parser and evaluator.
//!
//! The language's numbers are IEEE-754 doubles. This library never computes
//! with them in floating point: it carries each number as its 64-bit pattern,
//! decides comparisons, negation and truthiness on that pattern, and asks its
//! host for arithmetic, for decimal conversion, for printing and for the time.

pub mod evaluate;
pub mod number;
pub mod parser;
pub mod scanner;
pub mod utils;
