//! The parser: tokens to a syntax tree.

pub mod error;
pub mod expr;
pub mod grammar;
pub mod laws;
pub mod parser;

pub use error::{Condition, Fault, ParseError};
pub use expr::{BinaryOperator, Expr, ExprView, UnaryOperator};
pub use parser::parse_tokens;
