//! The scanner: source text to tokens.

pub mod comment;
pub mod identifier;
pub mod keywords;
pub mod number;
pub mod run;
pub mod scanner;
pub mod string;
pub mod token;

pub use scanner::{scan_tokens, ScanTokens};
pub use token::{Error, ErrorView, Token, TokenView, Type};
