//! The parser: tokens to statements, by recursive descent with precedence
//! climbing for expressions.
//!
//! `grammar` says what each construct is on a sequence of tokens, `progress`
//! shows that every construct takes tokens or fails on one, and the parser
//! computes what the grammar says.

pub mod error;
mod expr_parser;
pub mod grammar;
pub mod progress;
mod parser;
mod stmt_parser;

pub use error::{ParseError, ParseErrorView, ParseResult};
pub use parser::{Parser, ParserView};
