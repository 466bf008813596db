//! The lexer: source text to tokens.
//!
//! `scan` says which token stands at an offset of a text, `lexer` reads the
//! tokens one by one, and `round_trip` shows that the spelling of a literal
//! is read back as that literal.

mod lexer;
pub mod round_trip;
pub mod scan;
mod token;

pub use lexer::{column_at, line_at, token_views, Lexer, LexerView};
pub use token::{Token, TokenView};
