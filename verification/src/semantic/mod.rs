//! The type checker: statements against a table of the symbols in scope.
//!
//! `rules` says what type an expression has and when a statement is well
//! typed; the checker computes it and records the errors.

pub mod rules;
pub mod symbol_table;
pub mod type_checker;

pub use symbol_table::{Symbol, SymbolTable, SymbolView};
pub use type_checker::{TypeChecker, TypeError, TypeErrorView};
