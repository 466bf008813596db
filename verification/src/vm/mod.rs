//! The interpreter: runtime values, the environment of scopes, the built-in
//! functions and the tree walk.
//!
//! `semantics` says what a statement does to the state of a run; the
//! interpreter computes it.

pub mod arith;
pub mod builtin;
pub mod environment;
pub mod error;
pub mod interpreter;
pub mod semantics;
pub mod value;

pub use environment::Environment;
pub use error::{ReturnSignal, RuntimeError, RuntimeErrorView, RuntimeResult};
pub use interpreter::Interpreter;
pub use value::{Value, ValueView};
