//! The syntax tree: expressions, statements and types, each with the
//! mathematical value that contracts speak of.

mod expr;
pub mod operator;
mod stmt;
mod types;

pub use expr::{expr_views, Expr, ExprView, Literal, LiteralView};
pub use operator::{BinaryOp, UnaryOp};
pub use stmt::{param_views, stmt_views, Param, ParamView, Stmt, StmtView};
pub use types::Type;
