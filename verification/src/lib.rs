//! A small statically typed imperative language: source text becomes tokens,
//! tokens become a syntax tree, the tree is checked for types and then run by
//! a tree-walking interpreter, or lowered to LLVM IR.
//!
//! Every function states what it computes over a mathematical model of its
//! data: the lexer over `lexer::scan`, the parser over `parser::grammar`, the
//! type checker over `semantic::rules`, the interpreter over `vm::semantics`
//! and the code generator over `llvm_backend::lowering`.

pub mod ast;
pub mod lexer;
pub mod llvm_backend;
pub mod parser;
pub mod semantic;
pub mod text;
pub mod vm;
