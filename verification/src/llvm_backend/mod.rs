//! The native backend: lowers declarations and integer expressions to LLVM
//! IR through `inkwell`, and refuses the rest of the language with a
//! diagnostic.
//!
//! `lowering` says which machine type an expression lowers to and when it is
//! refused; `bindings` holds the calls into `inkwell`.

mod bindings;
pub mod codegen;
pub mod context;
pub mod lowering;
pub mod types;

pub use codegen::CodeGenerator;
pub use context::LLVMCompilerContext;
pub use lowering::MachineType;
pub use types::TypeConverter;
