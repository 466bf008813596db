use vstd::prelude::*;
use inkwell::builder::Builder;
use inkwell::context::Context;
use inkwell::module::Module;
use crate::llvm_backend::bindings::{context_create, context_create_builder, context_create_module};

verus! {

/// Owns the LLVM context that modules, builders, types and values belong to.
pub struct LLVMCompilerContext {
    context: Context,
}

impl LLVMCompilerContext {
    /// The LLVM context that this value owns.
    pub closed spec fn owned(&self) -> Context {
        self.context
    }

    /// Create a new LLVM context
    pub fn new() -> Self {
        Self { context: context_create() }
    }

    /// Create a new module to compile a file
    pub fn create_module(&self, name: &str) -> Module<'_> {
        context_create_module(&self.context, name)
    }

    /// Create a new builder to build the IR
    pub fn create_builder(&self) -> Builder<'_> {
        context_create_builder(&self.context)
    }

    /// Get a reference to the LLVM context
    pub fn get_context(&self) -> (r: &Context)
        ensures
            *r == self.owned(),
    {
        &self.context
    }
}

impl Default for LLVMCompilerContext {
    fn default() -> Self {
        Self::new()
    }
}

} // verus!
