use inkwell::context::Context;
use remylang::ast::{Expr, Literal, Type};
use remylang::llvm_backend::{CodeGenerator, LLVMCompilerContext, TypeConverter};

#[test]
fn test_compile_integer_literal() {
    let llvm_ctx = LLVMCompilerContext::new();
    let context = llvm_ctx.get_context();
    let module = llvm_ctx.create_module("test");
    let builder = llvm_ctx.create_builder();

    let gen = CodeGenerator::new(&context, module, builder);
    let expr = Expr::Literal(Literal::Number(42));

    let result = gen.compile_expr(&expr);
    assert!(result.is_ok());
}

#[test]
fn test_compile_bool_literal() {
    let llvm_ctx = LLVMCompilerContext::new();
    let context = llvm_ctx.get_context();
    let module = llvm_ctx.create_module("test");
    let builder = llvm_ctx.create_builder();

    let gen = CodeGenerator::new(&context, module, builder);
    let expr = Expr::Literal(Literal::Bool(true));
    let result = gen.compile_expr(&expr);
    assert!(result.is_ok())
}

#[test]
fn llvm_context_creation() {
    let ctx = LLVMCompilerContext::new();
    let module = ctx.create_module("test");
    assert_eq!(module.get_name().to_str().unwrap(), "test");
}

#[test]
fn test_int_type_conversion() {
    let ctx = Context::create();
    let llvm_type = TypeConverter::type_to_llvm_type(&Type::Int, &ctx);
    assert!(llvm_type.is_int_type());
}

#[test]
fn test_bool_type_conversion() {
    let ctx = Context::create();
    let llvm_type = TypeConverter::type_to_llvm_type(&Type::Bool, &ctx);
    assert!(llvm_type.is_int_type());
}

#[test]
fn test_string_type_conversion() {
    let ctx = Context::create();
    let llvm_type = TypeConverter::type_to_llvm_type(&Type::String, &ctx);
    assert!(llvm_type.is_pointer_type());
}
