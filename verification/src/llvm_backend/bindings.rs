use vstd::prelude::*;
use inkwell::builder::{Builder, BuilderError};
use inkwell::context::Context;
use inkwell::module::Module;
use inkwell::types::{ArrayType, BasicTypeEnum, FunctionType, IntType, PointerType, VoidType};
use inkwell::values::{
    ArrayValue, BasicValueEnum, FunctionValue, GlobalValue, IntValue, PointerValue,
};
use inkwell::basic_block::BasicBlock;
use inkwell::{AddressSpace, IntPredicate};
use crate::llvm_backend::lowering::Comparison;

verus! {

/// `inkwell::context::Context`, carried through as an opaque value.
#[verifier::external_type_specification]
#[verifier::external_body]
pub struct ExContext(inkwell::context::Context);

/// `inkwell::module::Module`, carried through as an opaque value.
#[verifier::external_type_specification]
#[verifier::external_body]
pub struct ExModule<'ctx>(inkwell::module::Module<'ctx>);

/// `inkwell::builder::Builder`, carried through as an opaque value.
#[verifier::external_type_specification]
#[verifier::external_body]
pub struct ExBuilder<'ctx>(inkwell::builder::Builder<'ctx>);

/// `inkwell::builder::BuilderError`, carried through as an opaque value.
#[verifier::external_type_specification]
#[verifier::external_body]
pub struct ExBuilderError(inkwell::builder::BuilderError);

/// `inkwell::types::IntType`, carried through as an opaque value.
#[verifier::external_type_specification]
#[verifier::external_body]
pub struct ExIntType<'ctx>(inkwell::types::IntType<'ctx>);

/// `inkwell::types::PointerType`, carried through as an opaque value.
#[verifier::external_type_specification]
#[verifier::external_body]
pub struct ExPointerType<'ctx>(inkwell::types::PointerType<'ctx>);

/// `inkwell::types::VoidType`, carried through as an opaque value.
#[verifier::external_type_specification]
#[verifier::external_body]
pub struct ExVoidType<'ctx>(inkwell::types::VoidType<'ctx>);

/// `inkwell::types::ArrayType`, carried through as an opaque value.
#[verifier::external_type_specification]
#[verifier::external_body]
pub struct ExArrayType<'ctx>(inkwell::types::ArrayType<'ctx>);

/// `inkwell::types::BasicTypeEnum`, carried through as an opaque value.
#[verifier::external_type_specification]
#[verifier::external_body]
pub struct ExBasicTypeEnum<'ctx>(inkwell::types::BasicTypeEnum<'ctx>);

/// `inkwell::types::FunctionType`, carried through as an opaque value.
#[verifier::external_type_specification]
#[verifier::external_body]
pub struct ExFunctionType<'ctx>(inkwell::types::FunctionType<'ctx>);

/// `inkwell::values::IntValue`, carried through as an opaque value.
#[verifier::external_type_specification]
#[verifier::external_body]
pub struct ExIntValue<'ctx>(inkwell::values::IntValue<'ctx>);

/// `inkwell::values::PointerValue`, carried through as an opaque value.
#[verifier::external_type_specification]
#[verifier::external_body]
pub struct ExPointerValue<'ctx>(inkwell::values::PointerValue<'ctx>);

/// `inkwell::values::ArrayValue`, carried through as an opaque value.
#[verifier::external_type_specification]
#[verifier::external_body]
pub struct ExArrayValue<'ctx>(inkwell::values::ArrayValue<'ctx>);

/// `inkwell::values::GlobalValue`, carried through as an opaque value.
#[verifier::external_type_specification]
#[verifier::external_body]
pub struct ExGlobalValue<'ctx>(inkwell::values::GlobalValue<'ctx>);

/// `inkwell::values::FunctionValue`, carried through as an opaque value.
#[verifier::external_type_specification]
#[verifier::external_body]
pub struct ExFunctionValue<'ctx>(inkwell::values::FunctionValue<'ctx>);

/// `inkwell::values::BasicValueEnum`, carried through as an opaque value.
#[verifier::external_type_specification]
#[verifier::external_body]
pub struct ExBasicValueEnum<'ctx>(inkwell::values::BasicValueEnum<'ctx>);

/// `inkwell::basic_block::BasicBlock`, carried through as an opaque value.
#[verifier::external_type_specification]
#[verifier::external_body]
pub struct ExBasicBlock<'ctx>(inkwell::basic_block::BasicBlock<'ctx>);

/// Calls `Context::create`. Nothing is claimed of the result.
#[verifier::external_body]
pub(crate) fn context_create() -> Context {
    Context::create()
}

/// Calls `Context::create_module`. Nothing is claimed of the result.
#[verifier::external_body]
pub(crate) fn context_create_module<'ctx>(context: &'ctx Context, name: &str) -> Module<'ctx> {
    context.create_module(name)
}

/// Calls `Context::create_builder`. Nothing is claimed of the result.
#[verifier::external_body]
pub(crate) fn context_create_builder<'ctx>(context: &'ctx Context) -> Builder<'ctx> {
    context.create_builder()
}

/// Calls `Context::i64_type`. Nothing is claimed of the result.
#[verifier::external_body]
pub(crate) fn i64_type<'ctx>(context: &'ctx Context) -> IntType<'ctx> {
    context.i64_type()
}

/// Calls `Context::bool_type`. Nothing is claimed of the result.
#[verifier::external_body]
pub(crate) fn bool_type<'ctx>(context: &'ctx Context) -> IntType<'ctx> {
    context.bool_type()
}

/// Calls `Context::i8_type`. Nothing is claimed of the result.
#[verifier::external_body]
pub(crate) fn i8_type<'ctx>(context: &'ctx Context) -> IntType<'ctx> {
    context.i8_type()
}

/// Calls `Context::void_type`. Nothing is claimed of the result.
#[verifier::external_body]
pub(crate) fn void_type<'ctx>(context: &'ctx Context) -> VoidType<'ctx> {
    context.void_type()
}

/// Calls `IntType::ptr_type` with the default address space. Nothing is
/// claimed of the result.
#[verifier::external_body]
pub(crate) fn int_pointer_type<'ctx>(ty: IntType<'ctx>) -> PointerType<'ctx> {
    ty.ptr_type(AddressSpace::default())
}

/// Turns an integer type into a `BasicTypeEnum`, by its `From` impl.
#[verifier::external_body]
pub(crate) fn int_as_basic_type<'ctx>(ty: IntType<'ctx>) -> BasicTypeEnum<'ctx> {
    BasicTypeEnum::from(ty)
}

/// Turns a pointer type into a `BasicTypeEnum`, by its `From` impl.
#[verifier::external_body]
pub(crate) fn pointer_as_basic_type<'ctx>(ty: PointerType<'ctx>) -> BasicTypeEnum<'ctx> {
    BasicTypeEnum::from(ty)
}

/// Calls `IntType::fn_type` for a function that takes no parameters and no
/// variable arguments. Nothing is claimed of the result.
#[verifier::external_body]
pub(crate) fn int_fn_type<'ctx>(ty: IntType<'ctx>) -> FunctionType<'ctx> {
    ty.fn_type(&[], false)
}

/// Calls `VoidType::fn_type` for a function without variable arguments, each
/// parameter type turned into a `BasicMetadataTypeEnum` by its `From` impl.
/// Nothing is claimed of the result.
#[verifier::external_body]
pub(crate) fn void_fn_type<'ctx>(
    ty: VoidType<'ctx>,
    params: &[BasicTypeEnum<'ctx>],
) -> FunctionType<'ctx> {
    let params: Vec<inkwell::types::BasicMetadataTypeEnum<'ctx>> =
        params.iter().map(|t| (*t).into()).collect();
    ty.fn_type(&params, false)
}

/// Calls `BasicType::fn_type` on a `BasicTypeEnum` for a function without
/// variable arguments, each parameter type turned into a
/// `BasicMetadataTypeEnum` by its `From` impl. Nothing is claimed of the
/// result.
#[verifier::external_body]
pub(crate) fn basic_fn_type<'ctx>(
    ty: BasicTypeEnum<'ctx>,
    params: &[BasicTypeEnum<'ctx>],
) -> FunctionType<'ctx> {
    let params: Vec<inkwell::types::BasicMetadataTypeEnum<'ctx>> =
        params.iter().map(|t| (*t).into()).collect();
    inkwell::types::BasicType::fn_type(&ty, &params, false)
}

/// Calls `IntType::const_int`. Nothing is claimed of the result.
#[verifier::external_body]
pub(crate) fn const_int<'ctx>(ty: IntType<'ctx>, value: u64, sign_extend: bool) -> IntValue<'ctx> {
    ty.const_int(value, sign_extend)
}

/// Calls `Context::const_string` for a string that ends in a zero byte.
/// Nothing is claimed of the result.
#[verifier::external_body]
pub(crate) fn const_string<'ctx>(context: &'ctx Context, bytes: &[u8]) -> ArrayValue<'ctx> {
    context.const_string(bytes, true)
}

/// Calls `ArrayValue::get_type`. Nothing is claimed of the result.
#[verifier::external_body]
pub(crate) fn array_value_type<'ctx>(value: ArrayValue<'ctx>) -> ArrayType<'ctx> {
    value.get_type()
}

/// Calls `Module::add_global` in the default address space. Nothing is
/// claimed of the result.
#[verifier::external_body]
pub(crate) fn add_global<'ctx>(module: &Module<'ctx>, ty: ArrayType<'ctx>, name: &str) -> GlobalValue<'ctx> {
    module.add_global(ty, None, name)
}

/// Calls `GlobalValue::set_initializer`.
#[verifier::external_body]
pub(crate) fn set_initializer<'ctx>(global: GlobalValue<'ctx>, value: ArrayValue<'ctx>) {
    global.set_initializer(&value)
}

/// Calls `GlobalValue::as_pointer_value`. Nothing is claimed of the result.
#[verifier::external_body]
pub(crate) fn global_pointer<'ctx>(global: GlobalValue<'ctx>) -> PointerValue<'ctx> {
    global.as_pointer_value()
}

/// Calls `Module::add_function` with no linkage. Nothing is claimed of the
/// result.
#[verifier::external_body]
pub(crate) fn add_function<'ctx>(module: &Module<'ctx>, name: &str, ty: FunctionType<'ctx>) -> FunctionValue<'ctx> {
    module.add_function(name, ty, None)
}

/// Calls `Context::append_basic_block`. Nothing is claimed of the result.
#[verifier::external_body]
pub(crate) fn append_basic_block<'ctx>(context: &'ctx Context, function: FunctionValue<'ctx>, name: &str) -> BasicBlock<'ctx> {
    context.append_basic_block(function, name)
}

/// Calls `Builder::position_at_end`.
#[verifier::external_body]
pub(crate) fn position_at_end<'ctx>(builder: &Builder<'ctx>, block: BasicBlock<'ctx>) {
    builder.position_at_end(block)
}

/// Calls `Module::print_to_string` and copies the text. Nothing is claimed
/// of the result.
#[verifier::external_body]
pub(crate) fn module_text<'ctx>(module: &Module<'ctx>) -> String {
    module.print_to_string().to_string()
}

/// Turns an integer value into a `BasicValueEnum`, by its `From` impl.
#[verifier::external_body]
pub(crate) fn int_as_basic_value<'ctx>(value: IntValue<'ctx>) -> BasicValueEnum<'ctx> {
    BasicValueEnum::from(value)
}

/// Turns a pointer value into a `BasicValueEnum`, by its `From` impl.
#[verifier::external_body]
pub(crate) fn pointer_as_basic_value<'ctx>(value: PointerValue<'ctx>) -> BasicValueEnum<'ctx> {
    BasicValueEnum::from(value)
}

/// The integer that a `BasicValueEnum` holds, if it is the variant
/// `IntValue`.
#[verifier::external_body]
pub(crate) fn basic_value_as_int<'ctx>(value: BasicValueEnum<'ctx>) -> Option<IntValue<'ctx>> {
    match value {
        BasicValueEnum::IntValue(v) => Some(v),
        _ => None,
    }
}

/// The pointer that a `BasicValueEnum` holds, if it is the variant
/// `PointerValue`.
#[verifier::external_body]
pub(crate) fn basic_value_as_pointer<'ctx>(value: BasicValueEnum<'ctx>) -> Option<
    PointerValue<'ctx>,
> {
    match value {
        BasicValueEnum::PointerValue(v) => Some(v),
        _ => None,
    }
}

/// The `Debug` text of a `BuilderError`.
#[verifier::external_body]
pub(crate) fn builder_error_text(error: BuilderError) -> String {
    format!("{:?}", error)
}

/// Calls `Builder::build_alloca`. Nothing is claimed of the result.
#[verifier::external_body]
pub(crate) fn build_alloca<'ctx>(
    builder: &Builder<'ctx>,
    ty: BasicTypeEnum<'ctx>,
    name: &str,
) -> Result<PointerValue<'ctx>, BuilderError> {
    builder.build_alloca(ty, name)
}

/// Calls `Builder::build_store` and drops the instruction that it gives.
#[verifier::external_body]
pub(crate) fn build_store<'ctx>(
    builder: &Builder<'ctx>,
    pointer: PointerValue<'ctx>,
    value: BasicValueEnum<'ctx>,
) -> Result<(), BuilderError> {
    builder.build_store(pointer, value).map(|_| ())
}

/// Calls `Builder::build_load`. Nothing is claimed of the result.
#[verifier::external_body]
pub(crate) fn build_load<'ctx>(
    builder: &Builder<'ctx>,
    pointer: PointerValue<'ctx>,
    name: &str,
) -> Result<BasicValueEnum<'ctx>, BuilderError> {
    builder.build_load(pointer, name)
}

/// Calls `Builder::build_int_add`. Nothing is claimed of the result.
#[verifier::external_body]
pub(crate) fn build_int_add<'ctx>(
    builder: &Builder<'ctx>,
    left: IntValue<'ctx>,
    right: IntValue<'ctx>,
    name: &str,
) -> Result<IntValue<'ctx>, BuilderError> {
    builder.build_int_add(left, right, name)
}

/// Calls `Builder::build_int_sub`. Nothing is claimed of the result.
#[verifier::external_body]
pub(crate) fn build_int_sub<'ctx>(
    builder: &Builder<'ctx>,
    left: IntValue<'ctx>,
    right: IntValue<'ctx>,
    name: &str,
) -> Result<IntValue<'ctx>, BuilderError> {
    builder.build_int_sub(left, right, name)
}

/// Calls `Builder::build_int_mul`. Nothing is claimed of the result.
#[verifier::external_body]
pub(crate) fn build_int_mul<'ctx>(
    builder: &Builder<'ctx>,
    left: IntValue<'ctx>,
    right: IntValue<'ctx>,
    name: &str,
) -> Result<IntValue<'ctx>, BuilderError> {
    builder.build_int_mul(left, right, name)
}

/// Calls `Builder::build_int_signed_div`. Nothing is claimed of the result.
#[verifier::external_body]
pub(crate) fn build_int_signed_div<'ctx>(
    builder: &Builder<'ctx>,
    left: IntValue<'ctx>,
    right: IntValue<'ctx>,
    name: &str,
) -> Result<IntValue<'ctx>, BuilderError> {
    builder.build_int_signed_div(left, right, name)
}

/// Calls `Builder::build_int_signed_rem`. Nothing is claimed of the result.
#[verifier::external_body]
pub(crate) fn build_int_signed_rem<'ctx>(
    builder: &Builder<'ctx>,
    left: IntValue<'ctx>,
    right: IntValue<'ctx>,
    name: &str,
) -> Result<IntValue<'ctx>, BuilderError> {
    builder.build_int_signed_rem(left, right, name)
}

/// Calls `Builder::build_and`. Nothing is claimed of the result.
#[verifier::external_body]
pub(crate) fn build_and<'ctx>(
    builder: &Builder<'ctx>,
    left: IntValue<'ctx>,
    right: IntValue<'ctx>,
    name: &str,
) -> Result<IntValue<'ctx>, BuilderError> {
    builder.build_and(left, right, name)
}

/// Calls `Builder::build_or`. Nothing is claimed of the result.
#[verifier::external_body]
pub(crate) fn build_or<'ctx>(
    builder: &Builder<'ctx>,
    left: IntValue<'ctx>,
    right: IntValue<'ctx>,
    name: &str,
) -> Result<IntValue<'ctx>, BuilderError> {
    builder.build_or(left, right, name)
}

/// Calls `Builder::build_int_compare` with the signed predicate that stands
/// for the comparison. Nothing is claimed of the result.
#[verifier::external_body]
pub(crate) fn build_int_compare<'ctx>(
    builder: &Builder<'ctx>,
    comparison: Comparison,
    left: IntValue<'ctx>,
    right: IntValue<'ctx>,
    name: &str,
) -> Result<IntValue<'ctx>, BuilderError> {
    let predicate = match comparison {
        Comparison::Equal => IntPredicate::EQ,
        Comparison::NotEqual => IntPredicate::NE,
        Comparison::Less => IntPredicate::SLT,
        Comparison::Greater => IntPredicate::SGT,
        Comparison::LessEqual => IntPredicate::SLE,
        Comparison::GreaterEqual => IntPredicate::SGE,
    };
    builder.build_int_compare(predicate, left, right, name)
}

} // verus!
