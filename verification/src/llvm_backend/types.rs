use vstd::prelude::*;
use inkwell::context::Context;
use inkwell::types::{BasicTypeEnum, FunctionType};
use crate::ast::Type;
use crate::llvm_backend::bindings::{
    basic_fn_type, bool_type, i64_type, i8_type, int_as_basic_type, int_pointer_type,
    pointer_as_basic_type, void_fn_type, void_type,
};
use crate::llvm_backend::lowering::MachineType;

verus! {

/// Turns the types of the language into LLVM types.
pub struct TypeConverter;

impl TypeConverter {
    /// The LLVM spelling of the machine type that stands for a type of the
    /// language.
    pub open spec fn llvm_name(t: Type) -> Seq<char> {
        match t {
            Type::Int => "i64"@,
            Type::Bool => "i1"@,
            Type::Char => "i8"@,
            Type::String => "i8*"@,
            Type::Array(_) => "[...] (array pointer)"@,
            Type::Void => "void"@,
        }
    }

    /// The LLVM type of a machine type.
    pub fn machine_type_to_llvm_type<'ctx>(
        machine_type: MachineType,
        context: &'ctx Context,
    ) -> BasicTypeEnum<'ctx> {
        match machine_type {
            MachineType::I64 => int_as_basic_type(i64_type(context)),
            MachineType::I1 => int_as_basic_type(bool_type(context)),
            MachineType::I8 => int_as_basic_type(i8_type(context)),
            MachineType::Pointer => pointer_as_basic_type(int_pointer_type(i8_type(context))),
        }
    }

    /// Convert a type of the language to an LLVM type. `Void` is the type of
    /// no value and has none.
    pub fn type_to_llvm_type<'ctx>(remy_type: &Type, context: &'ctx Context) -> BasicTypeEnum<
        'ctx,
    >
        requires
            *remy_type != Type::Void,
    {
        Self::machine_type_to_llvm_type(MachineType::for_type(remy_type).unwrap(), context)
    }

    /// Create an LLVM function type
    pub fn create_function_type<'ctx>(
        param_types: &[BasicTypeEnum<'ctx>],
        return_type: &Type,
        context: &'ctx Context,
    ) -> FunctionType<'ctx> {
        match return_type {
            Type::Void => void_fn_type(void_type(context), param_types),
            _ => basic_fn_type(Self::type_to_llvm_type(return_type, context), param_types),
        }
    }

    /// Return a text representation of a type for debugging purposes
    pub fn llvm_type_to_string(remy_type: &Type) -> (r: &'static str)
        ensures
            r@ == Self::llvm_name(*remy_type),
    {
        match remy_type {
            Type::Int => "i64",
            Type::Bool => "i1",
            Type::Char => "i8",
            Type::String => "i8*",
            Type::Array(_) => "[...] (array pointer)",
            Type::Void => "void",
        }
    }
}

} // verus!
