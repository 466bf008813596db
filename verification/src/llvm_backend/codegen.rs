use vstd::prelude::*;
use vstd::hash_map::StringHashMap;
use inkwell::builder::{Builder, BuilderError};
use inkwell::context::Context;
use inkwell::module::Module;
use inkwell::values::{BasicValueEnum, IntValue, PointerValue};
use crate::ast::{stmt_views, BinaryOp, Expr, Literal, Stmt};
use crate::llvm_backend::bindings::{
    add_function, add_global, append_basic_block, array_value_type, basic_value_as_int,
    basic_value_as_pointer, bool_type, build_alloca, build_and, build_int_add, build_int_compare,
    build_int_mul, build_int_signed_div, build_int_signed_rem, build_int_sub, build_load,
    build_or, build_store, builder_error_text, const_int, const_string, global_pointer, i64_type,
    i8_type, int_as_basic_value, int_fn_type, module_text, pointer_as_basic_value,
    position_at_end, set_initializer,
};
use crate::llvm_backend::lowering::{
    binary_lowering, check_binary, checked_view, literal_type, lowering, program_lowering,
    statement_lowering, undefined_variable, Comparison, Layout, MachineType,
};
use crate::llvm_backend::types::TypeConverter;
use crate::text::push_text;

verus! {

/// Where a declared variable lives, and the machine type of what it holds.
pub struct Slot<'ctx> {
    pointer: PointerValue<'ctx>,
    kind: MachineType,
}

/// A value that has been emitted, with its machine type.
pub enum Operand<'ctx> {
    Integer { value: IntValue<'ctx>, kind: MachineType },
    Address(PointerValue<'ctx>),
}

impl<'ctx> Operand<'ctx> {
    /// The machine type of the value.
    pub open spec fn kind(self) -> MachineType {
        match self {
            Operand::Integer { value, kind } => kind,
            Operand::Address(_) => MachineType::Pointer,
        }
    }

    /// An integer operand has an integer machine type.
    pub open spec fn wf(self) -> bool {
        self matches Operand::Integer { value, kind } ==> !(kind is Pointer)
    }

    /// The value, whatever its machine type.
    fn into_value(self) -> BasicValueEnum<'ctx> {
        match self {
            Operand::Integer { value, kind } => int_as_basic_value(value),
            Operand::Address(pointer) => pointer_as_basic_value(pointer),
        }
    }
}

/// The diagnostic of an error that the builder raised.
fn emission_failure(error: BuilderError) -> String {
    builder_error_text(error)
}

/// Whether a diagnostic is one that the load of a variable fails with: the
/// builder refused the load, or what was loaded is not of the machine type
/// that the variable was declared with.
pub open spec fn load_diagnostic(message: Seq<char>) -> bool {
    ||| message == "Loaded value is not a pointer"@
    ||| message == "Loaded value is not an integer"@
    ||| exists|text: Seq<char>| message == #[trigger] load_refusal(text)
}

/// The diagnostic of a load that the builder refused with the error `text`.
pub open spec fn load_refusal(text: Seq<char>) -> Seq<char> {
    "Failed to load: '"@ + text + "'"@
}

/// The diagnostic of a load that the builder refused with the error `text`.
fn load_failure(text: &str) -> (r: String)
    ensures
        r@ == load_refusal(text@),
{
    let mut message = String::new();
    push_text(&mut message, "Failed to load: '");
    push_text(&mut message, text);
    push_text(&mut message, "'");
    message
}

/// The operand that a loaded value is, for a variable of the machine type
/// `kind`: `integer` and `pointer` are what the value holds of either, and a
/// value that does not hold what the variable was declared with is refused.
fn loaded_operand<'ctx>(
    kind: MachineType,
    integer: Option<IntValue<'ctx>>,
    pointer: Option<PointerValue<'ctx>>,
) -> (r: Result<Operand<'ctx>, String>)
    ensures
        match kind {
            MachineType::Pointer => match pointer {
                Some(p) => r == Ok::<Operand<'ctx>, String>(Operand::Address(p)),
                None => r matches Err(m) && m@ == "Loaded value is not a pointer"@,
            },
            _ => match integer {
                Some(v) => r == Ok::<Operand<'ctx>, String>(Operand::Integer { value: v, kind }),
                None => r matches Err(m) && m@ == "Loaded value is not an integer"@,
            },
        },
{
    match kind {
        MachineType::Pointer => match pointer {
            Some(pointer) => Ok(Operand::Address(pointer)),
            None => Err("Loaded value is not a pointer".to_string()),
        },
        kind => match integer {
            Some(value) => Ok(Operand::Integer { value, kind }),
            None => Err("Loaded value is not an integer".to_string()),
        },
    }
}

/// The operand that an integer instruction gives, from what the builder
/// answered: the integer with the machine type `kind`, or the builder's
/// error as a diagnostic.
fn integer_operand<'ctx>(result: Result<IntValue<'ctx>, BuilderError>, kind: MachineType) -> (r:
    Result<Operand<'ctx>, String>)
    ensures
        result matches Ok(v) ==> r == Ok::<Operand<'ctx>, String>(
            Operand::Integer { value: v, kind },
        ),
        result is Err ==> r is Err,
{
    match result {
        Ok(value) => Ok(Operand::Integer { value, kind }),
        Err(e) => Err(emission_failure(e)),
    }
}

/// Emits LLVM IR for the part of the language that has a lowering, and
/// refuses the rest with a diagnostic before anything is emitted for it.
pub struct CodeGenerator<'ctx> {
    context: &'ctx Context,
    module: Module<'ctx>,
    builder: Builder<'ctx>,
    variables: StringHashMap<Slot<'ctx>>,
}

impl<'ctx> CodeGenerator<'ctx> {
    /// The module that the generator emits into.
    pub closed spec fn module(&self) -> Module<'ctx> {
        self.module
    }

    /// The machine types of the variables that have been declared.
    pub closed spec fn layout(&self) -> Layout {
        self.variables@.map_values(|slot: Slot<'ctx>| slot.kind)
    }

    /// Create a new code generator
    pub fn new(context: &'ctx Context, module: Module<'ctx>, builder: Builder<'ctx>) -> (r: Self)
        ensures
            r.layout() == Map::<Seq<char>, MachineType>::empty(),
            r.module() == module,
    {
        let r = Self { context, module, builder, variables: StringHashMap::new() };
        r
    }

    /// Adds a function that returns an `i64` and takes nothing, and places
    /// the builder at the end of its entry block.
    pub fn create_test_function(&mut self, name: &str)
        ensures
            final(self).layout() == old(self).layout(),
            final(self).module() == old(self).module(),
    {
        let fn_type = int_fn_type(i64_type(self.context));
        let function = add_function(&self.module, name, fn_type);
        let basic_block = append_basic_block(self.context, function, "entry");
        position_at_end(&self.builder, basic_block);
    }

    /// Compile a list of statements, in order, up to the first that fails.
    ///
    /// Where a statement is refused the result is an error, and where the
    /// result is `Ok` every statement had a lowering and is now declared.
    pub fn compile_program(&mut self, stmts: &[Stmt]) -> (r: Result<(), String>)
        ensures
            final(self).module() == old(self).module(),
            stmts@.len() == 0 ==> r is Ok,
            program_lowering(stmt_views(stmts@), 0, old(self).layout()) is Err ==> r is Err,
            r is Ok ==> program_lowering(stmt_views(stmts@), 0, old(self).layout()) == Ok::<
                Layout,
                Seq<char>,
            >(final(self).layout()),
    {
        let ghost views = stmt_views(stmts@);
        let mut i: usize = 0;
        while i < stmts.len()
            invariant
                i <= stmts.len(),
                views == stmt_views(stmts@),
                self.module() == old(self).module(),
                program_lowering(views, i as int, self.layout()) == program_lowering(
                    views,
                    0,
                    old(self).layout(),
                ),
            decreases stmts.len() - i,
        {
            match self.compile_statement(&stmts[i]) {
                Ok(_) => {},
                Err(e) => {
                    return Err(e);
                },
            }
            i += 1;
        }
        Ok(())
    }

    /// Compile a statement.
    ///
    /// A statement that is refused gives its diagnostic and nothing is
    /// emitted for it; any other error comes from the builder. The layout
    /// changes only where the result is `Ok`.
    pub fn compile_statement(&mut self, stmt: &Stmt) -> (r: Result<(), String>)
        ensures
            final(self).module() == old(self).module(),
            match statement_lowering(stmt@, old(self).layout()) {
                Err(m) => r matches Err(x) && x@ == m && final(self).layout() == old(
                    self,
                ).layout(),
                Ok(next) => final(self).layout() == if r is Ok {
                    next
                } else {
                    old(self).layout()
                },
            },
    {
        match stmt {
            Stmt::Expression(expr) => {
                match self.compile_expr(expr) {
                    Ok(_) => Ok(()),
                    Err(e) => Err(e),
                }
            },
            Stmt::Let { name, type_annotation: _, value } => self.compile_let(name.as_str(), value),
            _ => Err("Statement not yet implemented".to_string()),
        }
    }

    /// The machine type of the value of an expression, or the diagnostic
    /// with which the expression is refused.
    pub fn check_expr(&self, expr: &Expr) -> (r: Result<MachineType, String>)
        ensures
            checked_view(r) == lowering(expr@, self.layout()),
        decreases expr,
    {
        match expr {
            Expr::Literal(literal) => Ok(literal_type(literal)),
            Expr::Variable(name) => match self.variables.get(name.as_str()) {
                Some(slot) => Ok(slot.kind),
                None => Err(undefined_variable(name.as_str())),
            },
            Expr::Binary { left, op, right } => {
                let left_type = match self.check_expr(left) {
                    Ok(t) => t,
                    Err(e) => {
                        return Err(e);
                    },
                };
                let right_type = match self.check_expr(right) {
                    Ok(t) => t,
                    Err(e) => {
                        return Err(e);
                    },
                };
                check_binary(left_type, op, right_type)
            },
            _ => Err("Expression not yet implemented".to_string()),
        }
    }

    /// Compile an expression.
    ///
    /// An expression that is refused gives its diagnostic and nothing is
    /// emitted; any other error comes from the builder.
    pub fn compile_expr(&self, expr: &Expr) -> (r: Result<BasicValueEnum<'ctx>, String>)
        ensures
            lowering(expr@, self.layout()) matches Err(m) ==> (r matches Err(x) && x@ == m),
            expr@ is Literal ==> r is Ok,
    {
        match self.check_expr(expr) {
            Err(e) => Err(e),
            Ok(_) => match self.emit_expr(expr) {
                Ok(operand) => Ok(operand.into_value()),
                Err(e) => Err(e),
            },
        }
    }

    /// Compile a variable declaration: the value, a stack slot of its
    /// machine type, and the store of the value into the slot.
    pub fn compile_let(&mut self, name: &str, value: &Expr) -> (r: Result<(), String>)
        ensures
            final(self).module() == old(self).module(),
            match lowering(value@, old(self).layout()) {
                Err(m) => r matches Err(x) && x@ == m && final(self).layout() == old(
                    self,
                ).layout(),
                Ok(t) => final(self).layout() == if r is Ok {
                    old(self).layout().insert(name@, t)
                } else {
                    old(self).layout()
                },
            },
    {
        let kind = match self.check_expr(value) {
            Ok(kind) => kind,
            Err(e) => {
                return Err(e);
            },
        };
        let operand = match self.emit_expr(value) {
            Ok(operand) => operand,
            Err(e) => {
                return Err(e);
            },
        };
        let slot_type = TypeConverter::machine_type_to_llvm_type(kind, self.context);
        let pointer = match build_alloca(&self.builder, slot_type, name) {
            Ok(pointer) => pointer,
            Err(e) => {
                return Err(emission_failure(e));
            },
        };
        match build_store(&self.builder, pointer, operand.into_value()) {
            Ok(_) => {},
            Err(e) => {
                return Err(emission_failure(e));
            },
        }
        self.variables.insert(name.to_string(), Slot { pointer, kind });
        Ok(())
    }

    /// Load a variable
    pub fn compile_variable(&self, name: &str) -> (r: Result<BasicValueEnum<'ctx>, String>)
        ensures
            !self.layout().contains_key(name@) ==> (r matches Err(x) && x@
                == "Undefined variable: "@ + name@),
    {
        if !self.variables.contains_key(name) {
            return Err(undefined_variable(name));
        }
        match self.emit_variable(name) {
            Ok(operand) => Ok(operand.into_value()),
            Err(e) => Err(e),
        }
    }

    /// Compile a binary operation.
    ///
    /// An operation that is refused gives its diagnostic and nothing is
    /// emitted; any other error comes from the builder.
    pub fn compile_binary(&self, left: &Expr, op: &BinaryOp, right: &Expr) -> (r: Result<
        BasicValueEnum<'ctx>,
        String,
    >)
        ensures
            match lowering(left@, self.layout()) {
                Err(m) => r matches Err(x) && x@ == m,
                Ok(lt) => match lowering(right@, self.layout()) {
                    Err(m) => r matches Err(x) && x@ == m,
                    Ok(rt) => binary_lowering(lt, *op, rt) matches Err(m) ==> (r matches Err(x)
                        && x@ == m),
                },
            },
    {
        let left_type = match self.check_expr(left) {
            Ok(t) => t,
            Err(e) => {
                return Err(e);
            },
        };
        let right_type = match self.check_expr(right) {
            Ok(t) => t,
            Err(e) => {
                return Err(e);
            },
        };
        match check_binary(left_type, op, right_type) {
            Ok(_) => {},
            Err(e) => {
                return Err(e);
            },
        }
        let left_val = match self.emit_expr(left) {
            Ok(v) => v,
            Err(e) => {
                return Err(e);
            },
        };
        let right_val = match self.emit_expr(right) {
            Ok(v) => v,
            Err(e) => {
                return Err(e);
            },
        };
        match self.emit_binary(left_val, op, right_val) {
            Ok(operand) => Ok(operand.into_value()),
            Err(e) => Err(e),
        }
    }

    /// Compile a literal
    pub fn compile_literal(&self, lit: &Literal) -> (r: Result<BasicValueEnum<'ctx>, String>)
        ensures
            r is Ok,
    {
        Ok(self.emit_literal(lit).into_value())
    }

    /// Get the compiled module
    pub fn get_module(&self) -> (r: &Module<'ctx>)
        ensures
            *r == self.module(),
    {
        &self.module
    }

    /// The generated IR as text
    pub fn ir(&self) -> String {
        module_text(&self.module)
    }

    /// Emits an expression that has a lowering. The only errors are those
    /// of the builder.
    fn emit_expr(&self, expr: &Expr) -> (r: Result<Operand<'ctx>, String>)
        requires
            lowering(expr@, self.layout()) is Ok,
        ensures
            r matches Ok(v) ==> (v.wf() && lowering(expr@, self.layout()) == Ok::<
                MachineType,
                Seq<char>,
            >(v.kind())),
            expr@ is Literal ==> r is Ok,
        decreases expr,
    {
        match expr {
            Expr::Literal(lit) => Ok(self.emit_literal(lit)),
            Expr::Variable(name) => self.emit_variable(name.as_str()),
            Expr::Binary { left, op, right } => {
                let left_val = match self.emit_expr(left) {
                    Ok(v) => v,
                    Err(e) => {
                        return Err(e);
                    },
                };
                let right_val = match self.emit_expr(right) {
                    Ok(v) => v,
                    Err(e) => {
                        return Err(e);
                    },
                };
                self.emit_binary(left_val, op, right_val)
            },
            _ => Err("Expression not yet implemented".to_string()),
        }
    }

    /// Emits a literal as a constant; a string becomes a global array of
    /// its bytes and a zero byte, and its value is the address of the global.
    fn emit_literal(&self, lit: &Literal) -> (r: Operand<'ctx>)
        ensures
            r.wf(),
            r.kind() == crate::llvm_backend::lowering::literal_machine_type(lit@),
    {
        match lit {
            Literal::Number(n) => Operand::Integer {
                value: const_int(i64_type(self.context), #[verifier::truncate] (*n as u64), true),
                kind: MachineType::I64,
            },
            Literal::Bool(b) => Operand::Integer {
                value: const_int(
                    bool_type(self.context),
                    if *b {
                        1
                    } else {
                        0
                    },
                    false,
                ),
                kind: MachineType::I1,
            },
            Literal::Char(c) => Operand::Integer {
                value: const_int(i8_type(self.context), *c as u64, false),
                kind: MachineType::I8,
            },
            Literal::String(s) => {
                let llvm_string = const_string(self.context, s.as_str().as_bytes());
                let global = add_global(&self.module, array_value_type(llvm_string), "str_const");
                set_initializer(global, llvm_string);
                Operand::Address(global_pointer(global))
            },
        }
    }

    /// Emits the load of a declared variable.
    fn emit_variable(&self, name: &str) -> (r: Result<Operand<'ctx>, String>)
        requires
            self.layout().contains_key(name@),
        ensures
            r matches Ok(v) ==> (v.wf() && v.kind() == self.layout()[name@]),
            r matches Err(m) ==> load_diagnostic(m@),
    {
        let slot = match self.variables.get(name) {
            Some(slot) => slot,
            None => {
                return Err(undefined_variable(name));
            },
        };
        match build_load(&self.builder, slot.pointer, name) {
            Ok(loaded) => loaded_operand(
                slot.kind,
                basic_value_as_int(loaded),
                basic_value_as_pointer(loaded),
            ),
            Err(e) => Err(load_failure(emission_failure(e).as_str())),
        }
    }

    /// Emits a binary operation on two operands that the operator takes.
    fn emit_binary(&self, left: Operand<'ctx>, op: &BinaryOp, right: Operand<'ctx>) -> (r: Result<
        Operand<'ctx>,
        String,
    >)
        requires
            left.wf(),
            right.wf(),
            binary_lowering(left.kind(), *op, right.kind()) is Ok,
        ensures
            r matches Ok(v) ==> (v.wf() && binary_lowering(left.kind(), *op, right.kind())
                == Ok::<MachineType, Seq<char>>(v.kind())),
    {
        let (l, kind) = match left {
            Operand::Integer { value, kind } => (value, kind),
            Operand::Address(_) => {
                return Err("Operands of a binary operator must be integers of the same type".to_string());
            },
        };
        let r = match right {
            Operand::Integer { value, kind } => value,
            Operand::Address(_) => {
                return Err("Operands of a binary operator must be integers of the same type".to_string());
            },
        };
        let b = &self.builder;
        let bit = MachineType::I1;
        let (result, result_kind) = match op {
            //Arithmetic
            BinaryOp::Add => (build_int_add(b, l, r, "add_tmp"), kind),
            BinaryOp::Sub => (build_int_sub(b, l, r, "sub_tmp"), kind),
            BinaryOp::Mul => (build_int_mul(b, l, r, "mul_tmp"), kind),
            BinaryOp::Div => (build_int_signed_div(b, l, r, "div_tmp"), kind),
            BinaryOp::Mod => (build_int_signed_rem(b, l, r, "mod_tmp"), kind),
            BinaryOp::Pow => {
                return Err("Power operator not yet implemented".to_string());
            },
            //Comparison
            BinaryOp::Equal => (build_int_compare(b, Comparison::Equal, l, r, "eq_tmp"), bit),
            BinaryOp::NotEqual => (build_int_compare(b, Comparison::NotEqual, l, r, "ne_tmp"), bit),
            BinaryOp::Less => (build_int_compare(b, Comparison::Less, l, r, "lt_tmp"), bit),
            BinaryOp::Greater => (build_int_compare(b, Comparison::Greater, l, r, "gt_tmp"), bit),
            BinaryOp::LessEqual => (
                build_int_compare(b, Comparison::LessEqual, l, r, "le_tmp"),
                bit,
            ),
            BinaryOp::GreaterEqual => (
                build_int_compare(b, Comparison::GreaterEqual, l, r, "ge_tmp"),
                bit,
            ),
            // Logical operators
            BinaryOp::And => (build_and(b, l, r, "and_tmp"), kind),
            BinaryOp::Or => (build_or(b, l, r, "or_tmp"), kind),
        };
        integer_operand(result, result_kind)
    }
}

} // verus!
