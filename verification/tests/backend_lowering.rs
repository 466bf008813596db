use inkwell::context::Context;
use remylang::ast::{BinaryOp, Expr, Literal, Stmt, Type, UnaryOp};
use remylang::llvm_backend::{CodeGenerator, LLVMCompilerContext, MachineType, TypeConverter};

fn num(n: i64) -> Expr {
    Expr::Literal(Literal::Number(n))
}

fn var(name: &str) -> Expr {
    Expr::Variable(name.to_string())
}

fn binary(left: Expr, op: BinaryOp, right: Expr) -> Expr {
    Expr::Binary { left: Box::new(left), op, right: Box::new(right) }
}

fn declare(name: &str, value: Expr) -> Stmt {
    Stmt::Let { name: name.to_string(), type_annotation: None, value }
}

fn refused(message: &str) -> Result<(), String> {
    Err(message.to_string())
}

/// A generator whose builder stands in a function, so that it can emit.
fn generator(context: &Context) -> CodeGenerator<'_> {
    let mut generator =
        CodeGenerator::new(context, context.create_module("m"), context.create_builder());
    generator.create_test_function("f");
    generator
}

#[test]
fn machine_type_names() {
    assert_eq!(TypeConverter::llvm_type_to_string(&Type::Int), "i64");
    assert_eq!(TypeConverter::llvm_type_to_string(&Type::Bool), "i1");
    assert_eq!(TypeConverter::llvm_type_to_string(&Type::Char), "i8");
    assert_eq!(TypeConverter::llvm_type_to_string(&Type::String), "i8*");
    assert_eq!(
        TypeConverter::llvm_type_to_string(&Type::Array(Box::new(Type::Int))),
        "[...] (array pointer)"
    );
    assert_eq!(TypeConverter::llvm_type_to_string(&Type::Void), "void");
}

#[test]
fn machine_types_of_language_types() {
    assert_eq!(MachineType::for_type(&Type::Int), Some(MachineType::I64));
    assert_eq!(MachineType::for_type(&Type::Bool), Some(MachineType::I1));
    assert_eq!(MachineType::for_type(&Type::Char), Some(MachineType::I8));
    assert_eq!(MachineType::for_type(&Type::String), Some(MachineType::Pointer));
    assert_eq!(
        MachineType::for_type(&Type::Array(Box::new(Type::Bool))),
        Some(MachineType::Pointer)
    );
    assert_eq!(MachineType::for_type(&Type::Void), None);
}

#[test]
fn llvm_types_have_the_named_widths() {
    let context = Context::create();
    let int = TypeConverter::type_to_llvm_type(&Type::Int, &context);
    assert_eq!(int.into_int_type().get_bit_width(), 64);
    let bit = TypeConverter::type_to_llvm_type(&Type::Bool, &context);
    assert_eq!(bit.into_int_type().get_bit_width(), 1);
    let byte = TypeConverter::type_to_llvm_type(&Type::Char, &context);
    assert_eq!(byte.into_int_type().get_bit_width(), 8);
    let array = TypeConverter::type_to_llvm_type(&Type::Array(Box::new(Type::Int)), &context);
    assert!(array.is_pointer_type());
}

#[test]
fn function_types() {
    let context = Context::create();
    let int = TypeConverter::type_to_llvm_type(&Type::Int, &context);
    let bit = TypeConverter::type_to_llvm_type(&Type::Bool, &context);
    let void = TypeConverter::create_function_type(&[int, bit], &Type::Void, &context);
    assert_eq!(void.count_param_types(), 2);
    assert!(void.get_return_type().is_none());
    assert!(!void.is_var_arg());
    let returns_bit = TypeConverter::create_function_type(&[], &Type::Bool, &context);
    assert_eq!(returns_bit.count_param_types(), 0);
    assert_eq!(returns_bit.get_return_type(), Some(bit));
}

#[test]
fn context_makes_modules_and_builders() {
    let llvm = LLVMCompilerContext::default();
    let module = llvm.create_module("first");
    let builder = llvm.create_builder();
    assert_eq!(module.get_name().to_str().unwrap(), "first");
    assert!(builder.get_insert_block().is_none());
    assert_eq!(module.get_context(), *llvm.get_context());
}

#[test]
fn literals_become_constants() {
    let context = Context::create();
    let generator = generator(&context);
    let number = generator.compile_literal(&Literal::Number(-7)).unwrap();
    assert_eq!(number.into_int_value().get_sign_extended_constant(), Some(-7));
    assert_eq!(number.into_int_value().get_type().get_bit_width(), 64);
    let yes = generator.compile_literal(&Literal::Bool(true)).unwrap();
    assert_eq!(yes.into_int_value().get_zero_extended_constant(), Some(1));
    assert_eq!(yes.into_int_value().get_type().get_bit_width(), 1);
    let no = generator.compile_literal(&Literal::Bool(false)).unwrap();
    assert_eq!(no.into_int_value().get_zero_extended_constant(), Some(0));
    let letter = generator.compile_literal(&Literal::Char('A')).unwrap();
    assert_eq!(letter.into_int_value().get_zero_extended_constant(), Some(65));
    assert_eq!(letter.into_int_value().get_type().get_bit_width(), 8);
    let text = generator.compile_literal(&Literal::String("hi".to_string())).unwrap();
    assert!(text.is_pointer_value());
    assert!(generator.ir().contains("c\"hi\\00\""));
    assert!(generator.get_module().get_global("str_const").is_some());
}

#[test]
fn declaration_allocates_stores_and_declares() {
    let context = Context::create();
    let mut generator = generator(&context);
    assert_eq!(generator.compile_variable("x"), Err("Undefined variable: x".to_string()));
    assert_eq!(generator.compile_let("x", &num(42)), Ok(()));
    let loaded = generator.compile_variable("x").unwrap();
    assert!(loaded.is_int_value());
    let sum = generator.compile_expr(&binary(var("x"), BinaryOp::Add, num(1))).unwrap();
    assert!(sum.is_int_value());
    let ir = generator.ir();
    assert!(ir.contains("%x = alloca i64"));
    assert!(ir.contains("store i64 42, i64* %x"));
    assert!(ir.contains("load i64, i64* %x"));
    assert!(ir.contains("%add_tmp = add i64"));
}

#[test]
fn every_operator_but_power_is_emitted() {
    let context = Context::create();
    let mut generator = generator(&context);
    assert_eq!(generator.compile_let("a", &num(6)), Ok(()));
    assert_eq!(generator.compile_let("b", &num(3)), Ok(()));
    let cases = [
        (BinaryOp::Add, "%add_tmp = add i64", 64),
        (BinaryOp::Sub, "%sub_tmp = sub i64", 64),
        (BinaryOp::Mul, "%mul_tmp = mul i64", 64),
        (BinaryOp::Div, "%div_tmp = sdiv i64", 64),
        (BinaryOp::Mod, "%mod_tmp = srem i64", 64),
        (BinaryOp::Equal, "%eq_tmp = icmp eq i64", 1),
        (BinaryOp::NotEqual, "%ne_tmp = icmp ne i64", 1),
        (BinaryOp::Less, "%lt_tmp = icmp slt i64", 1),
        (BinaryOp::Greater, "%gt_tmp = icmp sgt i64", 1),
        (BinaryOp::LessEqual, "%le_tmp = icmp sle i64", 1),
        (BinaryOp::GreaterEqual, "%ge_tmp = icmp sge i64", 1),
        (BinaryOp::And, "%and_tmp = and i64", 64),
        (BinaryOp::Or, "%or_tmp = or i64", 64),
    ];
    for (op, instruction, width) in cases {
        let value = generator.compile_binary(&var("a"), &op, &var("b")).unwrap();
        assert_eq!(value.into_int_value().get_type().get_bit_width(), width);
        assert!(generator.ir().contains(instruction), "{}", instruction);
    }
    assert_eq!(
        generator.compile_binary(&var("a"), &BinaryOp::Pow, &var("b")),
        Err("Power operator not yet implemented".to_string())
    );
}

#[test]
fn comparison_results_are_bits() {
    let context = Context::create();
    let mut generator = generator(&context);
    assert_eq!(generator.compile_let("a", &num(6)), Ok(()));
    let both = binary(
        binary(var("a"), BinaryOp::Less, num(7)),
        BinaryOp::And,
        binary(var("a"), BinaryOp::Greater, num(5)),
    );
    let value = generator.compile_expr(&both).unwrap();
    assert_eq!(value.into_int_value().get_type().get_bit_width(), 1);
    assert_eq!(
        generator.compile_expr(&binary(binary(var("a"), BinaryOp::Less, num(7)), BinaryOp::Add, num(1))),
        Err("Operands of a binary operator must be integers of the same type".to_string())
    );
}

#[test]
fn expressions_without_lowering_are_refused() {
    let context = Context::create();
    let generator = generator(&context);
    let refusal = Err("Expression not yet implemented".to_string());
    assert_eq!(
        generator.compile_expr(&Expr::Unary { op: UnaryOp::Minus, right: Box::new(num(1)) }),
        refusal
    );
    assert_eq!(generator.compile_expr(&Expr::ArrayLiteral(vec![])), refusal);
    assert_eq!(
        generator.compile_expr(&Expr::Call { callee: Box::new(var("f")), args: vec![] }),
        refusal
    );
    assert_eq!(
        generator.compile_expr(&Expr::ArrayAccess {
            array: Box::new(var("a")),
            index: Box::new(num(0))
        }),
        refusal
    );
    assert_eq!(
        generator.compile_expr(&binary(num(1), BinaryOp::Add, Expr::ArrayLiteral(vec![]))),
        refusal
    );
    assert_eq!(
        generator.compile_expr(&binary(num(2), BinaryOp::Pow, num(3))),
        Err("Power operator not yet implemented".to_string())
    );
    assert_eq!(
        generator.compile_expr(&binary(var("y"), BinaryOp::Pow, num(3))),
        Err("Undefined variable: y".to_string())
    );
}

#[test]
fn operands_must_be_integers_of_one_type() {
    let context = Context::create();
    let generator = generator(&context);
    let refusal = Err("Operands of a binary operator must be integers of the same type".to_string());
    let text = || Expr::Literal(Literal::String("a".to_string()));
    assert_eq!(generator.compile_expr(&binary(text(), BinaryOp::Add, text())), refusal);
    assert_eq!(generator.compile_expr(&binary(num(1), BinaryOp::Add, text())), refusal);
    assert_eq!(
        generator.compile_expr(&binary(Expr::Literal(Literal::Bool(true)), BinaryOp::Add, num(1))),
        refusal
    );
    assert_eq!(
        generator.compile_expr(&binary(Expr::Literal(Literal::Char('c')), BinaryOp::Equal, num(1))),
        refusal
    );
    assert!(!generator.ir().contains("str_const"));
}

#[test]
fn statements_without_lowering_are_refused() {
    let context = Context::create();
    let mut generator = generator(&context);
    let refusal = refused("Statement not yet implemented");
    assert_eq!(generator.compile_statement(&Stmt::Block(vec![])), refusal);
    assert_eq!(generator.compile_statement(&Stmt::Return(None)), refusal);
    assert_eq!(
        generator.compile_statement(&Stmt::Assignment { name: "x".to_string(), value: num(1) }),
        refusal
    );
    assert_eq!(
        generator.compile_statement(&Stmt::If {
            condition: num(1),
            then_branch: Box::new(Stmt::Block(vec![])),
            else_branch: None
        }),
        refusal
    );
    assert_eq!(
        generator.compile_statement(&Stmt::FunctionDecl {
            name: "f".to_string(),
            params: vec![],
            return_type: None,
            body: Box::new(Stmt::Block(vec![]))
        }),
        refusal
    );
}

#[test]
fn refused_expression_statement_is_an_error() {
    let context = Context::create();
    let mut generator = generator(&context);
    assert_eq!(
        generator.compile_statement(&Stmt::Expression(var("x"))),
        refused("Undefined variable: x")
    );
    assert_eq!(generator.compile_statement(&Stmt::Expression(num(1))), Ok(()));
}

#[test]
fn program_stops_at_the_first_refusal() {
    let context = Context::create();
    let mut generator = generator(&context);
    let program = vec![
        declare("a", num(1)),
        declare("b", binary(var("a"), BinaryOp::Add, num(2))),
        Stmt::Expression(var("c")),
        declare("c", num(3)),
    ];
    assert_eq!(generator.compile_program(&program), refused("Undefined variable: c"));
    assert!(generator.compile_variable("a").is_ok());
    assert!(generator.compile_variable("b").is_ok());
    assert_eq!(generator.compile_variable("c"), Err("Undefined variable: c".to_string()));
    assert_eq!(generator.compile_program(&program[3..]), Ok(()));
    assert!(generator.compile_variable("c").is_ok());
    assert_eq!(generator.compile_program(&[]), Ok(()));
}

#[test]
fn declared_variable_keeps_its_machine_type() {
    let context = Context::create();
    let mut generator = generator(&context);
    assert_eq!(generator.compile_let("s", &Expr::Literal(Literal::String("t".to_string()))), Ok(()));
    assert_eq!(generator.compile_let("flag", &Expr::Literal(Literal::Bool(true))), Ok(()));
    assert!(generator.compile_variable("s").unwrap().is_pointer_value());
    assert_eq!(
        generator.compile_variable("flag").unwrap().into_int_value().get_type().get_bit_width(),
        1
    );
    assert_eq!(
        generator.compile_expr(&binary(var("s"), BinaryOp::Equal, var("s"))),
        Err("Operands of a binary operator must be integers of the same type".to_string())
    );
    assert_eq!(
        generator.compile_expr(&binary(var("flag"), BinaryOp::Or, num(1))),
        Err("Operands of a binary operator must be integers of the same type".to_string())
    );
    assert_eq!(generator.compile_let("flag", &num(2)), Ok(()));
    assert!(generator.compile_expr(&binary(var("flag"), BinaryOp::Or, num(1))).is_ok());
}

#[test]
fn builder_without_position_gives_its_error() {
    let context = Context::create();
    let mut generator =
        CodeGenerator::new(&context, context.create_module("m"), context.create_builder());
    assert_eq!(generator.compile_let("x", &num(1)), refused("UnsetPosition"));
    assert_eq!(generator.compile_variable("x"), Err("Undefined variable: x".to_string()));
    assert!(generator.compile_expr(&num(1)).is_ok());
    generator.create_test_function("f");
    assert_eq!(generator.compile_let("x", &num(1)), Ok(()));
    assert!(generator.compile_variable("x").is_ok());
}

#[test]
fn generator_keeps_the_module_it_was_given() {
    let context = Context::create();
    let mut generator =
        CodeGenerator::new(&context, context.create_module("mine"), context.create_builder());
    assert_eq!(generator.get_module().get_name().to_str().unwrap(), "mine");
    generator.create_test_function("f");
    assert_eq!(generator.compile_let("x", &num(1)), Ok(()));
    assert_eq!(generator.get_module().get_name().to_str().unwrap(), "mine");
    assert!(generator.get_module().get_function("f").is_some());
}

#[test]
fn generator_takes_a_builder_that_the_caller_positioned() {
    let context = Context::create();
    let module = context.create_module("other");
    let function = module.add_function("g", context.i64_type().fn_type(&[], false), None);
    let block = context.append_basic_block(function, "entry");
    let builder = context.create_builder();
    builder.position_at_end(block);
    let mut generator = CodeGenerator::new(&context, module, builder);
    assert_eq!(generator.compile_let("y", &num(2)), Ok(()));
    assert!(generator.compile_variable("y").unwrap().is_int_value());
    assert!(generator.ir().contains("define i64 @g()"));
}
