use remylang::ast::{BinaryOp, Expr, Literal, Stmt, UnaryOp};
use remylang::lexer::{Lexer, Token};
use remylang::parser::Parser;
use remylang::vm::builtin::{call_builtin, is_builtin};
use remylang::vm::{Environment, Interpreter, ReturnSignal, RuntimeError, Value};

fn parse(code: &str) -> Vec<Stmt> {
    let mut lexer = Lexer::new(code.to_string());
    let mut tokens = Vec::new();
    loop {
        let token = lexer.next_token();
        let done = token == Token::EOF;
        tokens.push(token);
        if done {
            break;
        }
    }
    Parser::new(tokens).parse().unwrap()
}

fn run(code: &str) -> (Interpreter, Result<(), RuntimeError>) {
    let mut interpreter = Interpreter::new();
    let result = interpreter.execute(parse(code));
    (interpreter, result)
}

fn fault(code: &str) -> RuntimeError {
    run(code).1.unwrap_err()
}

/// The value of the expression `expr`, after `setup` has run.
fn value(setup: &str, expr: &str) -> Result<Value, RuntimeError> {
    let (mut interpreter, result) = run(setup);
    assert_eq!(result, Ok(()));
    match parse(&format!("{};", expr)).pop() {
        Some(Stmt::Expression(e)) => interpreter.evaluate(&e),
        _ => panic!("not an expression"),
    }
}

fn eval(expr: &str) -> Result<Value, RuntimeError> {
    value("", expr)
}

fn text(s: &str) -> Value {
    Value::String(s.to_string())
}

fn invalid(operation: &str, left: &str, right: &str) -> RuntimeError {
    RuntimeError::InvalidOperation {
        operation: operation.to_string(),
        left_type: left.to_string(),
        right_type: right.to_string(),
    }
}

fn custom(message: &str) -> RuntimeError {
    RuntimeError::Custom(message.to_string())
}

#[test]
fn power_groups_from_the_right_and_gives_512() {
    assert_eq!(eval("2 ** 3 ** 2"), Ok(Value::Number(512)));
}

#[test]
fn calling_main_gives_15() {
    let code = "func Add(Int a, Int b) -> Int { return a + b; } func Main() -> Int { return Add(5,10); }";
    assert_eq!(value(code, "Main()"), Ok(Value::Number(15)));
}

#[test]
fn index_beyond_the_array_is_a_fault() {
    assert_eq!(
        fault("Array<Int> a = [1,2,3]; a[5];"),
        RuntimeError::IndexOutOfBounds { index: 5, length: 3 }
    );
    assert_eq!(
        fault("Array<Int> a = [1,2,3]; a[3];"),
        RuntimeError::IndexOutOfBounds { index: 3, length: 3 }
    );
    assert_eq!(
        fault("Array<Int> a = [1,2,3]; a[-1];"),
        RuntimeError::IndexOutOfBounds { index: -1, length: 3 }
    );
    assert_eq!(fault("[][0];"), RuntimeError::IndexOutOfBounds { index: 0, length: 0 });
}

#[test]
fn division_by_zero_is_a_fault() {
    assert_eq!(fault("Int x = 1 / 0;"), RuntimeError::DivisionByZero);
    assert_eq!(fault("Int x = 1 % 0;"), RuntimeError::ModuloByZero);
}

#[test]
fn assignment_to_an_undeclared_name_is_a_fault() {
    assert_eq!(
        fault("x = 5;"),
        RuntimeError::AssignmentToUndefined { name: "x".to_string() }
    );
    let (interpreter, _) = run("x = 5;");
    assert_eq!(
        interpreter.variable("x"),
        Err(RuntimeError::UndefinedVariable { name: "x".to_string() })
    );
}

#[test]
fn inner_declaration_shadows_and_ends_with_the_block() {
    let (interpreter, result) = run("Int x = 1; { Int x = 2; }");
    assert_eq!(result, Ok(()));
    assert_eq!(interpreter.variable("x"), Ok(Value::Number(1)));
}

#[test]
fn assignment_in_a_block_changes_the_outer_variable() {
    let (interpreter, result) = run("Int x = 1; { x = 2; { x = x + 1; } }");
    assert_eq!(result, Ok(()));
    assert_eq!(interpreter.variable("x"), Ok(Value::Number(3)));
}

#[test]
fn assignment_changes_the_innermost_binding() {
    let (interpreter, result) = run("Int x = 1; Int y = 0; { Int x = 2; x = 5; y = x; }");
    assert_eq!(result, Ok(()));
    assert_eq!(interpreter.variable("x"), Ok(Value::Number(1)));
    assert_eq!(interpreter.variable("y"), Ok(Value::Number(5)));
}

#[test]
fn fault_in_nested_blocks_leaves_no_scope() {
    let (interpreter, result) = run("Int a = 1; { Int b = 2; { Int c = 1 / 0; } }");
    assert_eq!(result, Err(RuntimeError::DivisionByZero));
    assert_eq!(interpreter.scope_depth(), 1);
    assert_eq!(interpreter.variable("a"), Ok(Value::Number(1)));
    assert_eq!(
        interpreter.variable("b"),
        Err(RuntimeError::UndefinedVariable { name: "b".to_string() })
    );
}

#[test]
fn fault_in_a_call_leaves_no_scope_and_no_function_flag() {
    let code = "func g() { { return 1 / 0; } } func f() { if (True) { g(); } } f();";
    let (mut interpreter, result) = run(code);
    assert_eq!(result, Err(RuntimeError::DivisionByZero));
    assert_eq!(interpreter.scope_depth(), 1);
    assert_eq!(
        interpreter.execute(parse("return 1;")),
        Err(RuntimeError::ReturnOutsideFunction)
    );
    assert_eq!(interpreter.scope_depth(), 1);
}

#[test]
fn early_return_leaves_no_scope() {
    let code = "func f() -> Int { { { return 7; } } } Int x = f();";
    let (interpreter, result) = run(code);
    assert_eq!(result, Ok(()));
    assert_eq!(interpreter.scope_depth(), 1);
    assert_eq!(interpreter.variable("x"), Ok(Value::Number(7)));
}

#[test]
fn same_program_twice_gives_the_same_output_and_outcome() {
    let code = "Int n = 3; println(\"n =\", n); print([n, n * 2]); Int z = n / (n - 3);";
    let (first, first_result) = run(code);
    let (second, second_result) = run(code);
    assert_eq!(first_result, Err(RuntimeError::DivisionByZero));
    assert_eq!(first_result, second_result);
    assert_eq!(first.output(), "n = 3\n[3, 6]");
    assert_eq!(first.output(), second.output());
    let (third, third_result) = run("print(1);");
    let (fourth, fourth_result) = run("print(1);");
    assert_eq!(third_result, Ok(()));
    assert_eq!(fourth_result, Ok(()));
    assert_eq!(third.output(), fourth.output());
}

#[test]
fn arithmetic_on_numbers() {
    assert_eq!(eval("1 + 2 * 3"), Ok(Value::Number(7)));
    assert_eq!(eval("10 - 4 - 3"), Ok(Value::Number(3)));
    assert_eq!(eval("7 / 2"), Ok(Value::Number(3)));
    assert_eq!(eval("-7 / 2"), Ok(Value::Number(-3)));
    assert_eq!(eval("7 / -2"), Ok(Value::Number(-3)));
    assert_eq!(eval("-7 / -2"), Ok(Value::Number(3)));
    assert_eq!(eval("7 % 3"), Ok(Value::Number(1)));
    assert_eq!(eval("-7 % 3"), Ok(Value::Number(-1)));
    assert_eq!(eval("7 % -3"), Ok(Value::Number(1)));
    assert_eq!(eval("-7 % -3"), Ok(Value::Number(-1)));
    assert_eq!(eval("2 ** 10"), Ok(Value::Number(1024)));
    assert_eq!(eval("(0 - 2) ** 3"), Ok(Value::Number(-8)));
    assert_eq!(eval("5 ** 0"), Ok(Value::Number(1)));
    assert_eq!(eval("0 ** 0"), Ok(Value::Number(1)));
    assert_eq!(eval("0 ** 5"), Ok(Value::Number(0)));
    assert_eq!(eval("(0 - 1) ** 9223372036854775807"), Ok(Value::Number(-1)));
    assert_eq!(eval("1 ** 9223372036854775807"), Ok(Value::Number(1)));
    assert_eq!(eval("2 ** 62"), Ok(Value::Number(4611686018427387904)));
    assert_eq!(eval("(0 - 2) ** 63"), Ok(Value::Number(i64::MIN)));
    assert_eq!(eval("-5"), Ok(Value::Number(-5)));
    assert_eq!(eval("--5"), Ok(Value::Number(5)));
}

#[test]
fn result_beyond_the_number_range_is_a_fault() {
    assert_eq!(eval("9223372036854775807 + 1"), Err(custom("Integer overflow in addition")));
    assert_eq!(eval("0 - 9223372036854775807 - 2"), Err(custom("Integer overflow in subtraction")));
    assert_eq!(eval("4611686018427387904 * 2"), Err(custom("Integer overflow in multiplication")));
    assert_eq!(eval("2 ** 63"), Err(custom("Integer overflow in exponentiation")));
    assert_eq!(eval("3 ** 9223372036854775807"), Err(custom("Integer overflow in exponentiation")));
    assert_eq!(
        eval("(0 - 9223372036854775807 - 1) / (0 - 1)"),
        Err(custom("Integer overflow in division"))
    );
    assert_eq!(eval("-(0 - 9223372036854775807 - 1)"), Err(custom("Integer overflow in negation")));
    assert_eq!(eval("(0 - 9223372036854775807 - 1) % (0 - 1)"), Ok(Value::Number(0)));
    assert_eq!(eval("0 - 9223372036854775807 - 1"), Ok(Value::Number(i64::MIN)));
}

#[test]
fn negative_exponent_is_a_fault() {
    assert_eq!(
        eval("2 ** -1"),
        Err(custom("Negative exponents not supported for integers"))
    );
}

#[test]
fn plus_joins_strings() {
    assert_eq!(eval("\"ab\" + \"cd\""), Ok(text("abcd")));
    assert_eq!(eval("\"\" + \"\""), Ok(text("")));
}

#[test]
fn operators_refuse_other_pairings() {
    assert_eq!(eval("1 + \"a\""), Err(invalid("addition", "Int", "String")));
    assert_eq!(eval("\"a\" + 1"), Err(invalid("addition", "String", "Int")));
    assert_eq!(eval("'a' + 'b'"), Err(invalid("addition", "Char", "Char")));
    assert_eq!(eval("\"a\" - \"b\""), Err(invalid("subtraction", "String", "String")));
    assert_eq!(eval("True * 2"), Err(invalid("multiplication", "Bool", "Int")));
    assert_eq!(eval("[1] / 2"), Err(invalid("division", "Array", "Int")));
    assert_eq!(eval("1 % 'c'"), Err(invalid("modulo", "Int", "Char")));
    assert_eq!(eval("\"a\" / 0"), Err(invalid("division", "String", "Int")));
    assert_eq!(eval("2 ** True"), Err(invalid("exponentiation", "Int", "Bool")));
    assert_eq!(eval("1 < \"a\""), Err(invalid("comparison", "Int", "String")));
    assert_eq!(eval("\"a\" > \"b\""), Err(invalid("comparison", "String", "String")));
    assert_eq!(eval("True <= 1"), Err(invalid("comparison", "Bool", "Int")));
    assert_eq!(eval("'a' >= 'b'"), Err(invalid("comparison", "Char", "Char")));
    assert_eq!(
        value("func f() {}", "f + 1"),
        Err(invalid("addition", "Function", "Int"))
    );
    assert_eq!(
        value("func f() {}", "f() + 1"),
        Err(invalid("addition", "Void", "Int"))
    );
}

#[test]
fn comparisons_of_numbers() {
    assert_eq!(eval("1 < 2"), Ok(Value::Bool(true)));
    assert_eq!(eval("2 < 2"), Ok(Value::Bool(false)));
    assert_eq!(eval("2 <= 2"), Ok(Value::Bool(true)));
    assert_eq!(eval("3 > 2"), Ok(Value::Bool(true)));
    assert_eq!(eval("2 >= 3"), Ok(Value::Bool(false)));
}

#[test]
fn equality_is_structural_over_any_pair() {
    assert_eq!(eval("1 == 1"), Ok(Value::Bool(true)));
    assert_eq!(eval("1 != 1"), Ok(Value::Bool(false)));
    assert_eq!(eval("1 == \"1\""), Ok(Value::Bool(false)));
    assert_eq!(eval("1 != \"1\""), Ok(Value::Bool(true)));
    assert_eq!(eval("\"ab\" == \"a\" + \"b\""), Ok(Value::Bool(true)));
    assert_eq!(eval("[1, [2, 3]] == [1, [2, 3]]"), Ok(Value::Bool(true)));
    assert_eq!(eval("[1, [2, 3]] == [1, [2, 4]]"), Ok(Value::Bool(false)));
    assert_eq!(eval("[1] == [1, 1]"), Ok(Value::Bool(false)));
    assert_eq!(eval("'a' == 'a'"), Ok(Value::Bool(true)));
    assert_eq!(eval("True == 1"), Ok(Value::Bool(false)));
    assert_eq!(value("func f() {} func g() {}", "f == f"), Ok(Value::Bool(true)));
    assert_eq!(value("func f() {} func g() {}", "f == g"), Ok(Value::Bool(false)));
    assert_eq!(value("func f() {} func g() {}", "f() == g()"), Ok(Value::Bool(true)));
}

#[test]
fn logical_operators_go_by_truthiness() {
    assert_eq!(eval("True && False"), Ok(Value::Bool(false)));
    assert_eq!(eval("True && 1"), Ok(Value::Bool(true)));
    assert_eq!(eval("0 && True"), Ok(Value::Bool(false)));
    assert_eq!(eval("\"\" || 0"), Ok(Value::Bool(false)));
    assert_eq!(eval("\"\" || [0]"), Ok(Value::Bool(true)));
    assert_eq!(eval("[] || 'c'"), Ok(Value::Bool(true)));
    assert_eq!(eval("!0"), Ok(Value::Bool(true)));
    assert_eq!(eval("!\"a\""), Ok(Value::Bool(false)));
    assert_eq!(eval("!!5"), Ok(Value::Bool(true)));
    assert_eq!(value("func f() {}", "!f()"), Ok(Value::Bool(true)));
    assert_eq!(value("func f() {}", "!f"), Ok(Value::Bool(false)));
}

#[test]
fn both_operands_are_evaluated() {
    assert_eq!(eval("False && 1 / 0"), Err(RuntimeError::DivisionByZero));
    assert_eq!(eval("True || 1 / 0"), Err(RuntimeError::DivisionByZero));
}

#[test]
fn unary_minus_needs_a_number() {
    assert_eq!(
        eval("-\"a\""),
        Err(RuntimeError::TypeMismatch {
            operation: "unary minus".to_string(),
            expected: "Int".to_string(),
            found: "String".to_string(),
        })
    );
}

#[test]
fn indexing() {
    assert_eq!(eval("[10, 20, 30][1]"), Ok(Value::Number(20)));
    assert_eq!(eval("[[1, 2], [3]][1][0]"), Ok(Value::Number(3)));
    assert_eq!(
        eval("5[0]"),
        Err(RuntimeError::NotIndexable { value_type: "Int".to_string() })
    );
    assert_eq!(
        eval("\"abc\"[0]"),
        Err(RuntimeError::NotIndexable { value_type: "String".to_string() })
    );
    assert_eq!(
        eval("[1][\"x\"]"),
        Err(RuntimeError::TypeMismatch {
            operation: "array indexing".to_string(),
            expected: "Int".to_string(),
            found: "String".to_string(),
        })
    );
}

#[test]
fn arrays_are_copied_when_bound() {
    let (interpreter, result) = run("Array<Int> a = [1, 2]; Array<Int> b = a; a = [3];");
    assert_eq!(result, Ok(()));
    assert_eq!(interpreter.variable("a"), Ok(Value::Array(vec![Value::Number(3)])));
    assert_eq!(
        interpreter.variable("b"),
        Ok(Value::Array(vec![Value::Number(1), Value::Number(2)]))
    );
}

#[test]
fn undefined_variable_is_a_fault() {
    assert_eq!(eval("x"), Err(RuntimeError::UndefinedVariable { name: "x".to_string() }));
    assert_eq!(eval("f(1)"), Err(RuntimeError::UndefinedVariable { name: "f".to_string() }));
}

#[test]
fn function_is_callable_only_after_its_declaration() {
    assert_eq!(
        fault("f(); func f() {}"),
        RuntimeError::UndefinedVariable { name: "f".to_string() }
    );
    assert_eq!(run("func f() {} f();").1, Ok(()));
}

#[test]
fn call_checks_the_number_of_arguments() {
    assert_eq!(
        fault("func Add(Int a, Int b) -> Int { return a + b; } Add(1);"),
        RuntimeError::ArgumentCountMismatch {
            expected: 2,
            found: 1,
            function_name: "Add".to_string()
        }
    );
}

#[test]
fn only_functions_are_callable() {
    assert_eq!(
        fault("Int x = 1; x();"),
        RuntimeError::NotCallable { value_type: "Int".to_string() }
    );
    assert_eq!(fault("1(2);"), custom("Can only call functions by name"));
    assert_eq!(fault("func f() {} f()();"), custom("Can only call functions by name"));
}

#[test]
fn arguments_are_evaluated_before_the_callee_is_resolved() {
    assert_eq!(fault("nothing(1 / 0);"), RuntimeError::DivisionByZero);
    assert_eq!(fault("1(1 / 0);"), RuntimeError::DivisionByZero);
}

#[test]
fn arguments_are_evaluated_from_left_to_right() {
    let code = "func show(Int n) -> Int { print(n); return n; } func three(Int a, Int b, Int c) {} three(show(1), show(2), show(3));";
    let (interpreter, result) = run(code);
    assert_eq!(result, Ok(()));
    assert_eq!(interpreter.output(), "123");
}

#[test]
fn function_values_are_bound_like_any_other() {
    let (interpreter, result) = run("func f() -> Int { return 1; } func f() -> Int { return 2; } Int x = f();");
    assert_eq!(result, Ok(()));
    assert_eq!(interpreter.variable("x"), Ok(Value::Number(2)));
    assert_eq!(
        value("func f() -> Int { return 1; } f = 5;", "f"),
        Ok(Value::Number(5))
    );
}

#[test]
fn function_declaration_gives_a_function_value() {
    let (interpreter, result) = run("func f(Int a, Int b) { return; }");
    assert_eq!(result, Ok(()));
    assert_eq!(
        interpreter.variable("f"),
        Ok(Value::Function {
            name: "f".to_string(),
            params: vec!["a".to_string(), "b".to_string()],
            body: Box::new(Stmt::Block(vec![Stmt::Return(None)])),
        })
    );
}

#[test]
fn value_of_a_call() {
    assert_eq!(value("func f() { return; }", "f()"), Ok(Value::Void));
    assert_eq!(value("func f() {}", "f()"), Ok(Value::Void));
    assert_eq!(value("func f() { 5; }", "f()"), Ok(Value::Number(5)));
    assert_eq!(value("func f() { 5; Int x = 1; }", "f()"), Ok(Value::Void));
    assert_eq!(value("func f() { return 1; return 2; }", "f()"), Ok(Value::Number(1)));
}

#[test]
fn recursion() {
    let code = "func fact(Int n) -> Int { if (n <= 1) { return 1; } else { return n * fact(n - 1); } }";
    assert_eq!(value(code, "fact(10)"), Ok(Value::Number(3628800)));
    let fib = "func Fibonacci(Int n) -> Int { if (n <= 1) { return n; } else { return Fibonacci(n - 1) + Fibonacci(n - 2); } }";
    assert_eq!(value(fib, "Fibonacci(10)"), Ok(Value::Number(55)));
}

#[test]
fn called_function_sees_the_scopes_of_its_caller() {
    let code = "Int g = 0; func inc() { g = g + 1; } func peek() -> Int { return y; } func outer() -> Int { Int y = 5; return peek(); } inc(); inc();";
    assert_eq!(value(code, "g"), Ok(Value::Number(2)));
    assert_eq!(value(code, "outer()"), Ok(Value::Number(5)));
    assert_eq!(
        value(code, "peek()"),
        Err(RuntimeError::UndefinedVariable { name: "y".to_string() })
    );
}

#[test]
fn parameters_shadow_outer_variables() {
    let code = "Int a = 1; func f(Int a) -> Int { a = a + 1; return a; } Int r = f(10);";
    let (interpreter, result) = run(code);
    assert_eq!(result, Ok(()));
    assert_eq!(interpreter.variable("a"), Ok(Value::Number(1)));
    assert_eq!(interpreter.variable("r"), Ok(Value::Number(11)));
}

#[test]
fn return_outside_a_function_is_a_fault() {
    assert_eq!(fault("return 1;"), RuntimeError::ReturnOutsideFunction);
    assert_eq!(fault("return;"), RuntimeError::ReturnOutsideFunction);
    assert_eq!(fault("{ if (True) { return 1 / 0; } }"), RuntimeError::ReturnOutsideFunction);
    assert_eq!(fault("func f() {} f(); return;"), RuntimeError::ReturnOutsideFunction);
}

#[test]
fn conditional_runs_one_branch() {
    let code = "Int r = 0; if (0) { r = 1; } else if (\"x\") { r = 2; } else { r = 3; } if ([]) { r = r + 10; }";
    let (interpreter, result) = run(code);
    assert_eq!(result, Ok(()));
    assert_eq!(interpreter.variable("r"), Ok(Value::Number(2)));
    assert_eq!(fault("if (1 / 0) {}"), RuntimeError::DivisionByZero);
}

#[test]
fn first_fault_ends_the_run() {
    let (interpreter, result) = run("Int a = 1; Int b = 1 / 0; Int c = 3;");
    assert_eq!(result, Err(RuntimeError::DivisionByZero));
    assert_eq!(interpreter.variable("a"), Ok(Value::Number(1)));
    assert_eq!(
        interpreter.variable("c"),
        Err(RuntimeError::UndefinedVariable { name: "c".to_string() })
    );
}

#[test]
fn print_joins_with_spaces_and_adds_no_line_feed() {
    let (interpreter, result) = run("print(\"a\", 1, True, False, [1, [2, \"s\"]], 'c'); print(); print(-3);");
    assert_eq!(result, Ok(()));
    assert_eq!(interpreter.output(), "a 1 True False [1, [2, s]] c-3");
}

#[test]
fn println_adds_a_line_feed() {
    let (interpreter, result) = run("println(\"x\", 2); println();");
    assert_eq!(result, Ok(()));
    assert_eq!(interpreter.output(), "x 2\n\n");
}

#[test]
fn print_replaces_escapes_in_strings() {
    let (interpreter, result) = run(r#"print("a\nb\tc\rd\\e"); print(["x\ny"]); print("\\n");"#);
    assert_eq!(result, Ok(()));
    assert_eq!(interpreter.output(), "a\nb\tc\rd\\e[x\\ny]\\\n");
}

#[test]
fn print_shows_functions_and_void() {
    let (interpreter, result) = run("func f() {} print(f, f());");
    assert_eq!(result, Ok(()));
    assert_eq!(interpreter.output(), "<function f> void");
}

#[test]
fn built_in_names_come_before_bindings() {
    let (interpreter, result) = run("Int print = 1; print(2);");
    assert_eq!(result, Ok(()));
    assert_eq!(interpreter.output(), "2");
}

#[test]
fn output_before_a_fault_is_kept() {
    let (interpreter, result) = run("print(\"a\"); Int x = 1 / 0; print(\"b\");");
    assert_eq!(result, Err(RuntimeError::DivisionByZero));
    assert_eq!(interpreter.output(), "a");
}

#[test]
fn nesting_deeper_than_the_limit_is_a_fault() {
    let mut shallow = Interpreter::with_max_depth(3);
    assert_eq!(shallow.execute(parse("1 + 2;")), Ok(()));
    assert_eq!(
        shallow.execute(parse("1 + (2 + 3);")),
        Err(RuntimeError::StackOverflow { max_depth: 3 })
    );
    let mut none = Interpreter::with_max_depth(0);
    assert_eq!(none.execute(parse("1;")), Err(RuntimeError::StackOverflow { max_depth: 0 }));
    assert_eq!(none.execute(vec![]), Ok(()));
}

#[test]
fn built_in_calls() {
    assert!(is_builtin("print"));
    assert!(is_builtin("println"));
    assert!(!is_builtin("printl"));
    assert!(!is_builtin(""));
    let mut out = String::from(">");
    assert_eq!(call_builtin("print", vec![Value::Number(1), text("a\\tb")], &mut out), Ok(Value::Void));
    assert_eq!(out, ">1 a\tb");
    assert_eq!(call_builtin("println", vec![], &mut out), Ok(Value::Void));
    assert_eq!(out, ">1 a\tb\n");
    assert_eq!(
        call_builtin("read", vec![Value::Number(1)], &mut out),
        Err(RuntimeError::UndefinedFunction { name: "read".to_string() })
    );
    assert_eq!(out, ">1 a\tb\n");
}

#[test]
fn operators_on_values() {
    let interpreter = Interpreter::new();
    assert_eq!(
        interpreter.eval_binary_op(Value::Number(2), BinaryOp::Add, Value::Number(3)),
        Ok(Value::Number(5))
    );
    assert_eq!(
        interpreter.eval_binary_op(Value::Void, BinaryOp::Equal, Value::Void),
        Ok(Value::Bool(true))
    );
    assert_eq!(
        interpreter.eval_unary_op(UnaryOp::Not, Value::Void),
        Ok(Value::Bool(true))
    );
    assert_eq!(
        interpreter.eval_unary_op(UnaryOp::Minus, Value::Number(i64::MAX)),
        Ok(Value::Number(-i64::MAX))
    );
    assert_eq!(interpreter.eval_literal(&Literal::Char('x')), Value::Char('x'));
    assert_eq!(interpreter.eval_literal(&Literal::String("s".to_string())), text("s"));
}

#[test]
fn values_in_conditions_and_messages() {
    let function = Value::Function {
        name: "f".to_string(),
        params: vec![],
        body: Box::new(Stmt::Block(vec![])),
    };
    assert!(Value::Bool(true).is_truthy());
    assert!(!Value::Bool(false).is_truthy());
    assert!(Value::Number(-1).is_truthy());
    assert!(!Value::Number(0).is_truthy());
    assert!(text("a").is_truthy());
    assert!(!text("").is_truthy());
    assert!(Value::Array(vec![Value::Void]).is_truthy());
    assert!(!Value::Array(vec![]).is_truthy());
    assert!(!Value::Void.is_truthy());
    assert!(Value::Char('\0').is_truthy());
    assert!(function.is_truthy());
    assert!(function.as_bool());
    assert!(!Value::Number(0).as_bool());
    assert_eq!(Value::Number(7).as_number(), Some(7));
    assert_eq!(text("7").as_number(), None);
    assert_eq!(Value::Number(1).kind_name(), "Int");
    assert_eq!(text("").kind_name(), "String");
    assert_eq!(Value::Char('c').kind_name(), "Char");
    assert_eq!(Value::Bool(true).kind_name(), "Bool");
    assert_eq!(Value::Array(vec![]).kind_name(), "Array");
    assert_eq!(function.kind_name(), "Function");
    assert_eq!(Value::Void.kind_name(), "Void");
}

#[test]
fn values_as_text() {
    assert_eq!(Value::Number(0).to_string(), "0");
    assert_eq!(Value::Number(-120).to_string(), "-120");
    assert_eq!(Value::Number(i64::MIN).to_string(), "-9223372036854775808");
    assert_eq!(Value::Number(i64::MAX).to_string(), "9223372036854775807");
    assert_eq!(text("a\\nb").to_string(), "a\\nb");
    assert_eq!(Value::Char('c').to_string(), "c");
    assert_eq!(Value::Bool(true).to_string(), "True");
    assert_eq!(Value::Bool(false).to_string(), "False");
    assert_eq!(Value::Array(vec![]).to_string(), "[]");
    assert_eq!(
        Value::Array(vec![Value::Number(1), Value::Array(vec![text("x"), Value::Void])])
            .to_string(),
        "[1, [x, void]]"
    );
    assert_eq!(Value::Void.to_string(), "void");
}

#[test]
fn value_copies_are_equal() {
    let v = Value::Array(vec![
        Value::Number(1),
        text("s"),
        Value::Function {
            name: "f".to_string(),
            params: vec!["a".to_string()],
            body: Box::new(Stmt::Expression(Expr::Variable("a".to_string()))),
        },
    ]);
    assert_eq!(v.clone(), v);
    assert!(v.equals(&v.clone()));
    assert!(!v.equals(&Value::Array(vec![])));
    assert_eq!(ReturnSignal(Value::Number(1)), ReturnSignal(Value::Number(1)));
}

#[test]
fn fault_lines() {
    let name = || "x".to_string();
    assert_eq!(
        RuntimeError::UndefinedVariable { name: name() }.to_string(),
        "Runtime error: Undefined variable 'x'"
    );
    assert_eq!(
        RuntimeError::UndefinedFunction { name: name() }.to_string(),
        "Runtime error: Undefined function 'x'"
    );
    assert_eq!(
        RuntimeError::TypeMismatch {
            operation: "unary minus".to_string(),
            expected: "Int".to_string(),
            found: "Bool".to_string()
        }
        .to_string(),
        "Runtime error: Type error in unary minus: expected Int, found Bool"
    );
    assert_eq!(RuntimeError::DivisionByZero.to_string(), "Runtime error: Division by zero");
    assert_eq!(RuntimeError::ModuloByZero.to_string(), "Runtime error: Modulo by zero");
    assert_eq!(
        RuntimeError::IndexOutOfBounds { index: -5, length: 3 }.to_string(),
        "Runtime error: Index -5 out of bounds for array of length 3"
    );
    assert_eq!(
        RuntimeError::NotIndexable { value_type: "Int".to_string() }.to_string(),
        "Runtime error: Cannot index into value of type Int"
    );
    assert_eq!(
        RuntimeError::NotCallable { value_type: "Int".to_string() }.to_string(),
        "Runtime error: Cannot call value of type Int"
    );
    assert_eq!(
        RuntimeError::ArgumentCountMismatch { expected: 2, found: 10, function_name: name() }
            .to_string(),
        "Runtime error: Function 'x' expects 2 arguments, but 10 were provided"
    );
    assert_eq!(
        RuntimeError::StackOverflow { max_depth: 500 }.to_string(),
        "Runtime error: Stack overflow (maximum call depth of 500 exceeded)"
    );
    assert_eq!(
        RuntimeError::ReturnOutsideFunction.to_string(),
        "Runtime error: Return statement outside of function"
    );
    assert_eq!(
        RuntimeError::InvalidOperation {
            operation: "addition".to_string(),
            left_type: "Int".to_string(),
            right_type: "String".to_string()
        }
        .to_string(),
        "Runtime error: Invalid operation 'addition' between Int and String"
    );
    assert_eq!(
        RuntimeError::AssignmentToUndefined { name: name() }.to_string(),
        "Runtime error: Assignment to undefined variable 'x'. Use 'Type x = ...' to declare it first"
    );
    assert_eq!(RuntimeError::Custom("boom".to_string()).to_string(), "Runtime error: boom");
    assert_eq!(RuntimeError::DivisionByZero.clone(), RuntimeError::DivisionByZero);
}

#[test]
fn environment_scopes() {
    let mut env = Environment::new();
    assert_eq!(env.depth(), 1);
    assert!(!env.contains("x"));
    assert_eq!(env.get("x"), Err(RuntimeError::UndefinedVariable { name: "x".to_string() }));
    assert_eq!(
        env.set("x", Value::Number(1)),
        Err(RuntimeError::AssignmentToUndefined { name: "x".to_string() })
    );
    env.define("x".to_string(), Value::Number(1));
    assert!(env.contains("x"));
    env.push_scope();
    env.push_scope();
    assert_eq!(env.depth(), 3);
    assert_eq!(env.get("x"), Ok(Value::Number(1)));
    env.define("x".to_string(), Value::Number(2));
    env.define("y".to_string(), Value::Number(3));
    assert_eq!(env.get("x"), Ok(Value::Number(2)));
    assert_eq!(env.set("x", Value::Number(4)), Ok(()));
    assert_eq!(env.get("x"), Ok(Value::Number(4)));
    env.define("x".to_string(), Value::Number(5));
    assert_eq!(env.get("x"), Ok(Value::Number(5)));
    env.pop_scope();
    assert_eq!(env.get("x"), Ok(Value::Number(1)));
    assert!(!env.contains("y"));
    assert_eq!(env.set("x", Value::Number(6)), Ok(()));
    env.pop_scope();
    assert_eq!(env.get("x"), Ok(Value::Number(6)));
    env.pop_scope();
    env.pop_scope();
    assert_eq!(env.depth(), 1);
    assert_eq!(env.get("x"), Ok(Value::Number(6)));
}
