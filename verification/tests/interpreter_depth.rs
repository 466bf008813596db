use remylang::ast::{BinaryOp, Expr, Literal, Param, Stmt, Type};
use remylang::vm::{Interpreter, RuntimeError};

fn num(n: i64) -> Expr {
    Expr::Literal(Literal::Number(n))
}

fn var(name: &str) -> Expr {
    Expr::Variable(name.to_string())
}

fn call(name: &str, args: Vec<Expr>) -> Expr {
    Expr::Call { callee: Box::new(var(name)), args }
}

#[test]
fn endless_recursion_is_a_stack_overflow_fault() {
    // func f(Int n) -> Int { return f(n + 1); }  f(0);
    let body = Stmt::Block(vec![Stmt::Return(Some(call(
        "f",
        vec![Expr::Binary {
            left: Box::new(var("n")),
            op: BinaryOp::Add,
            right: Box::new(num(1)),
        }],
    )))]);
    let decl = Stmt::FunctionDecl {
        name: "f".to_string(),
        params: vec![Param { name: "n".to_string(), type_annotation: Type::Int }],
        return_type: Some(Type::Int),
        body: Box::new(body),
    };
    let mut interpreter = Interpreter::new();
    let result = interpreter.execute(vec![decl, Stmt::Expression(call("f", vec![num(0)]))]);
    assert_eq!(result, Err(RuntimeError::StackOverflow { max_depth: 500 }));
    assert_eq!(interpreter.scope_depth(), 1);
}
