use vstd::prelude::*;
use vstd::arithmetic::power::pow;
use crate::ast::{BinaryOp, ExprView, LiteralView, ParamView, StmtView, UnaryOp};
use crate::vm::arith::{fits_i64, truncated_div, truncated_rem};
use crate::vm::builtin::{builtin_output, is_builtin_name};
use crate::vm::environment::{assign, declare, leave, lemma_assign_keeps_depth, lookup, Scope};
use crate::vm::error::RuntimeErrorView;
use crate::vm::value::ValueView;

verus! {

/// The state of a run: the stack of scopes, whether a function body is being
/// executed, and the console text written so far.
pub struct Machine {
    pub scopes: Seq<Scope>,
    pub in_function: bool,
    pub output: Seq<char>,
}

impl Machine {
    /// The state before anything has run: one global scope, empty.
    pub open spec fn fresh() -> Machine {
        Machine {
            scopes: seq![Map::<Seq<char>, ValueView>::empty()],
            in_function: false,
            output: Seq::empty(),
        }
    }

    pub open spec fn with_scopes(self, scopes: Seq<Scope>) -> Machine {
        Machine { scopes, in_function: self.in_function, output: self.output }
    }

    pub open spec fn with_output(self, output: Seq<char>) -> Machine {
        Machine { scopes: self.scopes, in_function: self.in_function, output }
    }
}

/// How the execution of a statement ends: with a value, with an early return
/// that unwinds to the enclosing call, or with a fault.
pub enum Flow {
    Normal(ValueView),
    Return(ValueView),
    Fault(RuntimeErrorView),
}

/// The outcome of a statement and the state it leaves.
pub struct Step {
    pub flow: Flow,
    pub machine: Machine,
}

/// The outcome of an expression and the state it leaves.
pub struct Evaluation {
    pub result: Result<ValueView, RuntimeErrorView>,
    pub machine: Machine,
}

/// The outcome of a list of expressions and the state it leaves.
pub struct Evaluations {
    pub result: Result<Seq<ValueView>, RuntimeErrorView>,
    pub machine: Machine,
}

/// The outcome of a program and the state it leaves.
pub struct Run {
    pub result: Result<(), RuntimeErrorView>,
    pub machine: Machine,
}

pub open spec fn invalid_operation(
    operation: Seq<char>,
    left: ValueView,
    right: ValueView,
) -> RuntimeErrorView {
    RuntimeErrorView::InvalidOperation {
        operation,
        left_type: left.kind_name(),
        right_type: right.kind_name(),
    }
}

/// The fault of an operation whose result cannot be held in 64 signed bits.
pub open spec fn overflow(operation: Seq<char>) -> RuntimeErrorView {
    RuntimeErrorView::Custom("Integer overflow in "@ + operation)
}

/// The number `x` as a value, or the overflow fault where it cannot be held.
pub open spec fn number(x: int, operation: Seq<char>) -> Result<ValueView, RuntimeErrorView> {
    if fits_i64(x) {
        Ok(ValueView::Number(x))
    } else {
        Err(overflow(operation))
    }
}

/// What an arithmetic operator gives on two values: a number on two numbers
/// (for `+` also the concatenation of two strings), a fault on anything else.
pub open spec fn arithmetic_result(left: ValueView, op: BinaryOp, right: ValueView) -> Result<
    ValueView,
    RuntimeErrorView,
> {
    match (op, left, right) {
        (BinaryOp::Add, ValueView::Number(l), ValueView::Number(r)) => number(l + r, "addition"@),
        (BinaryOp::Add, ValueView::String(l), ValueView::String(r)) => Ok(ValueView::String(l + r)),
        (BinaryOp::Add, _, _) => Err(invalid_operation("addition"@, left, right)),
        (BinaryOp::Sub, ValueView::Number(l), ValueView::Number(r)) => number(
            l - r,
            "subtraction"@,
        ),
        (BinaryOp::Sub, _, _) => Err(invalid_operation("subtraction"@, left, right)),
        (BinaryOp::Mul, ValueView::Number(l), ValueView::Number(r)) => number(
            l * r,
            "multiplication"@,
        ),
        (BinaryOp::Mul, _, _) => Err(invalid_operation("multiplication"@, left, right)),
        (BinaryOp::Div, ValueView::Number(l), ValueView::Number(r)) => if r == 0 {
            Err(RuntimeErrorView::DivisionByZero)
        } else {
            number(truncated_div(l, r), "division"@)
        },
        (BinaryOp::Div, _, _) => Err(invalid_operation("division"@, left, right)),
        (BinaryOp::Mod, ValueView::Number(l), ValueView::Number(r)) => if r == 0 {
            Err(RuntimeErrorView::ModuloByZero)
        } else {
            Ok(ValueView::Number(truncated_rem(l, r)))
        },
        (BinaryOp::Mod, _, _) => Err(invalid_operation("modulo"@, left, right)),
        (BinaryOp::Pow, ValueView::Number(l), ValueView::Number(r)) => if r < 0 {
            Err(RuntimeErrorView::Custom("Negative exponents not supported for integers"@))
        } else {
            number(pow(l, r as nat), "exponentiation"@)
        },
        (_, _, _) => Err(invalid_operation("exponentiation"@, left, right)),
    }
}

/// What an ordering comparison gives: a boolean on two numbers, a fault on
/// anything else.
pub open spec fn comparison_result(left: ValueView, op: BinaryOp, right: ValueView) -> Result<
    ValueView,
    RuntimeErrorView,
> {
    match (left, right) {
        (ValueView::Number(l), ValueView::Number(r)) => Ok(
            ValueView::Bool(
                match op {
                    BinaryOp::Less => l < r,
                    BinaryOp::Greater => l > r,
                    BinaryOp::LessEqual => l <= r,
                    _ => l >= r,
                },
            ),
        ),
        _ => Err(invalid_operation("comparison"@, left, right)),
    }
}

/// What a binary operator gives on two values.
pub open spec fn binary_result(left: ValueView, op: BinaryOp, right: ValueView) -> Result<
    ValueView,
    RuntimeErrorView,
> {
    match op {
        BinaryOp::Equal => Ok(ValueView::Bool(left == right)),
        BinaryOp::NotEqual => Ok(ValueView::Bool(left != right)),
        BinaryOp::And => Ok(ValueView::Bool(left.is_truthy() && right.is_truthy())),
        BinaryOp::Or => Ok(ValueView::Bool(left.is_truthy() || right.is_truthy())),
        BinaryOp::Less | BinaryOp::Greater | BinaryOp::LessEqual | BinaryOp::GreaterEqual => {
            comparison_result(left, op, right)
        },
        _ => arithmetic_result(left, op, right),
    }
}

/// What a unary operator gives on a value.
pub open spec fn unary_result(op: UnaryOp, operand: ValueView) -> Result<
    ValueView,
    RuntimeErrorView,
> {
    match op {
        UnaryOp::Minus => match operand {
            ValueView::Number(n) => number(-n, "negation"@),
            _ => Err(
                RuntimeErrorView::TypeMismatch {
                    operation: "unary minus"@,
                    expected: "Int"@,
                    found: operand.kind_name(),
                },
            ),
        },
        UnaryOp::Not => Ok(ValueView::Bool(!operand.is_truthy())),
    }
}

/// The value of a literal.
pub open spec fn literal_value(literal: LiteralView) -> ValueView {
    match literal {
        LiteralView::Number(n) => ValueView::Number(n),
        LiteralView::String(s) => ValueView::String(s),
        LiteralView::Char(c) => ValueView::Char(c),
        LiteralView::Bool(b) => ValueView::Bool(b),
    }
}

/// The element of `array` at `index`: the array must be one, the index a
/// number from zero to below the length.
pub open spec fn index_result(array: ValueView, index: ValueView) -> Result<
    ValueView,
    RuntimeErrorView,
> {
    match array {
        ValueView::Array(items) => match index {
            ValueView::Number(i) => if i < 0 || i >= items.len() {
                Err(RuntimeErrorView::IndexOutOfBounds { index: i, length: items.len() })
            } else {
                Ok(items[i])
            },
            _ => Err(
                RuntimeErrorView::TypeMismatch {
                    operation: "array indexing"@,
                    expected: "Int"@,
                    found: index.kind_name(),
                },
            ),
        },
        _ => Err(RuntimeErrorView::NotIndexable { value_type: array.kind_name() }),
    }
}

/// The names of a list of parameters.
pub open spec fn param_names(params: Seq<ParamView>) -> Seq<Seq<char>> {
    Seq::new(params.len(), |i: int| params[i].name)
}

/// The scopes after the parameters from `i` on are bound, each to the
/// argument at its position, in the innermost scope.
pub open spec fn bind(scopes: Seq<Scope>, params: Seq<Seq<char>>, args: Seq<ValueView>, i: int) -> Seq<
    Scope,
>
    decreases params.len() - i,
{
    if i < 0 || i >= params.len() || i >= args.len() {
        scopes
    } else {
        bind(declare(scopes, params[i], args[i]), params, args, i + 1)
    }
}

/// The flow of a statement that is one expression.
pub open spec fn flow_of(result: Result<ValueView, RuntimeErrorView>) -> Flow {
    match result {
        Ok(v) => Flow::Normal(v),
        Err(e) => Flow::Fault(e),
    }
}

/// The fault of nesting deeper than `limit`.
pub open spec fn too_deep(limit: nat) -> RuntimeErrorView {
    RuntimeErrorView::StackOverflow { max_depth: limit }
}

/// The value of an expression.
///
/// `fuel` is the depth of nesting that is left: every expression inside this
/// one, every argument and every function body is evaluated with one less, and
/// with none left the outcome is the stack overflow fault. `limit` is the
/// depth that the run started with.
pub open spec fn eval_expr(e: ExprView, m: Machine, fuel: nat, limit: nat) -> Evaluation
    decreases fuel, 0nat,
{
    if fuel == 0 {
        Evaluation { result: Err(too_deep(limit)), machine: m }
    } else {
        let inner = (fuel - 1) as nat;
        match e {
            ExprView::Literal(literal) => Evaluation {
                result: Ok(literal_value(literal)),
                machine: m,
            },
            ExprView::Variable(name) => Evaluation {
                result: match lookup(m.scopes, name) {
                    Some(v) => Ok(v),
                    None => Err(RuntimeErrorView::UndefinedVariable { name }),
                },
                machine: m,
            },
            ExprView::Binary { left, op, right } => {
                let l = eval_expr(*left, m, inner, limit);
                match l.result {
                    Err(_) => l,
                    Ok(lv) => {
                        let r = eval_expr(*right, l.machine, inner, limit);
                        match r.result {
                            Err(_) => r,
                            Ok(rv) => Evaluation {
                                result: binary_result(lv, op, rv),
                                machine: r.machine,
                            },
                        }
                    },
                }
            },
            ExprView::Unary { op, right } => {
                let r = eval_expr(*right, m, inner, limit);
                match r.result {
                    Err(_) => r,
                    Ok(v) => Evaluation { result: unary_result(op, v), machine: r.machine },
                }
            },
            ExprView::Call { callee, args } => eval_call(*callee, args, m, inner, limit),
            ExprView::ArrayAccess { array, index } => {
                let a = eval_expr(*array, m, inner, limit);
                match a.result {
                    Err(_) => a,
                    Ok(av) => {
                        let i = eval_expr(*index, a.machine, inner, limit);
                        match i.result {
                            Err(_) => i,
                            Ok(iv) => Evaluation {
                                result: index_result(av, iv),
                                machine: i.machine,
                            },
                        }
                    },
                }
            },
            ExprView::ArrayLiteral(elements) => {
                let a = eval_list(elements, 0, Seq::empty(), m, inner, limit);
                Evaluation {
                    result: match a.result {
                        Err(e) => Err(e),
                        Ok(values) => Ok(ValueView::Array(values)),
                    },
                    machine: a.machine,
                }
            },
        }
    }
}

/// The values of the expressions from `i` on, from left to right, after
/// `done`, the values of those before; the first fault ends the list.
pub open spec fn eval_list(
    es: Seq<ExprView>,
    i: int,
    done: Seq<ValueView>,
    m: Machine,
    fuel: nat,
    limit: nat,
) -> Evaluations
    decreases fuel, es.len() - i + 1,
{
    if i < 0 || i >= es.len() {
        Evaluations { result: Ok(done), machine: m }
    } else {
        let r = eval_expr(es[i], m, fuel, limit);
        match r.result {
            Err(e) => Evaluations { result: Err(e), machine: r.machine },
            Ok(v) => eval_list(es, i + 1, done.push(v), r.machine, fuel, limit),
        }
    }
}

/// A call: the arguments are evaluated first, from left to right, and then
/// the callee is applied to their values.
pub open spec fn eval_call(
    callee: ExprView,
    args: Seq<ExprView>,
    m: Machine,
    fuel: nat,
    limit: nat,
) -> Evaluation
    decreases fuel, args.len() + 2,
{
    let a = eval_list(args, 0, Seq::empty(), m, fuel, limit);
    match a.result {
        Err(e) => Evaluation { result: Err(e), machine: a.machine },
        Ok(values) => apply(callee, values, a.machine, fuel, limit),
    }
}

/// The call of `callee` on argument values that are already known.
///
/// A built-in writes to the console and gives the void value. Any other name
/// must be bound to a function that takes as many arguments as there are: its
/// body runs in a scope of its own that holds the parameters, an early return
/// ends there, and the scope is left however the body ends.
pub open spec fn apply(
    callee: ExprView,
    args: Seq<ValueView>,
    m: Machine,
    fuel: nat,
    limit: nat,
) -> Evaluation
    decreases fuel, 1nat,
{
    match callee {
        ExprView::Variable(name) => if is_builtin_name(name) {
            Evaluation {
                result: Ok(ValueView::Void),
                machine: m.with_output(m.output + builtin_output(name, args)),
            }
        } else {
            match lookup(m.scopes, name) {
                None => Evaluation {
                    result: Err(RuntimeErrorView::UndefinedVariable { name }),
                    machine: m,
                },
                Some(ValueView::Function { name: function_name, params, body }) => if params.len()
                    != args.len() {
                    Evaluation {
                        result: Err(
                            RuntimeErrorView::ArgumentCountMismatch {
                                expected: params.len(),
                                found: args.len(),
                                function_name,
                            },
                        ),
                        machine: m,
                    }
                } else {
                    let entered = Machine {
                        scopes: bind(
                            m.scopes.push(Map::<Seq<char>, ValueView>::empty()),
                            params,
                            args,
                            0,
                        ),
                        in_function: true,
                        output: m.output,
                    };
                    let done = exec_stmt(*body, entered, fuel, limit);
                    Evaluation {
                        result: match done.flow {
                            Flow::Normal(v) => Ok(v),
                            Flow::Return(v) => Ok(v),
                            Flow::Fault(e) => Err(e),
                        },
                        machine: Machine {
                            scopes: leave(done.machine.scopes),
                            in_function: m.in_function,
                            output: done.machine.output,
                        },
                    }
                },
                Some(other) => Evaluation {
                    result: Err(RuntimeErrorView::NotCallable { value_type: other.kind_name() }),
                    machine: m,
                },
            }
        },
        _ => Evaluation {
            result: Err(RuntimeErrorView::Custom("Can only call functions by name"@)),
            machine: m,
        },
    }
}

/// The execution of a statement. For `fuel` and `limit` see [`eval_expr`].
pub open spec fn exec_stmt(s: StmtView, m: Machine, fuel: nat, limit: nat) -> Step
    decreases fuel, 0nat,
{
    if fuel == 0 {
        Step { flow: Flow::Fault(too_deep(limit)), machine: m }
    } else {
        let inner = (fuel - 1) as nat;
        match s {
            StmtView::Expression(e) => {
                let r = eval_expr(e, m, inner, limit);
                Step { flow: flow_of(r.result), machine: r.machine }
            },
            StmtView::Let { name, type_annotation, value } => {
                let r = eval_expr(value, m, inner, limit);
                match r.result {
                    Err(e) => Step { flow: Flow::Fault(e), machine: r.machine },
                    Ok(v) => Step {
                        flow: Flow::Normal(ValueView::Void),
                        machine: r.machine.with_scopes(declare(r.machine.scopes, name, v)),
                    },
                }
            },
            StmtView::Assignment { name, value } => {
                let r = eval_expr(value, m, inner, limit);
                match r.result {
                    Err(e) => Step { flow: Flow::Fault(e), machine: r.machine },
                    Ok(v) => match assign(r.machine.scopes, name, v) {
                        Some(scopes) => Step {
                            flow: Flow::Normal(ValueView::Void),
                            machine: r.machine.with_scopes(scopes),
                        },
                        None => Step {
                            flow: Flow::Fault(RuntimeErrorView::AssignmentToUndefined { name }),
                            machine: r.machine,
                        },
                    },
                }
            },
            StmtView::Block(items) => {
                let entered = m.with_scopes(m.scopes.push(Map::<Seq<char>, ValueView>::empty()));
                let done = exec_block(items, 0, ValueView::Void, entered, inner, limit);
                Step {
                    flow: done.flow,
                    machine: done.machine.with_scopes(leave(done.machine.scopes)),
                }
            },
            StmtView::If { condition, then_branch, else_branch } => {
                let c = eval_expr(condition, m, inner, limit);
                match c.result {
                    Err(e) => Step { flow: Flow::Fault(e), machine: c.machine },
                    Ok(v) => if v.is_truthy() {
                        exec_stmt(*then_branch, c.machine, inner, limit)
                    } else {
                        match else_branch {
                            Some(other) => exec_stmt(*other, c.machine, inner, limit),
                            None => Step {
                                flow: Flow::Normal(ValueView::Void),
                                machine: c.machine,
                            },
                        }
                    },
                }
            },
            StmtView::Return(value) => if !m.in_function {
                Step { flow: Flow::Fault(RuntimeErrorView::ReturnOutsideFunction), machine: m }
            } else {
                match value {
                    Some(e) => {
                        let r = eval_expr(e, m, inner, limit);
                        match r.result {
                            Err(e) => Step { flow: Flow::Fault(e), machine: r.machine },
                            Ok(v) => Step { flow: Flow::Return(v), machine: r.machine },
                        }
                    },
                    None => Step { flow: Flow::Return(ValueView::Void), machine: m },
                }
            },
            StmtView::FunctionDecl { name, params, return_type, body } => Step {
                flow: Flow::Normal(ValueView::Void),
                machine: m.with_scopes(
                    declare(
                        m.scopes,
                        name,
                        ValueView::Function { name, params: param_names(params), body },
                    ),
                ),
            },
        }
    }
}

/// The execution of the statements of a block from `i` on, in order, up to
/// the first that does not end normally. `last` is the value of the
/// statement before, which is the value of the block when none is left.
pub open spec fn exec_block(
    items: Seq<StmtView>,
    i: int,
    last: ValueView,
    m: Machine,
    fuel: nat,
    limit: nat,
) -> Step
    decreases fuel, items.len() - i + 1,
{
    if i < 0 || i >= items.len() {
        Step { flow: Flow::Normal(last), machine: m }
    } else {
        let s = exec_stmt(items[i], m, fuel, limit);
        match s.flow {
            Flow::Normal(v) => exec_block(items, i + 1, v, s.machine, fuel, limit),
            _ => s,
        }
    }
}

/// The run of the top-level statements from `i` on: it ends at the first
/// fault, and an early return that reaches this level is a fault too.
pub open spec fn run_program(items: Seq<StmtView>, i: int, m: Machine, limit: nat) -> Run
    decreases items.len() - i,
{
    if i < 0 || i >= items.len() {
        Run { result: Ok(()), machine: m }
    } else {
        let s = exec_stmt(items[i], m, limit, limit);
        match s.flow {
            Flow::Normal(_) => run_program(items, i + 1, s.machine, limit),
            Flow::Return(_) => Run {
                result: Err(RuntimeErrorView::ReturnOutsideFunction),
                machine: s.machine,
            },
            Flow::Fault(e) => Run { result: Err(e), machine: s.machine },
        }
    }
}

proof fn lemma_bind_keeps_depth(
    scopes: Seq<Scope>,
    params: Seq<Seq<char>>,
    args: Seq<ValueView>,
    i: int,
)
    ensures
        bind(scopes, params, args, i).len() == scopes.len(),
    decreases params.len() - i,
{
    if !(i < 0 || i >= params.len() || i >= args.len()) {
        lemma_bind_keeps_depth(declare(scopes, params[i], args[i]), params, args, i + 1);
    }
}

/// An expression leaves as many scopes as it found, and the function flag as
/// it was, whether it gives a value or a fault.
pub proof fn lemma_eval_expr_balanced(e: ExprView, m: Machine, fuel: nat, limit: nat)
    requires
        m.scopes.len() >= 1,
    ensures
        eval_expr(e, m, fuel, limit).machine.scopes.len() == m.scopes.len(),
        eval_expr(e, m, fuel, limit).machine.in_function == m.in_function,
    decreases fuel, 0nat,
{
    if fuel > 0 {
        let inner = (fuel - 1) as nat;
        match e {
            ExprView::Literal(_) => {},
            ExprView::Variable(_) => {},
            ExprView::Binary { left, op, right } => {
                lemma_eval_expr_balanced(*left, m, inner, limit);
                let l = eval_expr(*left, m, inner, limit);
                lemma_eval_expr_balanced(*right, l.machine, inner, limit);
            },
            ExprView::Unary { op, right } => {
                lemma_eval_expr_balanced(*right, m, inner, limit);
            },
            ExprView::Call { callee, args } => {
                lemma_eval_call_balanced(*callee, args, m, inner, limit);
            },
            ExprView::ArrayAccess { array, index } => {
                lemma_eval_expr_balanced(*array, m, inner, limit);
                let a = eval_expr(*array, m, inner, limit);
                lemma_eval_expr_balanced(*index, a.machine, inner, limit);
            },
            ExprView::ArrayLiteral(elements) => {
                lemma_eval_list_balanced(elements, 0, Seq::empty(), m, inner, limit);
            },
        }
    }
}

/// A list of expressions leaves as many scopes as it found.
pub proof fn lemma_eval_list_balanced(
    es: Seq<ExprView>,
    i: int,
    done: Seq<ValueView>,
    m: Machine,
    fuel: nat,
    limit: nat,
)
    requires
        m.scopes.len() >= 1,
    ensures
        eval_list(es, i, done, m, fuel, limit).machine.scopes.len() == m.scopes.len(),
        eval_list(es, i, done, m, fuel, limit).machine.in_function == m.in_function,
    decreases fuel, es.len() - i + 1,
{
    if !(i < 0 || i >= es.len()) {
        lemma_eval_expr_balanced(es[i], m, fuel, limit);
        let r = eval_expr(es[i], m, fuel, limit);
        if let Ok(v) = r.result {
            lemma_eval_list_balanced(es, i + 1, done.push(v), r.machine, fuel, limit);
        }
    }
}

/// A call leaves as many scopes as it found.
pub proof fn lemma_eval_call_balanced(
    callee: ExprView,
    args: Seq<ExprView>,
    m: Machine,
    fuel: nat,
    limit: nat,
)
    requires
        m.scopes.len() >= 1,
    ensures
        eval_call(callee, args, m, fuel, limit).machine.scopes.len() == m.scopes.len(),
        eval_call(callee, args, m, fuel, limit).machine.in_function == m.in_function,
    decreases fuel, args.len() + 2,
{
    lemma_eval_list_balanced(args, 0, Seq::empty(), m, fuel, limit);
    let a = eval_list(args, 0, Seq::empty(), m, fuel, limit);
    if let Ok(values) = a.result {
        lemma_apply_balanced(callee, values, a.machine, fuel, limit);
    }
}

/// Applying a callee leaves as many scopes as it found: the scope of the
/// function body is left whether the body ends normally, by a return, or by a
/// fault.
pub proof fn lemma_apply_balanced(
    callee: ExprView,
    args: Seq<ValueView>,
    m: Machine,
    fuel: nat,
    limit: nat,
)
    requires
        m.scopes.len() >= 1,
    ensures
        apply(callee, args, m, fuel, limit).machine.scopes.len() == m.scopes.len(),
        apply(callee, args, m, fuel, limit).machine.in_function == m.in_function,
    decreases fuel, 1nat,
{
    if let ExprView::Variable(name) = callee {
        if !is_builtin_name(name) {
            if let Some(ValueView::Function { name: function_name, params, body }) = lookup(
                m.scopes,
                name,
            ) {
                if params.len() == args.len() {
                    let pushed = m.scopes.push(Map::<Seq<char>, ValueView>::empty());
                    lemma_bind_keeps_depth(pushed, params, args, 0);
                    let entered = Machine {
                        scopes: bind(pushed, params, args, 0),
                        in_function: true,
                        output: m.output,
                    };
                    lemma_exec_stmt_balanced(*body, entered, fuel, limit);
                }
            }
        }
    }
}

/// A statement leaves as many scopes as it found, however it ends: normally,
/// by a return, or by a fault raised at any depth inside it.
pub proof fn lemma_exec_stmt_balanced(s: StmtView, m: Machine, fuel: nat, limit: nat)
    requires
        m.scopes.len() >= 1,
    ensures
        exec_stmt(s, m, fuel, limit).machine.scopes.len() == m.scopes.len(),
        exec_stmt(s, m, fuel, limit).machine.in_function == m.in_function,
    decreases fuel, 0nat,
{
    if fuel > 0 {
        let inner = (fuel - 1) as nat;
        match s {
            StmtView::Expression(e) => {
                lemma_eval_expr_balanced(e, m, inner, limit);
            },
            StmtView::Let { name, type_annotation, value } => {
                lemma_eval_expr_balanced(value, m, inner, limit);
            },
            StmtView::Assignment { name, value } => {
                lemma_eval_expr_balanced(value, m, inner, limit);
                let r = eval_expr(value, m, inner, limit);
                if let Ok(v) = r.result {
                    lemma_assign_keeps_depth(r.machine.scopes, name, v);
                }
            },
            StmtView::Block(items) => {
                let entered = m.with_scopes(m.scopes.push(Map::<Seq<char>, ValueView>::empty()));
                lemma_exec_block_balanced(items, 0, ValueView::Void, entered, inner, limit);
            },
            StmtView::If { condition, then_branch, else_branch } => {
                lemma_eval_expr_balanced(condition, m, inner, limit);
                let c = eval_expr(condition, m, inner, limit);
                if let Ok(v) = c.result {
                    if v.is_truthy() {
                        lemma_exec_stmt_balanced(*then_branch, c.machine, inner, limit);
                    } else if let Some(other) = else_branch {
                        lemma_exec_stmt_balanced(*other, c.machine, inner, limit);
                    }
                }
            },
            StmtView::Return(value) => {
                if m.in_function {
                    if let Some(e) = value {
                        lemma_eval_expr_balanced(e, m, inner, limit);
                    }
                }
            },
            StmtView::FunctionDecl { .. } => {},
        }
    }
}

/// The statements of a block leave as many scopes as they found.
pub proof fn lemma_exec_block_balanced(
    items: Seq<StmtView>,
    i: int,
    last: ValueView,
    m: Machine,
    fuel: nat,
    limit: nat,
)
    requires
        m.scopes.len() >= 1,
    ensures
        exec_block(items, i, last, m, fuel, limit).machine.scopes.len() == m.scopes.len(),
        exec_block(items, i, last, m, fuel, limit).machine.in_function == m.in_function,
    decreases fuel, items.len() - i + 1,
{
    if !(i < 0 || i >= items.len()) {
        lemma_exec_stmt_balanced(items[i], m, fuel, limit);
        let s = exec_stmt(items[i], m, fuel, limit);
        if let Flow::Normal(v) = s.flow {
            lemma_exec_block_balanced(items, i + 1, v, s.machine, fuel, limit);
        }
    }
}

/// A program leaves as many scopes as it found, whether it completes or
/// stops at a fault.
pub proof fn lemma_run_program_balanced(items: Seq<StmtView>, i: int, m: Machine, limit: nat)
    requires
        m.scopes.len() >= 1,
    ensures
        run_program(items, i, m, limit).machine.scopes.len() == m.scopes.len(),
        run_program(items, i, m, limit).machine.in_function == m.in_function,
    decreases items.len() - i,
{
    if !(i < 0 || i >= items.len()) {
        lemma_exec_stmt_balanced(items[i], m, limit, limit);
        let s = exec_stmt(items[i], m, limit, limit);
        if let Flow::Normal(_) = s.flow {
            lemma_run_program_balanced(items, i + 1, s.machine, limit);
        }
    }
}

} // verus!
