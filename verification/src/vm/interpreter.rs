use vstd::prelude::*;
use vstd::string::StringExecFns;
use crate::ast::{
    expr_views, param_views, stmt_views, BinaryOp, Expr, Literal, Param, Stmt, UnaryOp,
};
use crate::text::push_text;
use crate::vm::arith::{
    checked_difference, checked_power, checked_product, checked_quotient, checked_sum, remainder,
};
use crate::vm::builtin::{call_builtin, is_builtin};
use crate::vm::environment::Environment;
use crate::vm::error::{RuntimeError, RuntimeErrorView, RuntimeResult};
use crate::vm::semantics;
use crate::vm::semantics::{Flow, Machine, Run};
use crate::vm::value::{name_views, value_views, Value, ValueView};

verus! {

/// The depth of nesting that an interpreter made by `Interpreter::new`
/// allows.
pub const DEFAULT_MAX_DEPTH: usize = 500;

/// Why a statement did not end normally.
#[derive(Debug)]
pub enum ControlFlow {
    Return(Value),
    Error(RuntimeError),
}

/// Control flow result type (for handling returns)
pub type ControlFlowResult = Result<Value, ControlFlow>;

/// The outcome that a control-flow result stands for.
pub open spec fn flow_view(r: ControlFlowResult) -> Flow {
    match r {
        Ok(v) => Flow::Normal(v@),
        Err(ControlFlow::Return(v)) => Flow::Return(v@),
        Err(ControlFlow::Error(e)) => Flow::Fault(e@),
    }
}

/// The outcome that the result of an expression stands for.
pub open spec fn result_view(r: RuntimeResult<Value>) -> Result<ValueView, RuntimeErrorView> {
    match r {
        Ok(v) => Ok(v@),
        Err(e) => Err(e@),
    }
}

/// The outcome that the result of a program stands for.
pub open spec fn unit_view(r: RuntimeResult<()>) -> Result<(), RuntimeErrorView> {
    match r {
        Ok(_) => Ok(()),
        Err(e) => Err(e@),
    }
}

/// Main interpreter struct
pub struct Interpreter {
    env: Environment,
    /// Whether a function body is being executed, for return statements
    in_function: bool,
    /// What the program has printed
    output: String,
    max_depth: usize,
}

impl View for Interpreter {
    type V = Machine;

    closed spec fn view(&self) -> Machine {
        Machine { scopes: self.env@, in_function: self.in_function, output: self.output@ }
    }
}

fn invalid_operation(operation: &str, left: &Value, right: &Value) -> (e: RuntimeError)
    ensures
        e@ == semantics::invalid_operation(operation@, left@, right@),
{
    RuntimeError::InvalidOperation {
        operation: operation.to_string(),
        left_type: left.kind_name().to_string(),
        right_type: right.kind_name().to_string(),
    }
}

/// The value of a number that may not fit.
fn number_or_overflow(value: Option<i64>, operation: &str) -> (r: RuntimeResult<Value>)
    ensures
        match value {
            Some(v) => r matches Ok(x) && x@ == ValueView::Number(v as int),
            None => r matches Err(e) && e@ == semantics::overflow(operation@),
        },
{
    match value {
        Some(v) => Ok(Value::Number(v)),
        None => {
            let mut message = String::new();
            push_text(&mut message, "Integer overflow in ");
            push_text(&mut message, operation);
            Err(RuntimeError::Custom(message))
        },
    }
}

impl Interpreter {
    /// The environment always has its global scope.
    pub closed spec fn wf(&self) -> bool {
        self.env.wf()
    }

    /// The depth of nesting that the interpreter allows.
    pub closed spec fn limit(&self) -> nat {
        self.max_depth as nat
    }

    pub proof fn lemma_wf_depth(&self)
        requires
            self.wf(),
        ensures
            self@.scopes.len() >= 1,
    {
        self.env.lemma_wf_depth();
    }

    /// Create a new interpreter
    pub fn new() -> (r: Self)
        ensures
            r.wf(),
            r@ == Machine::fresh(),
            r.limit() == DEFAULT_MAX_DEPTH,
    {
        Self::with_max_depth(DEFAULT_MAX_DEPTH)
    }

    /// Create a new interpreter that allows nesting up to `max_depth`.
    pub fn with_max_depth(max_depth: usize) -> (r: Self)
        ensures
            r.wf(),
            r@ == Machine::fresh(),
            r.limit() == max_depth,
    {
        Interpreter {
            env: Environment::new(),
            in_function: false,
            output: String::new(),
            max_depth,
        }
    }

    /// What the program has printed so far.
    pub fn output(&self) -> (r: &str)
        ensures
            r@ == self@.output,
    {
        self.output.as_str()
    }

    /// The number of scopes of the environment.
    pub fn scope_depth(&self) -> (r: usize)
        ensures
            r == self@.scopes.len(),
    {
        self.env.depth()
    }

    /// The value of a variable, looked up from the innermost scope outwards.
    pub fn variable(&self, name: &str) -> (r: RuntimeResult<Value>)
        requires
            self.wf(),
        ensures
            match crate::vm::environment::lookup(self@.scopes, name@) {
                Some(v) => r matches Ok(found) && found@ == v,
                None => r matches Err(e) && e@ == (RuntimeErrorView::UndefinedVariable {
                    name: name@,
                }),
            },
    {
        self.env.get(name)
    }

    /// Execute a program (list of statements)
    pub fn execute(&mut self, statements: Vec<Stmt>) -> (r: RuntimeResult<()>)
        requires
            old(self).wf(),
        ensures
            final(self).wf(),
            final(self).limit() == old(self).limit(),
            Self::executed(*old(self), statements@, *final(self), r),
            final(self)@.scopes.len() == old(self)@.scopes.len(),
    {
        let ghost views = stmt_views(statements@);
        let mut i: usize = 0;
        proof {
            self.lemma_wf_depth();
            semantics::lemma_run_program_balanced(views, 0, self@, self.limit());
        }
        while i < statements.len()
            invariant
                i <= statements.len(),
                self.wf(),
                self.limit() == old(self).limit(),
                views == stmt_views(statements@),
                semantics::run_program(views, i as int, self@, self.limit())
                    == semantics::run_program(views, 0, old(self)@, old(self).limit()),
                semantics::run_program(views, 0, old(self)@, old(self).limit()).machine.scopes.len()
                    == old(self)@.scopes.len(),
            decreases statements.len() - i,
        {
            let fuel = self.max_depth;
            match self.execute_stmt_cf(&statements[i], fuel) {
                Ok(_) => {},
                Err(ControlFlow::Error(e)) => {
                    return Err(e);
                },
                Err(ControlFlow::Return(_)) => {
                    return Err(RuntimeError::ReturnOutsideFunction);
                },
            }
            i += 1;
        }
        Ok(())
    }

    /// What `execute` promises: the result and the state after are those of
    /// running the statements from the state before.
    pub open spec fn executed(
        before: Interpreter,
        statements: Seq<Stmt>,
        after: Interpreter,
        r: RuntimeResult<()>,
    ) -> bool {
        (Run { result: unit_view(r), machine: after@ }) == semantics::run_program(
            stmt_views(statements),
            0,
            before@,
            before.limit(),
        )
    }

    /// Interpreting the same statements from two fresh interpreters that
    /// allow the same depth gives the same console output and the same
    /// outcome, success or the same fault.
    pub proof fn lemma_execute_deterministic(
        first: Interpreter,
        second: Interpreter,
        first_statements: Seq<Stmt>,
        second_statements: Seq<Stmt>,
        first_after: Interpreter,
        second_after: Interpreter,
        first_result: RuntimeResult<()>,
        second_result: RuntimeResult<()>,
    )
        requires
            first@ == Machine::fresh(),
            second@ == Machine::fresh(),
            first.limit() == second.limit(),
            stmt_views(first_statements) == stmt_views(second_statements),
            Self::executed(first, first_statements, first_after, first_result),
            Self::executed(second, second_statements, second_after, second_result),
        ensures
            first_after@.output == second_after@.output,
            unit_view(first_result) == unit_view(second_result),
            first_after@ == second_after@,
    {
    }

    /// Evaluate an expression in the current state.
    pub fn evaluate(&mut self, expr: &Expr) -> (r: RuntimeResult<Value>)
        requires
            old(self).wf(),
        ensures
            final(self).wf(),
            final(self).limit() == old(self).limit(),
            result_view(r) == semantics::eval_expr(
                expr@,
                old(self)@,
                old(self).limit(),
                old(self).limit(),
            ).result,
            final(self)@ == semantics::eval_expr(
                expr@,
                old(self)@,
                old(self).limit(),
                old(self).limit(),
            ).machine,
    {
        let fuel = self.max_depth;
        self.eval_expr(expr, fuel)
    }

    /// Execute a single statement (with control flow)
    fn execute_stmt_cf(&mut self, stmt: &Stmt, fuel: usize) -> (r: ControlFlowResult)
        requires
            old(self).wf(),
        ensures
            final(self).wf(),
            final(self).limit() == old(self).limit(),
            flow_view(r) == semantics::exec_stmt(
                stmt@,
                old(self)@,
                fuel as nat,
                old(self).limit(),
            ).flow,
            final(self)@ == semantics::exec_stmt(
                stmt@,
                old(self)@,
                fuel as nat,
                old(self).limit(),
            ).machine,
        decreases fuel, 0nat,
    {
        if fuel == 0 {
            return Err(ControlFlow::Error(RuntimeError::StackOverflow { max_depth: self.max_depth }));
        }
        let inner = fuel - 1;
        match stmt {
            Stmt::Expression(expr) => match self.eval_expr(expr, inner) {
                Ok(v) => Ok(v),
                Err(e) => Err(ControlFlow::Error(e)),
            },
            Stmt::Let { name, type_annotation: _, value } => {
                match self.eval_expr(value, inner) {
                    Ok(v) => {
                        self.env.define(name.clone(), v);
                        Ok(Value::Void)
                    },
                    Err(e) => Err(ControlFlow::Error(e)),
                }
            },
            Stmt::Assignment { name, value } => {
                match self.eval_expr(value, inner) {
                    Ok(v) => match self.env.set(name.as_str(), v) {
                        Ok(_) => Ok(Value::Void),
                        Err(e) => Err(ControlFlow::Error(e)),
                    },
                    Err(e) => Err(ControlFlow::Error(e)),
                }
            },
            Stmt::Block(statements) => {
                proof {
                    Stmt::lemma_view_block(*statements);
                }
                self.env.push_scope();
                let ghost views = stmt_views(statements@);
                let ghost entered = self@;
                let mut result: ControlFlowResult = Ok(Value::Void);
                let mut i: usize = 0;
                while i < statements.len()
                    invariant_except_break
                        result matches Ok(last) && semantics::exec_block(
                            views,
                            i as int,
                            last@,
                            self@,
                            inner as nat,
                            self.limit(),
                        ) == semantics::exec_block(
                            views,
                            0,
                            ValueView::Void,
                            entered,
                            inner as nat,
                            self.limit(),
                        ),
                    invariant
                        i <= statements.len(),
                        inner < fuel,
                        self.wf(),
                        self.limit() == old(self).limit(),
                        views == stmt_views(statements@),
                    ensures
                        (semantics::Step { flow: flow_view(result), machine: self@ })
                            == semantics::exec_block(
                            views,
                            0,
                            ValueView::Void,
                            entered,
                            inner as nat,
                            self.limit(),
                        ),
                    decreases statements.len() - i,
                {
                    match self.execute_stmt_cf(&statements[i], inner) {
                        Ok(val) => {
                            result = Ok(val);
                        },
                        Err(e) => {
                            result = Err(e);
                            break ;
                        },
                    }
                    i += 1;
                }
                self.env.pop_scope();
                result
            },
            Stmt::If { condition, then_branch, else_branch } => {
                match self.eval_expr(condition, inner) {
                    Err(e) => Err(ControlFlow::Error(e)),
                    Ok(cond_val) => {
                        if cond_val.is_truthy() {
                            self.execute_stmt_cf(then_branch, inner)
                        } else {
                            match else_branch {
                                Some(else_stmt) => self.execute_stmt_cf(else_stmt, inner),
                                None => Ok(Value::Void),
                            }
                        }
                    },
                }
            },
            Stmt::Return(expr) => {
                if !self.in_function {
                    return Err(ControlFlow::Error(RuntimeError::ReturnOutsideFunction));
                }
                match expr {
                    Some(e) => match self.eval_expr(e, inner) {
                        Ok(v) => Err(ControlFlow::Return(v)),
                        Err(e) => Err(ControlFlow::Error(e)),
                    },
                    None => Err(ControlFlow::Return(Value::Void)),
                }
            },
            Stmt::FunctionDecl { name, params, return_type: _, body } => {
                let param_names = names_of(params);
                let func_value = Value::Function {
                    name: name.clone(),
                    params: param_names,
                    body: Box::new((**body).clone()),
                };
                self.env.define(name.clone(), func_value);
                Ok(Value::Void)
            },
        }
    }

    /// Evaluate an expression
    fn eval_expr(&mut self, expr: &Expr, fuel: usize) -> (r: RuntimeResult<Value>)
        requires
            old(self).wf(),
        ensures
            final(self).wf(),
            final(self).limit() == old(self).limit(),
            result_view(r) == semantics::eval_expr(
                expr@,
                old(self)@,
                fuel as nat,
                old(self).limit(),
            ).result,
            final(self)@ == semantics::eval_expr(
                expr@,
                old(self)@,
                fuel as nat,
                old(self).limit(),
            ).machine,
        decreases fuel, 0nat,
    {
        if fuel == 0 {
            return Err(RuntimeError::StackOverflow { max_depth: self.max_depth });
        }
        let inner = fuel - 1;
        match expr {
            Expr::Literal(lit) => Ok(self.eval_literal(lit)),
            Expr::Variable(name) => self.env.get(name.as_str()),
            Expr::Binary { left, op, right } => {
                let left_val = match self.eval_expr(left, inner) {
                    Ok(v) => v,
                    Err(e) => {
                        return Err(e);
                    },
                };
                let right_val = match self.eval_expr(right, inner) {
                    Ok(v) => v,
                    Err(e) => {
                        return Err(e);
                    },
                };
                self.eval_binary_op(left_val, *op, right_val)
            },
            Expr::Unary { op, right } => {
                let right_val = match self.eval_expr(right, inner) {
                    Ok(v) => v,
                    Err(e) => {
                        return Err(e);
                    },
                };
                self.eval_unary_op(*op, right_val)
            },
            Expr::Call { callee, args } => {
                proof {
                    Expr::lemma_view_call(*callee, *args);
                }
                self.eval_call(callee, args, inner)
            },
            Expr::ArrayLiteral(elements) => {
                proof {
                    Expr::lemma_view_array_literal(*elements);
                }
                match self.eval_list(elements, inner) {
                    Ok(values) => {
                        proof {
                            Value::lemma_view_array(values);
                        }
                        Ok(Value::Array(values))
                    },
                    Err(e) => Err(e),
                }
            },
            Expr::ArrayAccess { array, index } => {
                let array_val = match self.eval_expr(array, inner) {
                    Ok(v) => v,
                    Err(e) => {
                        return Err(e);
                    },
                };
                let index_val = match self.eval_expr(index, inner) {
                    Ok(v) => v,
                    Err(e) => {
                        return Err(e);
                    },
                };
                index_value(&array_val, &index_val)
            },
        }
    }

    /// Evaluate the expressions of a list, from left to right.
    fn eval_list(&mut self, exprs: &Vec<Expr>, fuel: usize) -> (r: RuntimeResult<Vec<Value>>)
        requires
            old(self).wf(),
        ensures
            final(self).wf(),
            final(self).limit() == old(self).limit(),
            ({
                let expected = semantics::eval_list(
                    expr_views(exprs@),
                    0,
                    Seq::empty(),
                    old(self)@,
                    fuel as nat,
                    old(self).limit(),
                );
                &&& final(self)@ == expected.machine
                &&& match r {
                    Ok(values) => expected.result == Ok::<Seq<ValueView>, RuntimeErrorView>(
                        value_views(values@),
                    ),
                    Err(e) => expected.result == Err::<Seq<ValueView>, RuntimeErrorView>(e@),
                }
            }),
        decreases fuel, exprs.len() + 1,
    {
        let ghost views = expr_views(exprs@);
        let mut values: Vec<Value> = Vec::new();
        let mut i: usize = 0;
        assert(value_views(values@) =~= Seq::<ValueView>::empty());
        while i < exprs.len()
            invariant
                i <= exprs.len(),
                self.wf(),
                self.limit() == old(self).limit(),
                views == expr_views(exprs@),
                semantics::eval_list(
                    views,
                    i as int,
                    value_views(values@),
                    self@,
                    fuel as nat,
                    self.limit(),
                ) == semantics::eval_list(
                    views,
                    0,
                    Seq::empty(),
                    old(self)@,
                    fuel as nat,
                    old(self).limit(),
                ),
            decreases exprs.len() - i,
        {
            let ghost done = value_views(values@);
            match self.eval_expr(&exprs[i], fuel) {
                Ok(v) => {
                    values.push(v);
                    assert(value_views(values@) =~= done.push(v@));
                },
                Err(e) => {
                    return Err(e);
                },
            }
            i += 1;
        }
        Ok(values)
    }

    /// Evaluate a literal
    pub fn eval_literal(&self, lit: &Literal) -> (r: Value)
        ensures
            r@ == semantics::literal_value(lit@),
    {
        match lit {
            Literal::Number(n) => Value::Number(*n),
            Literal::String(s) => Value::String(s.clone()),
            Literal::Char(c) => Value::Char(*c),
            Literal::Bool(b) => Value::Bool(*b),
        }
    }

    /// Evaluate a binary operation
    pub fn eval_binary_op(&self, left: Value, op: BinaryOp, right: Value) -> (r: RuntimeResult<
        Value,
    >)
        ensures
            result_view(r) == semantics::binary_result(left@, op, right@),
    {
        match op {
            // Arithmetic operations
            BinaryOp::Add => match (left, right) {
                (Value::Number(l), Value::Number(r)) => number_or_overflow(
                    checked_sum(l, r),
                    "addition",
                ),
                (Value::String(l), Value::String(r)) => Ok(Value::String(l.concat(r.as_str()))),
                (l, r) => Err(invalid_operation("addition", &l, &r)),
            },
            BinaryOp::Sub => match (left, right) {
                (Value::Number(l), Value::Number(r)) => number_or_overflow(
                    checked_difference(l, r),
                    "subtraction",
                ),
                (l, r) => Err(invalid_operation("subtraction", &l, &r)),
            },
            BinaryOp::Mul => match (left, right) {
                (Value::Number(l), Value::Number(r)) => number_or_overflow(
                    checked_product(l, r),
                    "multiplication",
                ),
                (l, r) => Err(invalid_operation("multiplication", &l, &r)),
            },
            BinaryOp::Div => match (left, right) {
                (Value::Number(l), Value::Number(r)) => {
                    if r == 0 {
                        Err(RuntimeError::DivisionByZero)
                    } else {
                        number_or_overflow(checked_quotient(l, r), "division")
                    }
                },
                (l, r) => Err(invalid_operation("division", &l, &r)),
            },
            BinaryOp::Mod => match (left, right) {
                (Value::Number(l), Value::Number(r)) => {
                    if r == 0 {
                        Err(RuntimeError::ModuloByZero)
                    } else {
                        Ok(Value::Number(remainder(l, r)))
                    }
                },
                (l, r) => Err(invalid_operation("modulo", &l, &r)),
            },
            BinaryOp::Pow => match (left, right) {
                (Value::Number(l), Value::Number(r)) => {
                    if r < 0 {
                        Err(
                            RuntimeError::Custom(
                                "Negative exponents not supported for integers".to_string(),
                            ),
                        )
                    } else {
                        number_or_overflow(checked_power(l, r), "exponentiation")
                    }
                },
                (l, r) => Err(invalid_operation("exponentiation", &l, &r)),
            },
            // Comparison operations
            BinaryOp::Equal => Ok(Value::Bool(left.equals(&right))),
            BinaryOp::NotEqual => Ok(Value::Bool(!left.equals(&right))),
            BinaryOp::Less => match (left, right) {
                (Value::Number(l), Value::Number(r)) => Ok(Value::Bool(l < r)),
                (l, r) => Err(invalid_operation("comparison", &l, &r)),
            },
            BinaryOp::Greater => match (left, right) {
                (Value::Number(l), Value::Number(r)) => Ok(Value::Bool(l > r)),
                (l, r) => Err(invalid_operation("comparison", &l, &r)),
            },
            BinaryOp::LessEqual => match (left, right) {
                (Value::Number(l), Value::Number(r)) => Ok(Value::Bool(l <= r)),
                (l, r) => Err(invalid_operation("comparison", &l, &r)),
            },
            BinaryOp::GreaterEqual => match (left, right) {
                (Value::Number(l), Value::Number(r)) => Ok(Value::Bool(l >= r)),
                (l, r) => Err(invalid_operation("comparison", &l, &r)),
            },
            // Logical operations
            BinaryOp::And => Ok(Value::Bool(left.as_bool() && right.as_bool())),
            BinaryOp::Or => Ok(Value::Bool(left.as_bool() || right.as_bool())),
        }
    }

    /// Evaluate a unary operation
    pub fn eval_unary_op(&self, op: UnaryOp, right: Value) -> (r: RuntimeResult<Value>)
        ensures
            result_view(r) == semantics::unary_result(op, right@),
    {
        match op {
            UnaryOp::Minus => match right {
                Value::Number(n) => number_or_overflow(checked_difference(0, n), "negation"),
                _ => Err(
                    RuntimeError::TypeMismatch {
                        operation: "unary minus".to_string(),
                        expected: "Int".to_string(),
                        found: right.kind_name().to_string(),
                    },
                ),
            },
            UnaryOp::Not => Ok(Value::Bool(!right.as_bool())),
        }
    }

    /// Evaluate a function call
    fn eval_call(&mut self, callee: &Expr, args: &Vec<Expr>, fuel: usize) -> (r: RuntimeResult<
        Value,
    >)
        requires
            old(self).wf(),
        ensures
            final(self).wf(),
            final(self).limit() == old(self).limit(),
            result_view(r) == semantics::eval_call(
                callee@,
                expr_views(args@),
                old(self)@,
                fuel as nat,
                old(self).limit(),
            ).result,
            final(self)@ == semantics::eval_call(
                callee@,
                expr_views(args@),
                old(self)@,
                fuel as nat,
                old(self).limit(),
            ).machine,
        decreases fuel, args.len() + 2,
    {
        // Evaluate arguments first
        let arg_values = match self.eval_list(args, fuel) {
            Ok(values) => values,
            Err(e) => {
                return Err(e);
            },
        };
        // Get the function
        match callee {
            Expr::Variable(name) => {
                // Check if it's a built-in function
                if is_builtin(name.as_str()) {
                    return call_builtin(name.as_str(), arg_values, &mut self.output);
                }
                // Otherwise, get user-defined function

                let func = match self.env.get(name.as_str()) {
                    Ok(f) => f,
                    Err(e) => {
                        return Err(e);
                    },
                };
                match func {
                    Value::Function { name: fn_name, params, body } => {
                        // Check arity
                        if params.len() != arg_values.len() {
                            return Err(
                                RuntimeError::ArgumentCountMismatch {
                                    expected: params.len(),
                                    found: arg_values.len(),
                                    function_name: fn_name,
                                },
                            );
                        }
                        // Create new scope for function

                        let ghost evaluated = self@;
                        self.env.push_scope();
                        // Bind parameters
                        let ghost pushed = self.env@;
                        let mut i: usize = 0;
                        while i < params.len()
                            invariant
                                i <= params.len(),
                                params.len() == arg_values.len(),
                                self.env.wf(),
                                self.limit() == old(self).limit(),
                                self.in_function == evaluated.in_function,
                                self.output@ == evaluated.output,
                                semantics::bind(
                                    self.env@,
                                    name_views(params@),
                                    value_views(arg_values@),
                                    i as int,
                                ) == semantics::bind(
                                    pushed,
                                    name_views(params@),
                                    value_views(arg_values@),
                                    0,
                                ),
                            decreases params.len() - i,
                        {
                            self.env.define(params[i].clone(), arg_values[i].clone());
                            i += 1;
                        }
                        // Execute function body
                        let was_in_function = self.in_function;
                        self.in_function = true;
                        let result = match self.execute_stmt_cf(&body, fuel) {
                            Ok(val) => Ok(val),
                            Err(ControlFlow::Return(val)) => Ok(val),
                            Err(ControlFlow::Error(e)) => Err(e),
                        };
                        self.in_function = was_in_function;
                        self.env.pop_scope();
                        result
                    },
                    _ => Err(RuntimeError::NotCallable { value_type: func.kind_name().to_string() }),
                }
            },
            _ => Err(RuntimeError::Custom("Can only call functions by name".to_string())),
        }
    }
}

/// The names of a list of parameters.
fn names_of(params: &Vec<Param>) -> (r: Vec<String>)
    ensures
        name_views(r@) == semantics::param_names(param_views(params@)),
{
    let mut out: Vec<String> = Vec::new();
    let mut i: usize = 0;
    while i < params.len()
        invariant
            i <= params.len(),
            out.len() == i,
            forall|j: int| 0 <= j < i ==> out[j]@ == params[j].name@,
        decreases params.len() - i,
    {
        out.push(params[i].name.clone());
        i += 1;
    }
    out
}

/// The element of an array at an index.
pub fn index_value(array: &Value, index: &Value) -> (r: RuntimeResult<Value>)
    ensures
        result_view(r) == semantics::index_result(array@, index@),
{
    match array {
        Value::Array(items) => {
            proof {
                Value::lemma_view_array(*items);
            }
            match index.as_number() {
                Some(idx) => {
                    if idx < 0 || idx as u64 >= items.len() as u64 {
                        return Err(
                            RuntimeError::IndexOutOfBounds { index: idx, length: items.len() },
                        );
                    }
                    Ok(items[idx as usize].clone())
                },
                None => Err(
                    RuntimeError::TypeMismatch {
                        operation: "array indexing".to_string(),
                        expected: "Int".to_string(),
                        found: index.kind_name().to_string(),
                    },
                ),
            }
        },
        _ => Err(RuntimeError::NotIndexable { value_type: array.kind_name().to_string() }),
    }
}

impl Default for Interpreter {
    fn default() -> (r: Self)
        ensures
            r.wf(),
            r@ == Machine::fresh(),
            r.limit() == DEFAULT_MAX_DEPTH,
    {
        Self::new()
    }
}

} // verus!
