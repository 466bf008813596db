use vstd::prelude::*;
use crate::ast::{expr_views, param_views, stmt_views, Expr, Literal, Param, Stmt, Type};
use crate::semantic::rules;
use crate::semantic::rules::{Checked, Checking};
use crate::semantic::symbol_table::{Symbol, SymbolTable};
use crate::text::{decimal_digits, push_decimal, push_text};

verus! {

#[derive(Debug, PartialEq)]
#[allow(inconsistent_fields)]
pub enum TypeError {
    UndefinedVariable(String),
    TypeMismatch { expected: Type, found: Type },
    InvalidOperand(String),
    ReturnTypeMismatch,
    CannotAssignToFunction(String),
    ArgumentCountMismatch { expected: usize, found: usize },
    ArgumentTypeMismatch { position: usize, expected: Type, found: Type },
    NotCallable,
    InvalidCallTarget,
}

/// The mathematical value of a [`TypeError`].
#[allow(inconsistent_fields)]
pub enum TypeErrorView {
    UndefinedVariable(Seq<char>),
    TypeMismatch { expected: Type, found: Type },
    InvalidOperand(Seq<char>),
    ReturnTypeMismatch,
    CannotAssignToFunction(Seq<char>),
    ArgumentCountMismatch { expected: nat, found: nat },
    ArgumentTypeMismatch { position: nat, expected: Type, found: Type },
    NotCallable,
    InvalidCallTarget,
}

impl View for TypeError {
    type V = TypeErrorView;

    open spec fn view(&self) -> TypeErrorView {
        match self {
            TypeError::UndefinedVariable(name) => TypeErrorView::UndefinedVariable(name@),
            TypeError::TypeMismatch { expected, found } => TypeErrorView::TypeMismatch {
                expected: *expected,
                found: *found,
            },
            TypeError::InvalidOperand(message) => TypeErrorView::InvalidOperand(message@),
            TypeError::ReturnTypeMismatch => TypeErrorView::ReturnTypeMismatch,
            TypeError::CannotAssignToFunction(name) => TypeErrorView::CannotAssignToFunction(
                name@,
            ),
            TypeError::ArgumentCountMismatch { expected, found } => {
                TypeErrorView::ArgumentCountMismatch {
                    expected: *expected as nat,
                    found: *found as nat,
                }
            },
            TypeError::ArgumentTypeMismatch { position, expected, found } => {
                TypeErrorView::ArgumentTypeMismatch {
                    position: *position as nat,
                    expected: *expected,
                    found: *found,
                }
            },
            TypeError::NotCallable => TypeErrorView::NotCallable,
            TypeError::InvalidCallTarget => TypeErrorView::InvalidCallTarget,
        }
    }
}

impl TypeErrorView {
    /// The one line that describes the error.
    pub open spec fn message(self) -> Seq<char> {
        "Type error: "@ + match self {
            TypeErrorView::UndefinedVariable(name) => "Undefined variable '"@ + name + "'"@,
            TypeErrorView::TypeMismatch { expected, found } => "Type mismatch: expected "@
                + expected.spelling() + ", found "@ + found.spelling(),
            TypeErrorView::InvalidOperand(message) => "Invalid operand: "@ + message,
            TypeErrorView::ReturnTypeMismatch => "Return type mismatch"@,
            TypeErrorView::CannotAssignToFunction(name) => "Cannot assign to function '"@ + name
                + "'"@,
            TypeErrorView::ArgumentCountMismatch { expected, found } => "Expected "@
                + decimal_digits(expected) + " arguments, found "@ + decimal_digits(found),
            TypeErrorView::ArgumentTypeMismatch { position, expected, found } => "Argument "@
                + decimal_digits(position) + ": expected "@ + expected.spelling() + ", found "@
                + found.spelling(),
            TypeErrorView::NotCallable => "Value is not callable"@,
            TypeErrorView::InvalidCallTarget => "Invalid call target"@,
        }
    }
}

impl TypeError {
    /// The one line that describes the error.
    pub fn to_string(&self) -> (r: String)
        ensures
            r@ == self@.message(),
    {
        let mut s = String::new();
        push_text(&mut s, "Type error: ");
        match self {
            TypeError::UndefinedVariable(name) => {
                push_text(&mut s, "Undefined variable '");
                push_text(&mut s, name.as_str());
                push_text(&mut s, "'");
            },
            TypeError::TypeMismatch { expected, found } => {
                push_text(&mut s, "Type mismatch: expected ");
                expected.write_spelling(&mut s);
                push_text(&mut s, ", found ");
                found.write_spelling(&mut s);
            },
            TypeError::InvalidOperand(message) => {
                push_text(&mut s, "Invalid operand: ");
                push_text(&mut s, message.as_str());
            },
            TypeError::ReturnTypeMismatch => {
                push_text(&mut s, "Return type mismatch");
            },
            TypeError::CannotAssignToFunction(name) => {
                push_text(&mut s, "Cannot assign to function '");
                push_text(&mut s, name.as_str());
                push_text(&mut s, "'");
            },
            TypeError::ArgumentCountMismatch { expected, found } => {
                push_text(&mut s, "Expected ");
                push_decimal(&mut s, *expected as u64);
                push_text(&mut s, " arguments, found ");
                push_decimal(&mut s, *found as u64);
            },
            TypeError::ArgumentTypeMismatch { position, expected, found } => {
                push_text(&mut s, "Argument ");
                push_decimal(&mut s, *position as u64);
                push_text(&mut s, ": expected ");
                expected.write_spelling(&mut s);
                push_text(&mut s, ", found ");
                found.write_spelling(&mut s);
            },
            TypeError::NotCallable => {
                push_text(&mut s, "Value is not callable");
            },
            TypeError::InvalidCallTarget => {
                push_text(&mut s, "Invalid call target");
            },
        }
        s
    }
}

impl Clone for TypeError {
    fn clone(&self) -> (r: Self)
        ensures
            r@ == self@,
    {
        match self {
            TypeError::UndefinedVariable(name) => TypeError::UndefinedVariable(name.clone()),
            TypeError::TypeMismatch { expected, found } => TypeError::TypeMismatch {
                expected: expected.clone(),
                found: found.clone(),
            },
            TypeError::InvalidOperand(message) => TypeError::InvalidOperand(message.clone()),
            TypeError::ReturnTypeMismatch => TypeError::ReturnTypeMismatch,
            TypeError::CannotAssignToFunction(name) => TypeError::CannotAssignToFunction(
                name.clone(),
            ),
            TypeError::ArgumentCountMismatch { expected, found } => {
                TypeError::ArgumentCountMismatch { expected: *expected, found: *found }
            },
            TypeError::ArgumentTypeMismatch { position, expected, found } => {
                TypeError::ArgumentTypeMismatch {
                    position: *position,
                    expected: expected.clone(),
                    found: found.clone(),
                }
            },
            TypeError::NotCallable => TypeError::NotCallable,
            TypeError::InvalidCallTarget => TypeError::InvalidCallTarget,
        }
    }
}

/// The values of a sequence of type errors.
pub open spec fn error_views(errors: Seq<TypeError>) -> Seq<TypeErrorView> {
    Seq::new(errors.len(), |i: int| errors[i]@)
}

/// The outcome that the result of an inference stands for.
pub open spec fn inferred_view(r: Result<Type, TypeError>) -> Result<Type, TypeErrorView> {
    match r {
        Ok(t) => Ok(t),
        Err(e) => Err(e@),
    }
}

/// The outcome that the result of a check stands for.
pub open spec fn checked_view(r: Result<(), TypeError>) -> Result<(), TypeErrorView> {
    match r {
        Ok(_) => Ok(()),
        Err(e) => Err(e@),
    }
}

/// Checks that a program is well typed, against a table of the symbols in
/// scope.
pub struct TypeChecker {
    symbol_table: SymbolTable,
    current_function_return_type: Option<Type>,
    errors: Vec<TypeError>,
}

impl View for TypeChecker {
    type V = Checking;

    closed spec fn view(&self) -> Checking {
        Checking {
            scopes: self.symbol_table@,
            expected_return: self.current_function_return_type,
            errors: error_views(self.errors@),
        }
    }
}

fn clone_errors(errors: &Vec<TypeError>) -> (r: Vec<TypeError>)
    ensures
        error_views(r@) == error_views(errors@),
{
    let mut out: Vec<TypeError> = Vec::new();
    let mut i: usize = 0;
    while i < errors.len()
        invariant
            i <= errors.len(),
            out.len() == i,
            forall|j: int| 0 <= j < i ==> out[j]@ == errors[j]@,
        decreases errors.len() - i,
    {
        out.push(errors[i].clone());
        i += 1;
    }
    out
}

fn types_of(params: &Vec<Param>) -> (r: Vec<Type>)
    ensures
        r@ == rules::param_types(param_views(params@)),
{
    let mut out: Vec<Type> = Vec::new();
    let mut i: usize = 0;
    while i < params.len()
        invariant
            i <= params.len(),
            out.len() == i,
            forall|j: int| 0 <= j < i ==> out[j] == params[j].type_annotation,
        decreases params.len() - i,
    {
        out.push(params[i].type_annotation.clone());
        i += 1;
    }
    out
}

fn function_as_value(name: &str) -> (e: TypeError)
    ensures
        e@ == rules::function_as_value(name@),
{
    let mut message = String::new();
    push_text(&mut message, "Cannot use function '");
    push_text(&mut message, name);
    push_text(&mut message, "' as a value");
    TypeError::InvalidOperand(message)
}

impl TypeChecker {
    /// The symbol table always has its global scope.
    pub closed spec fn wf(&self) -> bool {
        self.symbol_table.wf()
    }

    pub proof fn lemma_wf_depth(&self)
        requires
            self.wf(),
        ensures
            self@.scopes.len() >= 1,
    {
        self.symbol_table.lemma_wf_depth();
    }

    pub fn new() -> (r: Self)
        ensures
            r.wf(),
            r@ == Checking::fresh(),
    {
        let r = TypeChecker {
            symbol_table: SymbolTable::new(),
            current_function_return_type: None,
            errors: Vec::new(),
        };
        assert(error_views(r.errors@) =~= Seq::<TypeErrorView>::empty());
        r
    }

    /// The number of scopes of the symbol table.
    pub fn scope_depth(&self) -> (r: usize)
        ensures
            r == self@.scopes.len(),
    {
        self.symbol_table.depth()
    }

    /// Checks the statements of a program in order. An error in a top-level
    /// statement is recorded and the check goes on with the next statement;
    /// the result is `Ok` where this checker has recorded no error, and all
    /// the errors it has recorded otherwise.
    pub fn check_program(&mut self, stmts: &[Stmt]) -> (r: Result<(), Vec<TypeError>>)
        requires
            old(self).wf(),
        ensures
            final(self).wf(),
            final(self)@ == rules::check_all(stmt_views(stmts@), 0, old(self)@),
            match r {
                Ok(_) => final(self)@.errors.len() == 0,
                Err(errors) => errors.len() > 0 && error_views(errors@) == final(self)@.errors,
            },
    {
        let ghost views = stmt_views(stmts@);
        let mut i: usize = 0;
        while i < stmts.len()
            invariant
                i <= stmts.len(),
                self.wf(),
                views == stmt_views(stmts@),
                rules::check_all(views, i as int, self@) == rules::check_all(views, 0, old(self)@),
            decreases stmts.len() - i,
        {
            let ghost before = self@;
            let ghost recorded = error_views(self.errors@);
            proof {
                self.lemma_wf_depth();
            }
            match self.check_stmt(&stmts[i]) {
                Ok(_) => {},
                Err(e) => {
                    self.errors.push(e);
                    proof {
                        rules::lemma_check_stmt_balanced(views[i as int], before);
                        assert(error_views(self.errors@) =~= recorded.push(e@));
                    }
                },
            }
            i += 1;
        }
        assert(error_views(self.errors@).len() == self.errors.len());
        if self.errors.len() == 0 {
            Ok(())
        } else {
            Err(clone_errors(&self.errors))
        }
    }

    /// Checks a statement in a scope of its own.
    fn check_scoped(&mut self, stmt: &Stmt) -> (r: Result<(), TypeError>)
        requires
            old(self).wf(),
        ensures
            final(self).wf(),
            (Checked { result: checked_view(r), state: final(self)@ }) == rules::check_scoped(
                stmt@,
                old(self)@,
            ),
        decreases stmt, 1nat,
    {
        self.symbol_table.enter_scope();
        let r = self.check_stmt(stmt);
        self.symbol_table.exit_scope();
        r
    }

    fn check_stmt(&mut self, stmt: &Stmt) -> (r: Result<(), TypeError>)
        requires
            old(self).wf(),
        ensures
            final(self).wf(),
            (Checked { result: checked_view(r), state: final(self)@ }) == rules::check_stmt(
                stmt@,
                old(self)@,
            ),
        decreases stmt, 0nat,
    {
        match stmt {
            Stmt::Let { name, type_annotation, value } => {
                let value_type = match self.infer_expr(value) {
                    Ok(t) => t,
                    Err(e) => {
                        return Err(e);
                    },
                };
                if let Some(expected_type) = type_annotation {
                    if !expected_type.same(&value_type) {
                        return Err(
                            TypeError::TypeMismatch {
                                expected: expected_type.clone(),
                                found: value_type,
                            },
                        );
                    }
                }
                self.symbol_table.define(name.clone(), Symbol::Variable(value_type));
                Ok(())
            },
            Stmt::Return(expr_opt) => {
                let return_type = match expr_opt {
                    Some(expr) => match self.infer_expr(expr) {
                        Ok(t) => t,
                        Err(e) => {
                            return Err(e);
                        },
                    },
                    None => Type::Void,
                };
                match &self.current_function_return_type {
                    Some(expected) => {
                        if expected.same(&return_type) {
                            Ok(())
                        } else {
                            Err(TypeError::ReturnTypeMismatch)
                        }
                    },
                    None => Err(TypeError::ReturnTypeMismatch),
                }
            },
            Stmt::FunctionDecl { name, params, return_type, body } => {
                // Register the function in the current scope first
                let result_type = match return_type {
                    Some(t) => t.clone(),
                    None => Type::Void,
                };
                self.symbol_table.define(
                    name.clone(),
                    Symbol::Function { params: types_of(params), return_type: result_type.clone() },
                );
                self.symbol_table.enter_scope();
                let ghost pushed = self.symbol_table@;
                let mut i: usize = 0;
                while i < params.len()
                    invariant
                        i <= params.len(),
                        self.symbol_table.wf(),
                        self.current_function_return_type == old(
                            self,
                        ).current_function_return_type,
                        self.errors == old(self).errors,
                        rules::bind_params(self.symbol_table@, param_views(params@), i as int)
                            == rules::bind_params(pushed, param_views(params@), 0),
                    decreases params.len() - i,
                {
                    self.symbol_table.define(
                        params[i].name.clone(),
                        Symbol::Variable(params[i].type_annotation.clone()),
                    );
                    i += 1;
                }
                let enclosing = self.current_function_return_type.take();
                self.current_function_return_type = Some(result_type);
                let r = self.check_stmt(body);
                self.symbol_table.exit_scope();
                self.current_function_return_type = enclosing;
                r
            },
            Stmt::Block(stmts) => {
                proof {
                    Stmt::lemma_view_block(*stmts);
                }
                self.symbol_table.enter_scope();
                let ghost views = stmt_views(stmts@);
                let ghost entered = self@;
                let mut result: Result<(), TypeError> = Ok(());
                let mut i: usize = 0;
                while i < stmts.len()
                    invariant_except_break
                        result is Ok,
                        rules::check_block(views, i as int, self@) == rules::check_block(
                            views,
                            0,
                            entered,
                        ),
                    invariant
                        i <= stmts.len(),
                        self.wf(),
                        *stmt == Stmt::Block(*stmts),
                        views == stmt_views(stmts@),
                    ensures
                        (Checked { result: checked_view(result), state: self@ })
                            == rules::check_block(views, 0, entered),
                    decreases stmts.len() - i,
                {
                    proof {
                        assert(decreases_to!(*stmt => stmt->Block_0));
                        vstd::std_specs::vec::axiom_vec_index_decreases(*stmts, i as int);
                    }
                    match self.check_stmt(&stmts[i]) {
                        Ok(_) => {},
                        Err(e) => {
                            result = Err(e);
                            break ;
                        },
                    }
                    i += 1;
                }
                self.symbol_table.exit_scope();
                result
            },
            Stmt::Expression(expr) => {
                match self.infer_expr(expr) {
                    Ok(_) => Ok(()),
                    Err(e) => Err(e),
                }
            },
            Stmt::Assignment { name, value } => {
                let var_type = match self.symbol_table.get(name.as_str()) {
                    None => {
                        return Err(TypeError::UndefinedVariable(name.clone()));
                    },
                    Some(Symbol::Function { .. }) => {
                        return Err(TypeError::CannotAssignToFunction(name.clone()));
                    },
                    Some(Symbol::Variable(ty)) => ty,
                };
                let value_type = match self.infer_expr(value) {
                    Ok(t) => t,
                    Err(e) => {
                        return Err(e);
                    },
                };
                if !var_type.same(&value_type) {
                    return Err(TypeError::TypeMismatch { expected: var_type, found: value_type });
                }
                Ok(())
            },
            Stmt::If { condition, then_branch, else_branch } => {
                let cond_type = match self.infer_expr(condition) {
                    Ok(t) => t,
                    Err(e) => {
                        return Err(e);
                    },
                };
                if !cond_type.same(&Type::Bool) {
                    return Err(TypeError::TypeMismatch { expected: Type::Bool, found: cond_type });
                }
                match self.check_scoped(then_branch) {
                    Ok(_) => {},
                    Err(e) => {
                        return Err(e);
                    },
                }
                match else_branch {
                    Some(else_stmt) => self.check_scoped(else_stmt),
                    None => Ok(()),
                }
            },
        }
    }

    /// The type of an expression, or the first error in it.
    pub fn infer_expr(&self, expr: &Expr) -> (r: Result<Type, TypeError>)
        requires
            self.wf(),
        ensures
            inferred_view(r) == rules::infer(expr@, self@.scopes),
        decreases expr,
    {
        match expr {
            Expr::Literal(Literal::Number(_)) => Ok(Type::Int),
            Expr::Literal(Literal::Bool(_)) => Ok(Type::Bool),
            Expr::Literal(Literal::String(_)) => Ok(Type::String),
            Expr::Literal(Literal::Char(_)) => Ok(Type::Char),
            Expr::Variable(name) => {
                match self.symbol_table.get(name.as_str()) {
                    None => Err(TypeError::UndefinedVariable(name.clone())),
                    Some(Symbol::Variable(ty)) => Ok(ty),
                    Some(Symbol::Function { .. }) => Err(function_as_value(name.as_str())),
                }
            },
            Expr::Binary { left, op, right } => {
                let left_type = match self.infer_expr(left) {
                    Ok(t) => t,
                    Err(e) => {
                        return Err(e);
                    },
                };
                let right_type = match self.infer_expr(right) {
                    Ok(t) => t,
                    Err(e) => {
                        return Err(e);
                    },
                };
                if !left_type.same(&right_type) {
                    return Err(TypeError::TypeMismatch { expected: left_type, found: right_type });
                }
                Ok(left_type)
            },
            Expr::Unary { op, right } => self.infer_expr(right),
            Expr::Call { callee, args } => {
                proof {
                    Expr::lemma_view_call(*callee, *args);
                }
                let name = match &**callee {
                    Expr::Variable(name) => name,
                    _ => {
                        return Err(TypeError::InvalidCallTarget);
                    },
                };
                match self.symbol_table.get(name.as_str()) {
                    None => Err(TypeError::UndefinedVariable(name.clone())),
                    Some(Symbol::Variable(_)) => Err(TypeError::NotCallable),
                    Some(Symbol::Function { params, return_type }) => {
                        if params.len() != args.len() {
                            return Err(
                                TypeError::ArgumentCountMismatch {
                                    expected: params.len(),
                                    found: args.len(),
                                },
                            );
                        }
                        let ghost views = expr_views(args@);
                        let ghost goal = rules::infer(expr@, self@.scopes);
                        let mut i: usize = 0;
                        while i < args.len()
                            invariant
                                i <= args.len(),
                                goal == rules::infer(expr@, self@.scopes),
                                goal == (match rules::check_arguments(
                                    views,
                                    params@,
                                    0,
                                    self@.scopes,
                                ) {
                                    Err(e) => Err(e),
                                    Ok(_) => Ok(return_type),
                                }),
                                params.len() == args.len(),
                                self.wf(),
                                expr is Call,
                                expr->Call_args == *args,
                                views == expr_views(args@),
                                rules::check_arguments(views, params@, i as int, self@.scopes)
                                    == rules::check_arguments(views, params@, 0, self@.scopes),
                            decreases args.len() - i,
                        {
                            proof {
                                vstd::std_specs::vec::axiom_vec_index_decreases(*args, i as int);
                            }
                            let arg_type = match self.infer_expr(&args[i]) {
                                Ok(t) => t,
                                Err(e) => {
                                    return Err(e);
                                },
                            };
                            if !arg_type.same(&params[i]) {
                                return Err(
                                    TypeError::ArgumentTypeMismatch {
                                        position: i,
                                        expected: params[i].clone(),
                                        found: arg_type,
                                    },
                                );
                            }
                            i += 1;
                        }
                        Ok(return_type)
                    },
                }
            },
            Expr::ArrayAccess { array, index } => {
                let array_type = match self.infer_expr(array) {
                    Ok(t) => t,
                    Err(e) => {
                        return Err(e);
                    },
                };
                let index_type = match self.infer_expr(index) {
                    Ok(t) => t,
                    Err(e) => {
                        return Err(e);
                    },
                };
                match array_type {
                    Type::Array(element) => {
                        if !index_type.same(&Type::Int) {
                            return Err(
                                TypeError::TypeMismatch { expected: Type::Int, found: index_type },
                            );
                        }
                        Ok(*element)
                    },
                    _ => Err(
                        TypeError::InvalidOperand(
                            "Cannot index into a value that is not an array".to_string(),
                        ),
                    ),
                }
            },
            Expr::ArrayLiteral(elements) => {
                proof {
                    Expr::lemma_view_array_literal(*elements);
                }
                if elements.len() == 0 {
                    return Err(
                        TypeError::InvalidOperand(
                            "Cannot infer the type of an empty array literal".to_string(),
                        ),
                    );
                }
                proof {
                    vstd::std_specs::vec::axiom_vec_index_decreases(*elements, 0);
                }
                let first = match self.infer_expr(&elements[0]) {
                    Ok(t) => t,
                    Err(e) => {
                        return Err(e);
                    },
                };
                let ghost views = expr_views(elements@);
                let ghost goal = rules::infer(expr@, self@.scopes);
                let mut i: usize = 1;
                while i < elements.len()
                    invariant
                        1 <= i <= elements.len(),
                        goal == rules::infer(expr@, self@.scopes),
                        goal == (match rules::check_elements(views, first, 1, self@.scopes) {
                            Err(e) => Err(e),
                            Ok(_) => Ok(Type::Array(Box::new(first))),
                        }),
                        self.wf(),
                        expr is ArrayLiteral,
                        expr->ArrayLiteral_0 == *elements,
                        views == expr_views(elements@),
                        rules::check_elements(views, first, i as int, self@.scopes)
                            == rules::check_elements(views, first, 1, self@.scopes),
                    decreases elements.len() - i,
                {
                    proof {
                        vstd::std_specs::vec::axiom_vec_index_decreases(*elements, i as int);
                    }
                    let element_type = match self.infer_expr(&elements[i]) {
                        Ok(t) => t,
                        Err(e) => {
                            return Err(e);
                        },
                    };
                    if !element_type.same(&first) {
                        return Err(
                            TypeError::TypeMismatch { expected: first, found: element_type },
                        );
                    }
                    i += 1;
                }
                Ok(Type::Array(Box::new(first)))
            },
        }
    }
}

impl Default for TypeChecker {
    fn default() -> (r: Self)
        ensures
            r.wf(),
            r@ == Checking::fresh(),
    {
        Self::new()
    }
}

} // verus!
