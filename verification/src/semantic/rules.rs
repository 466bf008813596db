use vstd::prelude::*;
use crate::ast::{ExprView, LiteralView, ParamView, StmtView, Type};
use crate::semantic::symbol_table::{bound, exited, resolve, SymbolScope, SymbolView};
use crate::semantic::type_checker::TypeErrorView;

verus! {

/// The state of a check: the stack of scopes, the type that a `return` must
/// give (`None` outside any function), and the errors found so far.
pub struct Checking {
    pub scopes: Seq<SymbolScope>,
    pub expected_return: Option<Type>,
    pub errors: Seq<TypeErrorView>,
}

impl Checking {
    /// The state before anything was checked.
    pub open spec fn fresh() -> Checking {
        Checking {
            scopes: seq![Map::<Seq<char>, SymbolView>::empty()],
            expected_return: None,
            errors: Seq::empty(),
        }
    }

    pub open spec fn with_scopes(self, scopes: Seq<SymbolScope>) -> Checking {
        Checking { scopes, expected_return: self.expected_return, errors: self.errors }
    }

    pub open spec fn with_errors(self, errors: Seq<TypeErrorView>) -> Checking {
        Checking { scopes: self.scopes, expected_return: self.expected_return, errors }
    }
}

/// The outcome of checking a statement and the state it leaves.
pub struct Checked {
    pub result: Result<(), TypeErrorView>,
    pub state: Checking,
}

pub open spec fn function_as_value(name: Seq<char>) -> TypeErrorView {
    TypeErrorView::InvalidOperand("Cannot use function '"@ + name + "' as a value"@)
}

pub open spec fn empty_array_literal() -> TypeErrorView {
    TypeErrorView::InvalidOperand("Cannot infer the type of an empty array literal"@)
}

pub open spec fn not_an_array() -> TypeErrorView {
    TypeErrorView::InvalidOperand("Cannot index into a value that is not an array"@)
}

/// The type of a literal.
pub open spec fn literal_type(literal: LiteralView) -> Type {
    match literal {
        LiteralView::Number(_) => Type::Int,
        LiteralView::String(_) => Type::String,
        LiteralView::Char(_) => Type::Char,
        LiteralView::Bool(_) => Type::Bool,
    }
}

/// The type of an expression, or the first error in it.
///
/// The operands of a binary operator must have the same type, which is the
/// type of the result whatever the operator; a unary operator gives the type
/// of its operand. A call needs a name that is bound to a function, as many
/// arguments as parameters, and for each argument the type of its parameter.
/// The elements of an array literal all have the type of the first, and
/// there is at least one. An index is an `Int` into an array.
pub open spec fn infer(e: ExprView, scopes: Seq<SymbolScope>) -> Result<Type, TypeErrorView>
    decreases e, 0nat,
{
    match e {
        ExprView::Literal(literal) => Ok(literal_type(literal)),
        ExprView::Variable(name) => match resolve(scopes, name) {
            None => Err(TypeErrorView::UndefinedVariable(name)),
            Some(SymbolView::Variable(t)) => Ok(t),
            Some(SymbolView::Function { .. }) => Err(function_as_value(name)),
        },
        ExprView::Binary { left, op, right } => match infer(*left, scopes) {
            Err(e) => Err(e),
            Ok(lt) => match infer(*right, scopes) {
                Err(e) => Err(e),
                Ok(rt) => if lt != rt {
                    Err(TypeErrorView::TypeMismatch { expected: lt, found: rt })
                } else {
                    Ok(lt)
                },
            },
        },
        ExprView::Unary { op, right } => infer(*right, scopes),
        ExprView::Call { callee, args } => match *callee {
            ExprView::Variable(name) => match resolve(scopes, name) {
                None => Err(TypeErrorView::UndefinedVariable(name)),
                Some(SymbolView::Variable(_)) => Err(TypeErrorView::NotCallable),
                Some(SymbolView::Function { params, return_type }) => if params.len()
                    != args.len() {
                    Err(
                        TypeErrorView::ArgumentCountMismatch {
                            expected: params.len(),
                            found: args.len(),
                        },
                    )
                } else {
                    match check_arguments(args, params, 0, scopes) {
                        Err(e) => Err(e),
                        Ok(_) => Ok(return_type),
                    }
                },
            },
            _ => Err(TypeErrorView::InvalidCallTarget),
        },
        ExprView::ArrayAccess { array, index } => match infer(*array, scopes) {
            Err(e) => Err(e),
            Ok(at) => match infer(*index, scopes) {
                Err(e) => Err(e),
                Ok(it) => match at {
                    Type::Array(element) => if it != Type::Int {
                        Err(TypeErrorView::TypeMismatch { expected: Type::Int, found: it })
                    } else {
                        Ok(*element)
                    },
                    _ => Err(not_an_array()),
                },
            },
        },
        ExprView::ArrayLiteral(elements) => if elements.len() == 0 {
            Err(empty_array_literal())
        } else {
            match infer(elements[0], scopes) {
                Err(e) => Err(e),
                Ok(first) => match check_elements(elements, first, 1, scopes) {
                    Err(e) => Err(e),
                    Ok(_) => Ok(Type::Array(Box::new(first))),
                },
            }
        },
    }
}

/// Checks the arguments from position `i` on, from left to right, each
/// against the parameter type at its position.
pub open spec fn check_arguments(
    args: Seq<ExprView>,
    params: Seq<Type>,
    i: int,
    scopes: Seq<SymbolScope>,
) -> Result<(), TypeErrorView>
    decreases args, args.len() - i,
{
    if i < 0 || i >= args.len() || i >= params.len() {
        Ok(())
    } else {
        match infer(args[i], scopes) {
            Err(e) => Err(e),
            Ok(t) => if t != params[i] {
                Err(
                    TypeErrorView::ArgumentTypeMismatch {
                        position: i as nat,
                        expected: params[i],
                        found: t,
                    },
                )
            } else {
                check_arguments(args, params, i + 1, scopes)
            },
        }
    }
}

/// Checks that the elements from position `i` on have the type `first`.
pub open spec fn check_elements(
    elements: Seq<ExprView>,
    first: Type,
    i: int,
    scopes: Seq<SymbolScope>,
) -> Result<(), TypeErrorView>
    decreases elements, elements.len() - i,
{
    if i < 0 || i >= elements.len() {
        Ok(())
    } else {
        match infer(elements[i], scopes) {
            Err(e) => Err(e),
            Ok(t) => if t != first {
                Err(TypeErrorView::TypeMismatch { expected: first, found: t })
            } else {
                check_elements(elements, first, i + 1, scopes)
            },
        }
    }
}

/// The type that a function returns: the declared one, or `Void`.
pub open spec fn declared_return(return_type: Option<Type>) -> Type {
    match return_type {
        Some(t) => t,
        None => Type::Void,
    }
}

/// The declared types of a list of parameters.
pub open spec fn param_types(params: Seq<ParamView>) -> Seq<Type> {
    Seq::new(params.len(), |i: int| params[i].type_annotation)
}

/// The scopes after the parameters from `i` on are bound as variables in the
/// innermost scope.
pub open spec fn bind_params(scopes: Seq<SymbolScope>, params: Seq<ParamView>, i: int) -> Seq<
    SymbolScope,
>
    decreases params.len() - i,
{
    if i < 0 || i >= params.len() {
        scopes
    } else {
        bind_params(
            bound(scopes, params[i].name, SymbolView::Variable(params[i].type_annotation)),
            params,
            i + 1,
        )
    }
}

/// Checks a statement in a scope of its own, which is left whatever the
/// outcome.
pub open spec fn check_scoped(s: StmtView, c: Checking) -> Checked
    decreases s, 1nat,
{
    let inner = check_stmt(
        s,
        c.with_scopes(c.scopes.push(Map::<Seq<char>, SymbolView>::empty())),
    );
    Checked { result: inner.result, state: inner.state.with_scopes(exited(inner.state.scopes)) }
}

/// Checks a statement: the outcome is success or the first error in it.
///
/// A declaration binds its name to the type of its initializer, which must
/// be the declared type where there is one. An assignment needs a variable
/// that is already bound and a value of its type. A condition must be a
/// `Bool`, and each branch is checked in a scope of its own. A `return` must
/// stand in a function and give the type that the function declares, `Void`
/// where it declares none. A function is bound in the enclosing scope before
/// its body is checked, and its body sees the parameters in a scope of its
/// own. A block is checked statement by statement in a scope of its own.
pub open spec fn check_stmt(s: StmtView, c: Checking) -> Checked
    decreases s, 0nat,
{
    match s {
        StmtView::Expression(e) => Checked {
            result: match infer(e, c.scopes) {
                Err(e) => Err(e),
                Ok(_) => Ok(()),
            },
            state: c,
        },
        StmtView::Let { name, type_annotation, value } => match infer(value, c.scopes) {
            Err(e) => Checked { result: Err(e), state: c },
            Ok(vt) => if type_annotation matches Some(expected) && expected != vt {
                Checked {
                    result: Err(
                        TypeErrorView::TypeMismatch { expected: type_annotation->0, found: vt },
                    ),
                    state: c,
                }
            } else {
                Checked {
                    result: Ok(()),
                    state: c.with_scopes(bound(c.scopes, name, SymbolView::Variable(vt))),
                }
            },
        },
        StmtView::Assignment { name, value } => Checked {
            result: match resolve(c.scopes, name) {
                None => Err(TypeErrorView::UndefinedVariable(name)),
                Some(SymbolView::Function { .. }) => Err(
                    TypeErrorView::CannotAssignToFunction(name),
                ),
                Some(SymbolView::Variable(t)) => match infer(value, c.scopes) {
                    Err(e) => Err(e),
                    Ok(vt) => if t != vt {
                        Err(TypeErrorView::TypeMismatch { expected: t, found: vt })
                    } else {
                        Ok(())
                    },
                },
            },
            state: c,
        },
        StmtView::Block(items) => {
            let inner = check_block(
                items,
                0,
                c.with_scopes(c.scopes.push(Map::<Seq<char>, SymbolView>::empty())),
            );
            Checked {
                result: inner.result,
                state: inner.state.with_scopes(exited(inner.state.scopes)),
            }
        },
        StmtView::If { condition, then_branch, else_branch } => match infer(condition, c.scopes) {
            Err(e) => Checked { result: Err(e), state: c },
            Ok(ct) => if ct != Type::Bool {
                Checked {
                    result: Err(TypeErrorView::TypeMismatch { expected: Type::Bool, found: ct }),
                    state: c,
                }
            } else {
                let first = check_scoped(*then_branch, c);
                match first.result {
                    Err(_) => first,
                    Ok(_) => match else_branch {
                        Some(other) => check_scoped(*other, first.state),
                        None => first,
                    },
                }
            },
        },
        StmtView::Return(value) => Checked {
            result: match (
                match value {
                    Some(e) => infer(e, c.scopes),
                    None => Ok(Type::Void),
                }
            ) {
                Err(e) => Err(e),
                Ok(rt) => if c.expected_return == Some(rt) {
                    Ok(())
                } else {
                    Err(TypeErrorView::ReturnTypeMismatch)
                },
            },
            state: c,
        },
        StmtView::FunctionDecl { name, params, return_type, body } => {
            let result_type = declared_return(return_type);
            let declared = bound(
                c.scopes,
                name,
                SymbolView::Function { params: param_types(params), return_type: result_type },
            );
            let entered = Checking {
                scopes: bind_params(
                    declared.push(Map::<Seq<char>, SymbolView>::empty()),
                    params,
                    0,
                ),
                expected_return: Some(result_type),
                errors: c.errors,
            };
            let inner = check_stmt(*body, entered);
            Checked {
                result: inner.result,
                state: Checking {
                    scopes: exited(inner.state.scopes),
                    expected_return: c.expected_return,
                    errors: inner.state.errors,
                },
            }
        },
    }
}

/// Checks the statements of a block from `i` on, up to the first error.
pub open spec fn check_block(items: Seq<StmtView>, i: int, c: Checking) -> Checked
    decreases items, items.len() - i,
{
    if i < 0 || i >= items.len() {
        Checked { result: Ok(()), state: c }
    } else {
        let one = check_stmt(items[i], c);
        match one.result {
            Err(_) => one,
            Ok(_) => check_block(items, i + 1, one.state),
        }
    }
}

/// Checks the top-level statements from `i` on. An error in one of them is
/// recorded, and the check goes on with the next.
pub open spec fn check_all(items: Seq<StmtView>, i: int, c: Checking) -> Checking
    decreases items.len() - i,
{
    if i < 0 || i >= items.len() {
        c
    } else {
        let one = check_stmt(items[i], c);
        check_all(
            items,
            i + 1,
            match one.result {
                Err(e) => one.state.with_errors(one.state.errors.push(e)),
                Ok(_) => one.state,
            },
        )
    }
}

proof fn lemma_bind_params_keeps_depth(scopes: Seq<SymbolScope>, params: Seq<ParamView>, i: int)
    ensures
        bind_params(scopes, params, i).len() == scopes.len(),
    decreases params.len() - i,
{
    if !(i < 0 || i >= params.len()) {
        lemma_bind_params_keeps_depth(
            bound(scopes, params[i].name, SymbolView::Variable(params[i].type_annotation)),
            params,
            i + 1,
        );
    }
}

/// Checking a statement leaves as many scopes as it found, and the expected
/// return type and the recorded errors as they were, whether it succeeds or
/// fails.
pub proof fn lemma_check_stmt_balanced(s: StmtView, c: Checking)
    requires
        c.scopes.len() >= 1,
    ensures
        check_stmt(s, c).state.scopes.len() == c.scopes.len(),
        check_stmt(s, c).state.expected_return == c.expected_return,
        check_stmt(s, c).state.errors == c.errors,
    decreases s, 0nat,
{
    match s {
        StmtView::Block(items) => {
            lemma_check_block_balanced(
                items,
                0,
                c.with_scopes(c.scopes.push(Map::<Seq<char>, SymbolView>::empty())),
            );
        },
        StmtView::If { condition, then_branch, else_branch } => {
            lemma_check_scoped_balanced(*then_branch, c);
            if let Some(other) = else_branch {
                lemma_check_scoped_balanced(*other, check_scoped(*then_branch, c).state);
            }
        },
        StmtView::FunctionDecl { name, params, return_type, body } => {
            let result_type = declared_return(return_type);
            let declared = bound(
                c.scopes,
                name,
                SymbolView::Function { params: param_types(params), return_type: result_type },
            );
            let pushed = declared.push(Map::<Seq<char>, SymbolView>::empty());
            lemma_bind_params_keeps_depth(pushed, params, 0);
            lemma_check_stmt_balanced(
                *body,
                Checking {
                    scopes: bind_params(pushed, params, 0),
                    expected_return: Some(result_type),
                    errors: c.errors,
                },
            );
        },
        _ => {},
    }
}

/// Checking a statement in a scope of its own leaves as many scopes as it
/// found.
pub proof fn lemma_check_scoped_balanced(s: StmtView, c: Checking)
    requires
        c.scopes.len() >= 1,
    ensures
        check_scoped(s, c).state.scopes.len() == c.scopes.len(),
        check_scoped(s, c).state.expected_return == c.expected_return,
        check_scoped(s, c).state.errors == c.errors,
    decreases s, 1nat,
{
    lemma_check_stmt_balanced(
        s,
        c.with_scopes(c.scopes.push(Map::<Seq<char>, SymbolView>::empty())),
    );
}

/// Checking the statements of a block leaves as many scopes as it found.
pub proof fn lemma_check_block_balanced(items: Seq<StmtView>, i: int, c: Checking)
    requires
        c.scopes.len() >= 1,
    ensures
        check_block(items, i, c).state.scopes.len() == c.scopes.len(),
        check_block(items, i, c).state.expected_return == c.expected_return,
        check_block(items, i, c).state.errors == c.errors,
    decreases items, items.len() - i,
{
    if !(i < 0 || i >= items.len()) {
        lemma_check_stmt_balanced(items[i], c);
        let one = check_stmt(items[i], c);
        if one.result is Ok {
            lemma_check_block_balanced(items, i + 1, one.state);
        }
    }
}

} // verus!
