use vstd::prelude::*;
use crate::text::{decimal_digits, int_text, push_decimal, push_int, push_text};
use crate::vm::value::Value;

verus! {

pub type RuntimeResult<T> = Result<T, RuntimeError>;

/// The faults that stop a run.
#[derive(Debug, PartialEq)]
#[allow(inconsistent_fields)]
pub enum RuntimeError {
    /// Variable not found in any scope
    UndefinedVariable { name: String },
    /// Function not found
    UndefinedFunction { name: String },
    /// An operation met a value of the wrong type
    TypeMismatch { operation: String, expected: String, found: String },
    DivisionByZero,
    ModuloByZero,
    /// An index below zero or not below the length of the array
    IndexOutOfBounds { index: i64, length: usize },
    /// Trying to index a non-array value
    NotIndexable { value_type: String },
    /// Trying to call a non-function value
    NotCallable { value_type: String },
    /// Wrong number of arguments in function call
    ArgumentCountMismatch { expected: usize, found: usize, function_name: String },
    /// Calls and expressions nested deeper than the interpreter allows
    StackOverflow { max_depth: usize },
    /// Return statement outside of function
    ReturnOutsideFunction,
    /// An operator met operands that it does not take
    InvalidOperation { operation: String, left_type: String, right_type: String },
    /// Assignment to undefined variable
    AssignmentToUndefined { name: String },
    /// Any other fault, with its message
    Custom(String),
}

/// The mathematical value of a [`RuntimeError`].
#[allow(inconsistent_fields)]
pub enum RuntimeErrorView {
    UndefinedVariable { name: Seq<char> },
    UndefinedFunction { name: Seq<char> },
    TypeMismatch { operation: Seq<char>, expected: Seq<char>, found: Seq<char> },
    DivisionByZero,
    ModuloByZero,
    IndexOutOfBounds { index: int, length: nat },
    NotIndexable { value_type: Seq<char> },
    NotCallable { value_type: Seq<char> },
    ArgumentCountMismatch { expected: nat, found: nat, function_name: Seq<char> },
    StackOverflow { max_depth: nat },
    ReturnOutsideFunction,
    InvalidOperation { operation: Seq<char>, left_type: Seq<char>, right_type: Seq<char> },
    AssignmentToUndefined { name: Seq<char> },
    Custom(Seq<char>),
}

impl View for RuntimeError {
    type V = RuntimeErrorView;

    open spec fn view(&self) -> RuntimeErrorView {
        match self {
            RuntimeError::UndefinedVariable { name } => RuntimeErrorView::UndefinedVariable {
                name: name@,
            },
            RuntimeError::UndefinedFunction { name } => RuntimeErrorView::UndefinedFunction {
                name: name@,
            },
            RuntimeError::TypeMismatch { operation, expected, found } => {
                RuntimeErrorView::TypeMismatch {
                    operation: operation@,
                    expected: expected@,
                    found: found@,
                }
            },
            RuntimeError::DivisionByZero => RuntimeErrorView::DivisionByZero,
            RuntimeError::ModuloByZero => RuntimeErrorView::ModuloByZero,
            RuntimeError::IndexOutOfBounds { index, length } => RuntimeErrorView::IndexOutOfBounds {
                index: *index as int,
                length: *length as nat,
            },
            RuntimeError::NotIndexable { value_type } => RuntimeErrorView::NotIndexable {
                value_type: value_type@,
            },
            RuntimeError::NotCallable { value_type } => RuntimeErrorView::NotCallable {
                value_type: value_type@,
            },
            RuntimeError::ArgumentCountMismatch { expected, found, function_name } => {
                RuntimeErrorView::ArgumentCountMismatch {
                    expected: *expected as nat,
                    found: *found as nat,
                    function_name: function_name@,
                }
            },
            RuntimeError::StackOverflow { max_depth } => RuntimeErrorView::StackOverflow {
                max_depth: *max_depth as nat,
            },
            RuntimeError::ReturnOutsideFunction => RuntimeErrorView::ReturnOutsideFunction,
            RuntimeError::InvalidOperation { operation, left_type, right_type } => {
                RuntimeErrorView::InvalidOperation {
                    operation: operation@,
                    left_type: left_type@,
                    right_type: right_type@,
                }
            },
            RuntimeError::AssignmentToUndefined { name } => RuntimeErrorView::AssignmentToUndefined {
                name: name@,
            },
            RuntimeError::Custom(message) => RuntimeErrorView::Custom(message@),
        }
    }
}

impl RuntimeErrorView {
    /// The one line that describes the fault.
    pub open spec fn message(self) -> Seq<char> {
        "Runtime error: "@ + match self {
            RuntimeErrorView::UndefinedVariable { name } => "Undefined variable '"@ + name + "'"@,
            RuntimeErrorView::UndefinedFunction { name } => "Undefined function '"@ + name + "'"@,
            RuntimeErrorView::TypeMismatch { operation, expected, found } => "Type error in "@
                + operation + ": expected "@ + expected + ", found "@ + found,
            RuntimeErrorView::DivisionByZero => "Division by zero"@,
            RuntimeErrorView::ModuloByZero => "Modulo by zero"@,
            RuntimeErrorView::IndexOutOfBounds { index, length } => "Index "@ + int_text(index)
                + " out of bounds for array of length "@ + decimal_digits(length),
            RuntimeErrorView::NotIndexable { value_type } => "Cannot index into value of type "@
                + value_type,
            RuntimeErrorView::NotCallable { value_type } => "Cannot call value of type "@
                + value_type,
            RuntimeErrorView::ArgumentCountMismatch { expected, found, function_name } => {
                "Function '"@ + function_name + "' expects "@ + decimal_digits(expected)
                    + " arguments, but "@ + decimal_digits(found) + " were provided"@
            },
            RuntimeErrorView::StackOverflow { max_depth } => {
                "Stack overflow (maximum call depth of "@ + decimal_digits(max_depth)
                    + " exceeded)"@
            },
            RuntimeErrorView::ReturnOutsideFunction => "Return statement outside of function"@,
            RuntimeErrorView::InvalidOperation { operation, left_type, right_type } => {
                "Invalid operation '"@ + operation + "' between "@ + left_type + " and "@
                    + right_type
            },
            RuntimeErrorView::AssignmentToUndefined { name } => {
                "Assignment to undefined variable '"@ + name + "'. Use 'Type "@ + name
                    + " = ...' to declare it first"@
            },
            RuntimeErrorView::Custom(message) => message,
        }
    }
}

impl Clone for RuntimeError {
    fn clone(&self) -> (r: Self)
        ensures
            r@ == self@,
    {
        match self {
            RuntimeError::UndefinedVariable { name } => RuntimeError::UndefinedVariable {
                name: name.clone(),
            },
            RuntimeError::UndefinedFunction { name } => RuntimeError::UndefinedFunction {
                name: name.clone(),
            },
            RuntimeError::TypeMismatch { operation, expected, found } => {
                RuntimeError::TypeMismatch {
                    operation: operation.clone(),
                    expected: expected.clone(),
                    found: found.clone(),
                }
            },
            RuntimeError::DivisionByZero => RuntimeError::DivisionByZero,
            RuntimeError::ModuloByZero => RuntimeError::ModuloByZero,
            RuntimeError::IndexOutOfBounds { index, length } => RuntimeError::IndexOutOfBounds {
                index: *index,
                length: *length,
            },
            RuntimeError::NotIndexable { value_type } => RuntimeError::NotIndexable {
                value_type: value_type.clone(),
            },
            RuntimeError::NotCallable { value_type } => RuntimeError::NotCallable {
                value_type: value_type.clone(),
            },
            RuntimeError::ArgumentCountMismatch { expected, found, function_name } => {
                RuntimeError::ArgumentCountMismatch {
                    expected: *expected,
                    found: *found,
                    function_name: function_name.clone(),
                }
            },
            RuntimeError::StackOverflow { max_depth } => RuntimeError::StackOverflow {
                max_depth: *max_depth,
            },
            RuntimeError::ReturnOutsideFunction => RuntimeError::ReturnOutsideFunction,
            RuntimeError::InvalidOperation { operation, left_type, right_type } => {
                RuntimeError::InvalidOperation {
                    operation: operation.clone(),
                    left_type: left_type.clone(),
                    right_type: right_type.clone(),
                }
            },
            RuntimeError::AssignmentToUndefined { name } => RuntimeError::AssignmentToUndefined {
                name: name.clone(),
            },
            RuntimeError::Custom(message) => RuntimeError::Custom(message.clone()),
        }
    }
}

impl RuntimeError {
    /// The one line that describes the fault.
    pub fn to_string(&self) -> (r: String)
        ensures
            r@ == self@.message(),
    {
        let mut s = String::new();
        push_text(&mut s, "Runtime error: ");
        match self {
            RuntimeError::UndefinedVariable { name } => {
                push_text(&mut s, "Undefined variable '");
                push_text(&mut s, name.as_str());
                push_text(&mut s, "'");
            },
            RuntimeError::UndefinedFunction { name } => {
                push_text(&mut s, "Undefined function '");
                push_text(&mut s, name.as_str());
                push_text(&mut s, "'");
            },
            RuntimeError::TypeMismatch { operation, expected, found } => {
                push_text(&mut s, "Type error in ");
                push_text(&mut s, operation.as_str());
                push_text(&mut s, ": expected ");
                push_text(&mut s, expected.as_str());
                push_text(&mut s, ", found ");
                push_text(&mut s, found.as_str());
            },
            RuntimeError::DivisionByZero => {
                push_text(&mut s, "Division by zero");
            },
            RuntimeError::ModuloByZero => {
                push_text(&mut s, "Modulo by zero");
            },
            RuntimeError::IndexOutOfBounds { index, length } => {
                push_text(&mut s, "Index ");
                push_int(&mut s, *index);
                push_text(&mut s, " out of bounds for array of length ");
                push_decimal(&mut s, *length as u64);
            },
            RuntimeError::NotIndexable { value_type } => {
                push_text(&mut s, "Cannot index into value of type ");
                push_text(&mut s, value_type.as_str());
            },
            RuntimeError::NotCallable { value_type } => {
                push_text(&mut s, "Cannot call value of type ");
                push_text(&mut s, value_type.as_str());
            },
            RuntimeError::ArgumentCountMismatch { expected, found, function_name } => {
                push_text(&mut s, "Function '");
                push_text(&mut s, function_name.as_str());
                push_text(&mut s, "' expects ");
                push_decimal(&mut s, *expected as u64);
                push_text(&mut s, " arguments, but ");
                push_decimal(&mut s, *found as u64);
                push_text(&mut s, " were provided");
            },
            RuntimeError::StackOverflow { max_depth } => {
                push_text(&mut s, "Stack overflow (maximum call depth of ");
                push_decimal(&mut s, *max_depth as u64);
                push_text(&mut s, " exceeded)");
            },
            RuntimeError::ReturnOutsideFunction => {
                push_text(&mut s, "Return statement outside of function");
            },
            RuntimeError::InvalidOperation { operation, left_type, right_type } => {
                push_text(&mut s, "Invalid operation '");
                push_text(&mut s, operation.as_str());
                push_text(&mut s, "' between ");
                push_text(&mut s, left_type.as_str());
                push_text(&mut s, " and ");
                push_text(&mut s, right_type.as_str());
            },
            RuntimeError::AssignmentToUndefined { name } => {
                push_text(&mut s, "Assignment to undefined variable '");
                push_text(&mut s, name.as_str());
                push_text(&mut s, "'. Use 'Type ");
                push_text(&mut s, name.as_str());
                push_text(&mut s, " = ...' to declare it first");
            },
            RuntimeError::Custom(message) => {
                push_text(&mut s, message.as_str());
            },
        }
        s
    }
}

/// The value that a `return` statement carries out of a function body.
#[derive(Debug, PartialEq)]
pub struct ReturnSignal(pub Value);

} // verus!
