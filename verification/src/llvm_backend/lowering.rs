use vstd::prelude::*;
use crate::ast::{BinaryOp, ExprView, Literal, LiteralView, StmtView, Type};
use crate::text::push_text;

verus! {

/// The machine types that values of the language are lowered to.
#[derive(Debug, Clone, Copy, PartialEq, Eq, Structural)]
pub enum MachineType {
    /// A 64-bit integer, for `Int`
    I64,
    /// A single bit, for `Bool`
    I1,
    /// A byte, for `Char`
    I8,
    /// A pointer to bytes, for `String` and `Array`
    Pointer,
}

/// The six comparisons of integers.
#[derive(Debug, Clone, Copy, PartialEq, Eq)]
pub enum Comparison {
    Equal,
    NotEqual,
    Less,
    Greater,
    LessEqual,
    GreaterEqual,
}

/// The machine types of the variables that have been declared, by name.
pub type Layout = Map<Seq<char>, MachineType>;

impl MachineType {
    /// The machine type that stands for a type of the language. `Void` is
    /// the type of no value.
    pub open spec fn of(t: Type) -> Option<MachineType> {
        match t {
            Type::Int => Some(MachineType::I64),
            Type::Bool => Some(MachineType::I1),
            Type::Char => Some(MachineType::I8),
            Type::String => Some(MachineType::Pointer),
            Type::Array(_) => Some(MachineType::Pointer),
            Type::Void => None,
        }
    }

    /// The machine type that stands for a type of the language, if any.
    pub fn for_type(t: &Type) -> (r: Option<MachineType>)
        ensures
            r == Self::of(*t),
    {
        match t {
            Type::Int => Some(MachineType::I64),
            Type::Bool => Some(MachineType::I1),
            Type::Char => Some(MachineType::I8),
            Type::String => Some(MachineType::Pointer),
            Type::Array(_) => Some(MachineType::Pointer),
            Type::Void => None,
        }
    }
}

/// The machine type of a literal.
pub open spec fn literal_machine_type(literal: LiteralView) -> MachineType {
    match literal {
        LiteralView::Number(_) => MachineType::I64,
        LiteralView::Bool(_) => MachineType::I1,
        LiteralView::Char(_) => MachineType::I8,
        LiteralView::String(_) => MachineType::Pointer,
    }
}

/// Whether an operator compares its operands.
pub open spec fn compares(op: BinaryOp) -> bool {
    op is Equal || op is NotEqual || op is Less || op is Greater || op is LessEqual
        || op is GreaterEqual
}

/// The machine type of what a binary operator gives on operands of one
/// machine type, or the diagnostic with which it is refused: the power has no
/// lowering, and the operands must be integers of one machine type. A
/// comparison gives one bit, any other operator the type of its operands.
pub open spec fn binary_lowering(left: MachineType, op: BinaryOp, right: MachineType) -> Result<
    MachineType,
    Seq<char>,
> {
    if op is Pow {
        Err("Power operator not yet implemented"@)
    } else if left is Pointer || left != right {
        Err("Operands of a binary operator must be integers of the same type"@)
    } else if compares(op) {
        Ok(MachineType::I1)
    } else {
        Ok(left)
    }
}

/// The machine type of the value that an expression lowers to, or the
/// diagnostic with which it is refused.
///
/// Literals, declared variables and binary operations have a lowering;
/// every other expression is refused.
pub open spec fn lowering(e: ExprView, layout: Layout) -> Result<MachineType, Seq<char>>
    decreases e,
{
    match e {
        ExprView::Literal(literal) => Ok(literal_machine_type(literal)),
        ExprView::Variable(name) => if layout.contains_key(name) {
            Ok(layout[name])
        } else {
            Err("Undefined variable: "@ + name)
        },
        ExprView::Binary { left, op, right } => match lowering(*left, layout) {
            Err(m) => Err(m),
            Ok(lt) => match lowering(*right, layout) {
                Err(m) => Err(m),
                Ok(rt) => binary_lowering(lt, op, rt),
            },
        },
        _ => Err("Expression not yet implemented"@),
    }
}

/// The layout after a statement is lowered, or the diagnostic with which the
/// statement is refused. Expression statements and declarations have a
/// lowering; every other statement is refused.
pub open spec fn statement_lowering(s: StmtView, layout: Layout) -> Result<Layout, Seq<char>> {
    match s {
        StmtView::Expression(e) => match lowering(e, layout) {
            Err(m) => Err(m),
            Ok(_) => Ok(layout),
        },
        StmtView::Let { name, type_annotation, value } => match lowering(value, layout) {
            Err(m) => Err(m),
            Ok(t) => Ok(layout.insert(name, t)),
        },
        _ => Err("Statement not yet implemented"@),
    }
}

/// The layout after the statements from `i` on are lowered in order, or the
/// diagnostic of the first that is refused.
pub open spec fn program_lowering(items: Seq<StmtView>, i: int, layout: Layout) -> Result<
    Layout,
    Seq<char>,
>
    decreases items.len() - i,
{
    if i < 0 || i >= items.len() {
        Ok(layout)
    } else {
        match statement_lowering(items[i], layout) {
            Err(m) => Err(m),
            Ok(next) => program_lowering(items, i + 1, next),
        }
    }
}

/// What the result of a check stands for.
pub open spec fn checked_view<T>(r: Result<T, String>) -> Result<T, Seq<char>> {
    match r {
        Ok(t) => Ok(t),
        Err(m) => Err(m@),
    }
}

/// The machine type of what a binary operator gives, or its refusal.
pub fn check_binary(left: MachineType, op: &BinaryOp, right: MachineType) -> (r: Result<
    MachineType,
    String,
>)
    ensures
        checked_view(r) == binary_lowering(left, *op, right),
{
    match op {
        BinaryOp::Pow => {
            return Err("Power operator not yet implemented".to_string());
        },
        _ => {},
    }
    let pointer = match left {
        MachineType::Pointer => true,
        _ => false,
    };
    if pointer || left != right {
        return Err("Operands of a binary operator must be integers of the same type".to_string());
    }
    match op {
        BinaryOp::Equal
        | BinaryOp::NotEqual
        | BinaryOp::Less
        | BinaryOp::Greater
        | BinaryOp::LessEqual
        | BinaryOp::GreaterEqual => Ok(MachineType::I1),
        _ => Ok(left),
    }
}

/// The machine type of a literal.
pub fn literal_type(literal: &Literal) -> (r: MachineType)
    ensures
        r == literal_machine_type(literal@),
{
    match literal {
        Literal::Number(_) => MachineType::I64,
        Literal::Bool(_) => MachineType::I1,
        Literal::Char(_) => MachineType::I8,
        Literal::String(_) => MachineType::Pointer,
    }
}

/// The refusal of a name that no declaration has bound.
pub fn undefined_variable(name: &str) -> (r: String)
    ensures
        r@ == "Undefined variable: "@ + name@,
{
    let mut message = String::new();
    push_text(&mut message, "Undefined variable: ");
    push_text(&mut message, name);
    message
}

} // verus!
