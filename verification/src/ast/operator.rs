use vstd::prelude::*;

verus! {

#[derive(Debug, Clone, Copy, PartialEq)]
pub enum BinaryOp {
    Add,
    Sub,
    Mul,
    Div,
    Mod,
    Pow,
    Equal,
    NotEqual,
    Less,
    Greater,
    LessEqual,
    GreaterEqual,
    And,
    Or,
}

#[derive(Debug, Clone, Copy, PartialEq)]
pub enum UnaryOp {
    Minus,
    Not,
}

impl BinaryOp {
    /// How tightly the operator binds: a higher level binds tighter.
    pub open spec fn level(self) -> int {
        match self {
            BinaryOp::Or => 1,
            BinaryOp::And => 2,
            BinaryOp::Equal | BinaryOp::NotEqual => 3,
            BinaryOp::Less | BinaryOp::Greater | BinaryOp::LessEqual | BinaryOp::GreaterEqual => 4,
            BinaryOp::Add | BinaryOp::Sub => 5,
            BinaryOp::Mul | BinaryOp::Div | BinaryOp::Mod => 6,
            BinaryOp::Pow => 7,
        }
    }

    /// Every operator groups from the left but the power, which groups from
    /// the right.
    pub open spec fn left_associative(self) -> bool {
        !(self is Pow)
    }

    /// Returns the precedence and associativity of the operator.
    /// Higher precedence = tighter binding.
    /// Associativity: true = left-to-right, false = right-to-left
    pub fn precedence_and_associativity(&self) -> (r: (u8, bool))
        ensures
            r.0 == self.level(),
            r.1 == self.left_associative(),
    {
        match self {
            BinaryOp::Or => (1, true),
            BinaryOp::And => (2, true),
            BinaryOp::Equal | BinaryOp::NotEqual => (3, true),
            BinaryOp::Less
            | BinaryOp::Greater
            | BinaryOp::LessEqual
            | BinaryOp::GreaterEqual => (4, true),
            BinaryOp::Add | BinaryOp::Sub => (5, true),
            BinaryOp::Mul | BinaryOp::Div | BinaryOp::Mod => (6, true),
            BinaryOp::Pow => (7, false),
        }
    }

    /// Returns just the precedence (for convenience)
    pub fn precedence(&self) -> (r: u8)
        ensures
            r == self.level(),
    {
        self.precedence_and_associativity().0
    }
}

/// Whether two binary operators are the same.
pub fn same_binary_op(a: BinaryOp, b: BinaryOp) -> (r: bool)
    ensures
        r == (a == b),
{
    match (a, b) {
        (BinaryOp::Add, BinaryOp::Add) => true,
        (BinaryOp::Sub, BinaryOp::Sub) => true,
        (BinaryOp::Mul, BinaryOp::Mul) => true,
        (BinaryOp::Div, BinaryOp::Div) => true,
        (BinaryOp::Mod, BinaryOp::Mod) => true,
        (BinaryOp::Pow, BinaryOp::Pow) => true,
        (BinaryOp::Equal, BinaryOp::Equal) => true,
        (BinaryOp::NotEqual, BinaryOp::NotEqual) => true,
        (BinaryOp::Less, BinaryOp::Less) => true,
        (BinaryOp::Greater, BinaryOp::Greater) => true,
        (BinaryOp::LessEqual, BinaryOp::LessEqual) => true,
        (BinaryOp::GreaterEqual, BinaryOp::GreaterEqual) => true,
        (BinaryOp::And, BinaryOp::And) => true,
        (BinaryOp::Or, BinaryOp::Or) => true,
        _ => false,
    }
}

/// Whether two unary operators are the same.
pub fn same_unary_op(a: UnaryOp, b: UnaryOp) -> (r: bool)
    ensures
        r == (a == b),
{
    match (a, b) {
        (UnaryOp::Minus, UnaryOp::Minus) => true,
        (UnaryOp::Not, UnaryOp::Not) => true,
        _ => false,
    }
}

} // verus!
