use vstd::prelude::*;
use super::operator::{same_binary_op, same_unary_op, BinaryOp, UnaryOp};

verus! {

#[derive(Debug, PartialEq)]
pub enum Literal {
    Number(i64),
    String(String),
    Char(char),
    Bool(bool),
}

/// The mathematical value of a [`Literal`].
pub enum LiteralView {
    Number(int),
    String(Seq<char>),
    Char(char),
    Bool(bool),
}

impl View for Literal {
    type V = LiteralView;

    open spec fn view(&self) -> LiteralView {
        match self {
            Literal::Number(n) => LiteralView::Number(*n as int),
            Literal::String(s) => LiteralView::String(s@),
            Literal::Char(c) => LiteralView::Char(*c),
            Literal::Bool(b) => LiteralView::Bool(*b),
        }
    }
}

impl Literal {
    /// Structural equality.
    pub fn same(&self, other: &Literal) -> (r: bool)
        ensures
            r == (self@ == other@),
    {
        match (self, other) {
            (Literal::Number(a), Literal::Number(b)) => *a == *b,
            (Literal::String(a), Literal::String(b)) => *a == *b,
            (Literal::Char(a), Literal::Char(b)) => *a == *b,
            (Literal::Bool(a), Literal::Bool(b)) => *a == *b,
            _ => false,
        }
    }
}

impl Clone for Literal {
    fn clone(&self) -> (r: Self)
        ensures
            r@ == self@,
    {
        match self {
            Literal::Number(n) => Literal::Number(*n),
            Literal::String(s) => Literal::String(s.clone()),
            Literal::Char(c) => Literal::Char(*c),
            Literal::Bool(b) => Literal::Bool(*b),
        }
    }
}

#[derive(Debug, PartialEq)]
#[allow(inconsistent_fields)]
pub enum Expr {
    Literal(Literal),
    Variable(String),
    Binary { left: Box<Expr>, op: BinaryOp, right: Box<Expr> },
    Unary { op: UnaryOp, right: Box<Expr> },
    Call { callee: Box<Expr>, args: Vec<Expr> },
    ArrayAccess { array: Box<Expr>, index: Box<Expr> },
    ArrayLiteral(Vec<Expr>),
}

/// The mathematical value of an [`Expr`]: a tree over character sequences
/// and sequences of subtrees.
#[allow(inconsistent_fields)]
pub enum ExprView {
    Literal(LiteralView),
    Variable(Seq<char>),
    Binary { left: Box<ExprView>, op: BinaryOp, right: Box<ExprView> },
    Unary { op: UnaryOp, right: Box<ExprView> },
    Call { callee: Box<ExprView>, args: Seq<ExprView> },
    ArrayAccess { array: Box<ExprView>, index: Box<ExprView> },
    ArrayLiteral(Seq<ExprView>),
}

/// The value of an expression tree, by recursion on the tree.
pub open spec fn expr_view(e: Expr) -> ExprView
    decreases e,
{
    match e {
        Expr::Literal(l) => ExprView::Literal(l@),
        Expr::Variable(name) => ExprView::Variable(name@),
        Expr::Binary { left, op, right } => ExprView::Binary {
            left: Box::new(expr_view(*left)),
            op,
            right: Box::new(expr_view(*right)),
        },
        Expr::Unary { op, right } => ExprView::Unary { op, right: Box::new(expr_view(*right)) },
        Expr::Call { callee, args } => ExprView::Call {
            callee: Box::new(expr_view(*callee)),
            args: Seq::new(
                args.len() as nat,
                |i: int|
                    if 0 <= i < args.len() {
                        expr_view(args[i])
                    } else {
                        arbitrary()
                    },
            ),
        },
        Expr::ArrayAccess { array, index } => ExprView::ArrayAccess {
            array: Box::new(expr_view(*array)),
            index: Box::new(expr_view(*index)),
        },
        Expr::ArrayLiteral(elements) => ExprView::ArrayLiteral(
            Seq::new(
                elements.len() as nat,
                |i: int|
                    if 0 <= i < elements.len() {
                        expr_view(elements[i])
                    } else {
                        arbitrary()
                    },
            ),
        ),
    }
}

impl View for Expr {
    type V = ExprView;

    open spec fn view(&self) -> ExprView {
        expr_view(*self)
    }
}

/// The values of a sequence of expressions.
pub open spec fn expr_views(es: Seq<Expr>) -> Seq<ExprView> {
    Seq::new(es.len(), |i: int| es[i]@)
}

impl Expr {
    /// The value of a call is made of the values of its parts.
    pub proof fn lemma_view_call(callee: Box<Expr>, args: Vec<Expr>)
        ensures
            (Expr::Call { callee, args })@ == (ExprView::Call {
                callee: Box::new(callee@),
                args: expr_views(args@),
            }),
    {
        assert((Expr::Call { callee, args })@->Call_args =~= expr_views(args@));
    }

    /// The value of an array literal is made of the values of its elements.
    pub proof fn lemma_view_array_literal(elements: Vec<Expr>)
        ensures
            Expr::ArrayLiteral(elements)@ == ExprView::ArrayLiteral(expr_views(elements@)),
    {
        assert(Expr::ArrayLiteral(elements)@->ArrayLiteral_0 =~= expr_views(elements@));
    }
}

/// Whether two sequences of expressions are equal, tree by tree.
pub fn same_exprs(a: &Vec<Expr>, b: &Vec<Expr>) -> (r: bool)
    ensures
        r == (expr_views(a@) == expr_views(b@)),
    decreases a,
{
    if a.len() != b.len() {
        assert(expr_views(a@).len() != expr_views(b@).len());
        return false;
    }
    let mut i: usize = 0;
    while i < a.len()
        invariant
            i <= a.len(),
            a.len() == b.len(),
            forall|j: int| 0 <= j < i ==> a[j]@ == b[j]@,
        decreases a.len() - i,
    {
        proof {
            vstd::std_specs::vec::axiom_vec_index_decreases(*a, i as int);
        }
        if !a[i].same(&b[i]) {
            assert(expr_views(a@)[i as int] != expr_views(b@)[i as int]);
            return false;
        }
        i += 1;
    }
    assert(expr_views(a@) =~= expr_views(b@));
    true
}

impl Expr {
    /// Structural equality of expression trees.
    pub fn same(&self, other: &Expr) -> (r: bool)
        ensures
            r == (self@ == other@),
        decreases self,
    {
        match (self, other) {
            (Expr::Literal(a), Expr::Literal(b)) => a.same(b),
            (Expr::Variable(a), Expr::Variable(b)) => *a == *b,
            (
                Expr::Binary { left: la, op: oa, right: ra },
                Expr::Binary { left: lb, op: ob, right: rb },
            ) => la.same(lb) && same_binary_op(*oa, *ob) && ra.same(rb),
            (Expr::Unary { op: oa, right: ra }, Expr::Unary { op: ob, right: rb }) => {
                same_unary_op(*oa, *ob) && ra.same(rb)
            },
            (Expr::Call { callee: ca, args: aa }, Expr::Call { callee: cb, args: ab }) => {
                proof {
                    Expr::lemma_view_call(*ca, *aa);
                    Expr::lemma_view_call(*cb, *ab);
                }
                ca.same(cb) && same_exprs(aa, ab)
            },
            (
                Expr::ArrayAccess { array: aa, index: ia },
                Expr::ArrayAccess { array: ab, index: ib },
            ) => aa.same(ab) && ia.same(ib),
            (Expr::ArrayLiteral(a), Expr::ArrayLiteral(b)) => {
                proof {
                    Expr::lemma_view_array_literal(*a);
                    Expr::lemma_view_array_literal(*b);
                }
                same_exprs(a, b)
            },
            _ => false,
        }
    }
}

/// A copy of each expression of `es`.
pub fn clone_exprs(es: &Vec<Expr>) -> (r: Vec<Expr>)
    ensures
        expr_views(r@) == expr_views(es@),
    decreases es,
{
    let mut out: Vec<Expr> = Vec::new();
    let mut i: usize = 0;
    while i < es.len()
        invariant
            i <= es.len(),
            out.len() == i,
            forall|j: int| 0 <= j < i ==> out[j]@ == es[j]@,
        decreases es.len() - i,
    {
        proof {
            vstd::std_specs::vec::axiom_vec_index_decreases(*es, i as int);
        }
        out.push(es[i].clone());
        i += 1;
    }
    out
}

impl Clone for Expr {
    fn clone(&self) -> (r: Self)
        ensures
            r@ == self@,
        decreases self,
    {
        match self {
            Expr::Literal(l) => Expr::Literal(l.clone()),
            Expr::Variable(name) => Expr::Variable(name.clone()),
            Expr::Binary { left, op, right } => Expr::Binary {
                left: Box::new((**left).clone()),
                op: *op,
                right: Box::new((**right).clone()),
            },
            Expr::Unary { op, right } => Expr::Unary { op: *op, right: Box::new((**right).clone()) },
            Expr::Call { callee, args } => {
                let callee_copy = (**callee).clone();
                let args_copy = clone_exprs(args);
                proof {
                    Expr::lemma_view_call(*callee, *args);
                    Expr::lemma_view_call(Box::new(callee_copy), args_copy);
                }
                Expr::Call { callee: Box::new(callee_copy), args: args_copy }
            },
            Expr::ArrayAccess { array, index } => Expr::ArrayAccess {
                array: Box::new((**array).clone()),
                index: Box::new((**index).clone()),
            },
            Expr::ArrayLiteral(elements) => {
                let copy = clone_exprs(elements);
                proof {
                    Expr::lemma_view_array_literal(*elements);
                    Expr::lemma_view_array_literal(copy);
                }
                Expr::ArrayLiteral(copy)
            },
        }
    }
}

} // verus!
