use vstd::prelude::*;
use super::expr::{Expr, ExprView};
use super::types::Type;

verus! {

/// A parameter of a function: its name and its declared type.
#[derive(Debug, PartialEq)]
pub struct Param {
    pub name: String,
    pub type_annotation: Type,
}

/// The mathematical value of a [`Param`].
pub struct ParamView {
    pub name: Seq<char>,
    pub type_annotation: Type,
}

impl View for Param {
    type V = ParamView;

    open spec fn view(&self) -> ParamView {
        ParamView { name: self.name@, type_annotation: self.type_annotation }
    }
}

impl Clone for Param {
    fn clone(&self) -> (r: Self)
        ensures
            r@ == self@,
    {
        Param { name: self.name.clone(), type_annotation: self.type_annotation.clone() }
    }
}

/// The values of a sequence of parameters.
pub open spec fn param_views(ps: Seq<Param>) -> Seq<ParamView> {
    Seq::new(ps.len(), |i: int| ps[i]@)
}

#[derive(Debug, PartialEq)]
pub enum Stmt {
    Expression(Expr),
    Let { name: String, type_annotation: Option<Type>, value: Expr },
    Assignment { name: String, value: Expr },
    Block(Vec<Stmt>),
    If { condition: Expr, then_branch: Box<Stmt>, else_branch: Option<Box<Stmt>> },
    Return(Option<Expr>),
    FunctionDecl { name: String, params: Vec<Param>, return_type: Option<Type>, body: Box<Stmt> },
}

/// The mathematical value of a [`Stmt`].
pub enum StmtView {
    Expression(ExprView),
    Let { name: Seq<char>, type_annotation: Option<Type>, value: ExprView },
    Assignment { name: Seq<char>, value: ExprView },
    Block(Seq<StmtView>),
    If { condition: ExprView, then_branch: Box<StmtView>, else_branch: Option<Box<StmtView>> },
    Return(Option<ExprView>),
    FunctionDecl {
        name: Seq<char>,
        params: Seq<ParamView>,
        return_type: Option<Type>,
        body: Box<StmtView>,
    },
}

/// The value of a statement tree, by recursion on the tree.
pub open spec fn stmt_view(s: Stmt) -> StmtView
    decreases s,
{
    match s {
        Stmt::Expression(e) => StmtView::Expression(e@),
        Stmt::Let { name, type_annotation, value } => StmtView::Let {
            name: name@,
            type_annotation,
            value: value@,
        },
        Stmt::Assignment { name, value } => StmtView::Assignment { name: name@, value: value@ },
        Stmt::Block(items) => StmtView::Block(
            Seq::new(
                items.len() as nat,
                |i: int|
                    if 0 <= i < items.len() {
                        stmt_view(items[i])
                    } else {
                        arbitrary()
                    },
            ),
        ),
        Stmt::If { condition, then_branch, else_branch } => StmtView::If {
            condition: condition@,
            then_branch: Box::new(stmt_view(*then_branch)),
            else_branch: match else_branch {
                Some(b) => Some(Box::new(stmt_view(*b))),
                None => None,
            },
        },
        Stmt::Return(value) => StmtView::Return(
            match value {
                Some(e) => Some(e@),
                None => None,
            },
        ),
        Stmt::FunctionDecl { name, params, return_type, body } => StmtView::FunctionDecl {
            name: name@,
            params: param_views(params@),
            return_type,
            body: Box::new(stmt_view(*body)),
        },
    }
}

impl View for Stmt {
    type V = StmtView;

    open spec fn view(&self) -> StmtView {
        stmt_view(*self)
    }
}

/// The values of a sequence of statements.
pub open spec fn stmt_views(ss: Seq<Stmt>) -> Seq<StmtView> {
    Seq::new(ss.len(), |i: int| ss[i]@)
}

impl Stmt {
    /// The value of a block is made of the values of its statements.
    pub proof fn lemma_view_block(items: Vec<Stmt>)
        ensures
            Stmt::Block(items)@ == StmtView::Block(stmt_views(items@)),
    {
        assert(Stmt::Block(items)@->Block_0 =~= stmt_views(items@));
    }
}

fn same_optional_type(a: &Option<Type>, b: &Option<Type>) -> (r: bool)
    ensures
        r == (*a == *b),
{
    match (a, b) {
        (Some(x), Some(y)) => x.same(y),
        (None, None) => true,
        _ => false,
    }
}

/// Whether two sequences of parameters are equal.
pub fn same_params(a: &Vec<Param>, b: &Vec<Param>) -> (r: bool)
    ensures
        r == (param_views(a@) == param_views(b@)),
{
    if a.len() != b.len() {
        assert(param_views(a@).len() != param_views(b@).len());
        return false;
    }
    let mut i: usize = 0;
    while i < a.len()
        invariant
            i <= a.len(),
            a.len() == b.len(),
            forall|j: int| 0 <= j < i ==> a[j]@ == b[j]@,
        decreases a.len() - i,
    {
        if !(a[i].name == b[i].name && a[i].type_annotation.same(&b[i].type_annotation)) {
            assert(param_views(a@)[i as int] != param_views(b@)[i as int]);
            return false;
        }
        i += 1;
    }
    assert(param_views(a@) =~= param_views(b@));
    true
}

/// Whether two sequences of statements are equal, tree by tree.
pub fn same_stmts(a: &Vec<Stmt>, b: &Vec<Stmt>) -> (r: bool)
    ensures
        r == (stmt_views(a@) == stmt_views(b@)),
    decreases a,
{
    if a.len() != b.len() {
        assert(stmt_views(a@).len() != stmt_views(b@).len());
        return false;
    }
    let mut i: usize = 0;
    while i < a.len()
        invariant
            i <= a.len(),
            a.len() == b.len(),
            forall|j: int| 0 <= j < i ==> a[j]@ == b[j]@,
        decreases a.len() - i,
    {
        proof {
            vstd::std_specs::vec::axiom_vec_index_decreases(*a, i as int);
        }
        if !a[i].same(&b[i]) {
            assert(stmt_views(a@)[i as int] != stmt_views(b@)[i as int]);
            return false;
        }
        i += 1;
    }
    assert(stmt_views(a@) =~= stmt_views(b@));
    true
}

impl Stmt {
    /// Structural equality of statement trees.
    pub fn same(&self, other: &Stmt) -> (r: bool)
        ensures
            r == (self@ == other@),
        decreases self,
    {
        match (self, other) {
            (Stmt::Expression(a), Stmt::Expression(b)) => a.same(b),
            (
                Stmt::Let { name: na, type_annotation: ta, value: va },
                Stmt::Let { name: nb, type_annotation: tb, value: vb },
            ) => *na == *nb && same_optional_type(ta, tb) && va.same(vb),
            (Stmt::Assignment { name: na, value: va }, Stmt::Assignment { name: nb, value: vb }) => {
                *na == *nb && va.same(vb)
            },
            (Stmt::Block(a), Stmt::Block(b)) => {
                proof {
                    Stmt::lemma_view_block(*a);
                    Stmt::lemma_view_block(*b);
                }
                same_stmts(a, b)
            },
            (
                Stmt::If { condition: ca, then_branch: ta, else_branch: ea },
                Stmt::If { condition: cb, then_branch: tb, else_branch: eb },
            ) => {
                ca.same(cb) && ta.same(tb) && match (ea, eb) {
                    (Some(x), Some(y)) => x.same(y),
                    (None, None) => true,
                    _ => false,
                }
            },
            (Stmt::Return(a), Stmt::Return(b)) => match (a, b) {
                (Some(x), Some(y)) => x.same(y),
                (None, None) => true,
                _ => false,
            },
            (
                Stmt::FunctionDecl { name: na, params: pa, return_type: ra, body: ba },
                Stmt::FunctionDecl { name: nb, params: pb, return_type: rb, body: bb },
            ) => *na == *nb && same_params(pa, pb) && same_optional_type(ra, rb) && ba.same(bb),
            _ => false,
        }
    }
}

/// A copy of each parameter of `ps`.
pub fn clone_params(ps: &Vec<Param>) -> (r: Vec<Param>)
    ensures
        param_views(r@) == param_views(ps@),
{
    let mut out: Vec<Param> = Vec::new();
    let mut i: usize = 0;
    while i < ps.len()
        invariant
            i <= ps.len(),
            out.len() == i,
            forall|j: int| 0 <= j < i ==> out[j]@ == ps[j]@,
        decreases ps.len() - i,
    {
        out.push(ps[i].clone());
        i += 1;
    }
    out
}

/// A copy of each statement of `ss`.
pub fn clone_stmts(ss: &Vec<Stmt>) -> (r: Vec<Stmt>)
    ensures
        stmt_views(r@) == stmt_views(ss@),
    decreases ss,
{
    let mut out: Vec<Stmt> = Vec::new();
    let mut i: usize = 0;
    while i < ss.len()
        invariant
            i <= ss.len(),
            out.len() == i,
            forall|j: int| 0 <= j < i ==> out[j]@ == ss[j]@,
        decreases ss.len() - i,
    {
        proof {
            vstd::std_specs::vec::axiom_vec_index_decreases(*ss, i as int);
        }
        out.push(ss[i].clone());
        i += 1;
    }
    out
}

fn clone_optional_type(t: &Option<Type>) -> (r: Option<Type>)
    ensures
        r == *t,
{
    match t {
        Some(t) => Some(t.clone()),
        None => None,
    }
}

impl Clone for Stmt {
    fn clone(&self) -> (r: Self)
        ensures
            r@ == self@,
        decreases self,
    {
        match self {
            Stmt::Expression(e) => Stmt::Expression(e.clone()),
            Stmt::Let { name, type_annotation, value } => Stmt::Let {
                name: name.clone(),
                type_annotation: clone_optional_type(type_annotation),
                value: value.clone(),
            },
            Stmt::Assignment { name, value } => Stmt::Assignment {
                name: name.clone(),
                value: value.clone(),
            },
            Stmt::Block(items) => {
                let copy = clone_stmts(items);
                proof {
                    Stmt::lemma_view_block(*items);
                    Stmt::lemma_view_block(copy);
                }
                Stmt::Block(copy)
            },
            Stmt::If { condition, then_branch, else_branch } => Stmt::If {
                condition: condition.clone(),
                then_branch: Box::new((**then_branch).clone()),
                else_branch: match else_branch {
                    Some(b) => Some(Box::new((**b).clone())),
                    None => None,
                },
            },
            Stmt::Return(value) => Stmt::Return(
                match value {
                    Some(e) => Some(e.clone()),
                    None => None,
                },
            ),
            Stmt::FunctionDecl { name, params, return_type, body } => Stmt::FunctionDecl {
                name: name.clone(),
                params: clone_params(params),
                return_type: clone_optional_type(return_type),
                body: Box::new((**body).clone()),
            },
        }
    }
}

} // verus!
