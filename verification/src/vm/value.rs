use vstd::prelude::*;
use crate::ast::{Stmt, StmtView};
use crate::text::{int_text, push_int, push_text, string_push};

verus! {

/// Runtime value representation
#[derive(Debug, PartialEq)]
pub enum Value {
    Number(i64),
    String(String),
    Char(char),
    Bool(bool),
    Array(Vec<Value>),
    Function { name: String, params: Vec<String>, body: Box<Stmt> },
    /// What a function that returns nothing gives
    Void,
}

/// The mathematical value of a [`Value`].
pub enum ValueView {
    Number(int),
    String(Seq<char>),
    Char(char),
    Bool(bool),
    Array(Seq<ValueView>),
    Function { name: Seq<char>, params: Seq<Seq<char>>, body: Box<StmtView> },
    Void,
}

/// The values of a sequence of strings.
pub open spec fn name_views(names: Seq<String>) -> Seq<Seq<char>> {
    Seq::new(names.len(), |i: int| names[i]@)
}

/// The mathematical value of a runtime value, by recursion on its arrays.
pub open spec fn value_view(v: Value) -> ValueView
    decreases v,
{
    match v {
        Value::Number(n) => ValueView::Number(n as int),
        Value::String(s) => ValueView::String(s@),
        Value::Char(c) => ValueView::Char(c),
        Value::Bool(b) => ValueView::Bool(b),
        Value::Array(items) => ValueView::Array(
            Seq::new(
                items.len() as nat,
                |i: int|
                    if 0 <= i < items.len() {
                        value_view(items[i])
                    } else {
                        arbitrary()
                    },
            ),
        ),
        Value::Function { name, params, body } => ValueView::Function {
            name: name@,
            params: name_views(params@),
            body: Box::new(body@),
        },
        Value::Void => ValueView::Void,
    }
}

impl View for Value {
    type V = ValueView;

    open spec fn view(&self) -> ValueView {
        value_view(*self)
    }
}

/// The mathematical values of a sequence of runtime values.
pub open spec fn value_views(vs: Seq<Value>) -> Seq<ValueView> {
    Seq::new(vs.len(), |i: int| vs[i]@)
}

/// The texts of the first `n` values of `items`, with `, ` between them.
pub open spec fn joined_text(items: Seq<ValueView>, n: int) -> Seq<char>
    decreases items, n,
{
    if n <= 0 || n > items.len() {
        Seq::empty()
    } else if n == 1 {
        items[0].text()
    } else {
        joined_text(items, n - 1) + ", "@ + items[n - 1].text()
    }
}

impl ValueView {
    /// Type name for error messages
    pub open spec fn kind_name(self) -> Seq<char> {
        match self {
            ValueView::Number(_) => "Int"@,
            ValueView::String(_) => "String"@,
            ValueView::Char(_) => "Char"@,
            ValueView::Bool(_) => "Bool"@,
            ValueView::Array(_) => "Array"@,
            ValueView::Function { .. } => "Function"@,
            ValueView::Void => "Void"@,
        }
    }

    /// What a value counts as in a condition: a boolean is itself, a number
    /// is true unless it is zero, a string or an array unless it is empty,
    /// and the void value is false. Anything else is true.
    pub open spec fn is_truthy(self) -> bool {
        match self {
            ValueView::Bool(b) => b,
            ValueView::Number(n) => n != 0,
            ValueView::String(s) => s.len() != 0,
            ValueView::Array(items) => items.len() != 0,
            ValueView::Void => false,
            _ => true,
        }
    }

    /// The number that a value holds, if it is one.
    pub open spec fn as_number(self) -> Option<int> {
        match self {
            ValueView::Number(n) => Some(n),
            _ => None,
        }
    }

    /// How a value is printed.
    pub open spec fn text(self) -> Seq<char>
        decreases self, 0int,
    {
        match self {
            ValueView::Number(n) => int_text(n),
            ValueView::String(s) => s,
            ValueView::Char(c) => seq![c],
            ValueView::Bool(b) => if b {
                "True"@
            } else {
                "False"@
            },
            ValueView::Array(items) => "["@ + joined_text(items, items.len() as int) + "]"@,
            ValueView::Function { name, .. } => "<function "@ + name + ">"@,
            ValueView::Void => "void"@,
        }
    }
}

impl Value {
    /// The value of an array is made of the values of its elements.
    pub proof fn lemma_view_array(items: Vec<Value>)
        ensures
            Value::Array(items)@ == ValueView::Array(value_views(items@)),
    {
        assert(Value::Array(items)@->Array_0 =~= value_views(items@));
    }

    /// Type name for error messages
    pub fn kind_name(&self) -> (r: &'static str)
        ensures
            r@ == self@.kind_name(),
    {
        match self {
            Value::Number(_) => "Int",
            Value::String(_) => "String",
            Value::Char(_) => "Char",
            Value::Bool(_) => "Bool",
            Value::Array(_) => "Array",
            Value::Function { .. } => "Function",
            Value::Void => "Void",
        }
    }

    /// Check if the value is truthy (for conditionals)
    pub fn is_truthy(&self) -> (r: bool)
        ensures
            r == self@.is_truthy(),
    {
        match self {
            Value::Bool(b) => *b,
            Value::Number(n) => *n != 0,
            Value::String(s) => s.as_str().unicode_len() != 0,
            Value::Array(items) => {
                proof {
                    Value::lemma_view_array(*items);
                }
                items.len() != 0
            },
            Value::Void => false,
            _ => true,
        }
    }

    /// Convert to bool for logical operations
    pub fn as_bool(&self) -> (r: bool)
        ensures
            r == self@.is_truthy(),
    {
        match self {
            Value::Bool(b) => *b,
            _ => self.is_truthy(),
        }
    }

    /// Try to convert to number
    pub fn as_number(&self) -> (r: Option<i64>)
        ensures
            match r {
                Some(n) => self@.as_number() == Some(n as int),
                None => self@.as_number() is None,
            },
    {
        match self {
            Value::Number(n) => Some(*n),
            _ => None,
        }
    }

    /// Structural equality of values.
    pub fn equals(&self, other: &Value) -> (r: bool)
        ensures
            r == (self@ == other@),
        decreases self,
    {
        match (self, other) {
            (Value::Number(a), Value::Number(b)) => *a == *b,
            (Value::String(a), Value::String(b)) => *a == *b,
            (Value::Char(a), Value::Char(b)) => *a == *b,
            (Value::Bool(a), Value::Bool(b)) => *a == *b,
            (Value::Array(a), Value::Array(b)) => {
                proof {
                    Value::lemma_view_array(*a);
                    Value::lemma_view_array(*b);
                }
                same_values(a, b)
            },
            (
                Value::Function { name: na, params: pa, body: ba },
                Value::Function { name: nb, params: pb, body: bb },
            ) => *na == *nb && same_names(pa, pb) && ba.same(bb),
            (Value::Void, Value::Void) => true,
            _ => false,
        }
    }

    /// Appends the printed form of the value to `out`.
    pub fn write_text(&self, out: &mut String)
        ensures
            final(out)@ == old(out)@ + self@.text(),
        decreases self,
    {
        match self {
            Value::Number(n) => push_int(out, *n),
            Value::String(s) => push_text(out, s.as_str()),
            Value::Char(c) => {
                string_push(out, *c);
                assert(out@ =~= old(out)@ + seq![*c]);
            },
            Value::Bool(b) => {
                if *b {
                    push_text(out, "True");
                } else {
                    push_text(out, "False");
                }
            },
            Value::Array(items) => {
                proof {
                    Value::lemma_view_array(*items);
                }
                push_text(out, "[");
                let ghost start = out@;
                let ghost views = value_views(items@);
                let mut i: usize = 0;
                while i < items.len()
                    invariant
                        i <= items.len(),
                        *self == Value::Array(*items),
                        views == value_views(items@),
                        out@ == start + joined_text(views, i as int),
                    decreases items.len() - i,
                {
                    if i > 0 {
                        push_text(out, ", ");
                    }
                    proof {
                        assert(decreases_to!(*self => self->Array_0));
                        vstd::std_specs::vec::axiom_vec_index_decreases(*items, i as int);
                    }
                    items[i].write_text(out);
                    i += 1;
                }
                push_text(out, "]");
                assert(out@ =~= old(out)@ + self@.text());
            },
            Value::Function { name, .. } => {
                push_text(out, "<function ");
                push_text(out, name.as_str());
                push_text(out, ">");
            },
            Value::Void => push_text(out, "void"),
        }
    }

    /// The printed form of the value.
    pub fn to_string(&self) -> (r: String)
        ensures
            r@ == self@.text(),
    {
        let mut s = String::new();
        self.write_text(&mut s);
        s
    }
}

/// Whether two sequences of names are equal.
pub fn same_names(a: &Vec<String>, b: &Vec<String>) -> (r: bool)
    ensures
        r == (name_views(a@) == name_views(b@)),
{
    if a.len() != b.len() {
        return false;
    }
    let mut i: usize = 0;
    while i < a.len()
        invariant
            i <= a.len(),
            a.len() == b.len(),
            forall|j: int| 0 <= j < i ==> a[j]@ == b[j]@,
        decreases a.len() - i,
    {
        if !(a[i] == b[i]) {
            assert(name_views(a@)[i as int] != name_views(b@)[i as int]);
            return false;
        }
        i += 1;
    }
    assert(name_views(a@) =~= name_views(b@));
    true
}

/// Whether two sequences of values are equal, value by value.
pub fn same_values(a: &Vec<Value>, b: &Vec<Value>) -> (r: bool)
    ensures
        r == (value_views(a@) == value_views(b@)),
    decreases a,
{
    if a.len() != b.len() {
        assert(value_views(a@).len() != value_views(b@).len());
        return false;
    }
    let mut i: usize = 0;
    while i < a.len()
        invariant
            i <= a.len(),
            a.len() == b.len(),
            forall|j: int| 0 <= j < i ==> a[j]@ == b[j]@,
        decreases a.len() - i,
    {
        proof {
            vstd::std_specs::vec::axiom_vec_index_decreases(*a, i as int);
        }
        if !a[i].equals(&b[i]) {
            assert(value_views(a@)[i as int] != value_views(b@)[i as int]);
            return false;
        }
        i += 1;
    }
    assert(value_views(a@) =~= value_views(b@));
    true
}

/// A copy of each name of `names`.
pub fn clone_names(names: &Vec<String>) -> (r: Vec<String>)
    ensures
        name_views(r@) == name_views(names@),
{
    let mut out: Vec<String> = Vec::new();
    let mut i: usize = 0;
    while i < names.len()
        invariant
            i <= names.len(),
            out.len() == i,
            forall|j: int| 0 <= j < i ==> out[j]@ == names[j]@,
        decreases names.len() - i,
    {
        out.push(names[i].clone());
        i += 1;
    }
    out
}

/// A copy of each value of `vs`.
pub fn clone_values(vs: &Vec<Value>) -> (r: Vec<Value>)
    ensures
        value_views(r@) == value_views(vs@),
    decreases vs,
{
    let mut out: Vec<Value> = Vec::new();
    let mut i: usize = 0;
    while i < vs.len()
        invariant
            i <= vs.len(),
            out.len() == i,
            forall|j: int| 0 <= j < i ==> out[j]@ == vs[j]@,
        decreases vs.len() - i,
    {
        proof {
            vstd::std_specs::vec::axiom_vec_index_decreases(*vs, i as int);
        }
        out.push(vs[i].clone());
        i += 1;
    }
    out
}

impl Clone for Value {
    fn clone(&self) -> (r: Self)
        ensures
            r@ == self@,
        decreases self,
    {
        match self {
            Value::Number(n) => Value::Number(*n),
            Value::String(s) => Value::String(s.clone()),
            Value::Char(c) => Value::Char(*c),
            Value::Bool(b) => Value::Bool(*b),
            Value::Array(items) => {
                let copy = clone_values(items);
                proof {
                    Value::lemma_view_array(*items);
                    Value::lemma_view_array(copy);
                }
                Value::Array(copy)
            },
            Value::Function { name, params, body } => Value::Function {
                name: name.clone(),
                params: clone_names(params),
                body: Box::new((**body).clone()),
            },
            Value::Void => Value::Void,
        }
    }
}

} // verus!
