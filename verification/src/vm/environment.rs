use vstd::prelude::*;
use vstd::hash_map::StringHashMap;
use crate::vm::error::{RuntimeError, RuntimeErrorView, RuntimeResult};
use crate::vm::value::{Value, ValueView};

verus! {

/// One scope: the variables declared in it, by name.
pub type Scope = Map<Seq<char>, ValueView>;

/// The value bound to `name` in the innermost scope that declares it.
pub open spec fn lookup(scopes: Seq<Scope>, name: Seq<char>) -> Option<ValueView>
    decreases scopes.len(),
{
    if scopes.len() == 0 {
        None
    } else if scopes.last().contains_key(name) {
        Some(scopes.last()[name])
    } else {
        lookup(scopes.drop_last(), name)
    }
}

/// The scopes after `name` is bound to `value` in the innermost scope.
pub open spec fn declare(scopes: Seq<Scope>, name: Seq<char>, value: ValueView) -> Seq<Scope> {
    if scopes.len() == 0 {
        scopes
    } else {
        scopes.update(scopes.len() - 1, scopes.last().insert(name, value))
    }
}

/// The scopes after the innermost binding of `name` is changed to `value`,
/// or `None` where no scope declares `name`.
pub open spec fn assign(scopes: Seq<Scope>, name: Seq<char>, value: ValueView) -> Option<
    Seq<Scope>,
>
    decreases scopes.len(),
{
    if scopes.len() == 0 {
        None
    } else if scopes.last().contains_key(name) {
        Some(scopes.update(scopes.len() - 1, scopes.last().insert(name, value)))
    } else {
        match assign(scopes.drop_last(), name, value) {
            Some(outer) => Some(outer.push(scopes.last())),
            None => None,
        }
    }
}

/// The scopes after the innermost one is left. The outermost scope stays.
pub open spec fn leave(scopes: Seq<Scope>) -> Seq<Scope> {
    if scopes.len() > 1 {
        scopes.drop_last()
    } else {
        scopes
    }
}

/// Assignment changes no scope but one, and never their number.
pub proof fn lemma_assign_keeps_depth(scopes: Seq<Scope>, name: Seq<char>, value: ValueView)
    ensures
        assign(scopes, name, value) matches Some(after) ==> after.len() == scopes.len(),
        assign(scopes, name, value) is Some <==> lookup(scopes, name) is Some,
    decreases scopes.len(),
{
    if scopes.len() > 0 && !scopes.last().contains_key(name) {
        lemma_assign_keeps_depth(scopes.drop_last(), name, value);
    }
}

/// What an exec scope stands for.
pub open spec fn scope_view(m: Map<Seq<char>, Value>) -> Scope {
    m.map_values(|v: Value| v@)
}

/// Environment for managing variable scopes
pub struct Environment {
    scopes: Vec<StringHashMap<Value>>,
}

impl View for Environment {
    type V = Seq<Scope>;

    closed spec fn view(&self) -> Seq<Scope> {
        Seq::new(self.scopes.len() as nat, |i: int| scope_view(self.scopes[i]@))
    }
}

impl Environment {
    /// There is always a global scope.
    pub closed spec fn wf(&self) -> bool {
        self.scopes.len() >= 1
    }

    pub proof fn lemma_wf_depth(&self)
        requires
            self.wf(),
        ensures
            self@.len() >= 1,
    {
    }

    /// Create a new environment with a global scope
    pub fn new() -> (r: Self)
        ensures
            r.wf(),
            r@ == seq![Map::<Seq<char>, ValueView>::empty()],
    {
        let mut scopes: Vec<StringHashMap<Value>> = Vec::new();
        scopes.push(StringHashMap::new());
        let r = Environment { scopes };
        assert(scope_view(Map::<Seq<char>, Value>::empty()) =~= Map::<Seq<char>, ValueView>::empty());
        r
    }

    /// The number of scopes.
    pub fn depth(&self) -> (r: usize)
        ensures
            r == self@.len(),
    {
        self.scopes.len()
    }

    /// Push a new scope (for blocks, functions, etc.)
    pub fn push_scope(&mut self)
        requires
            old(self).wf(),
        ensures
            final(self).wf(),
            final(self)@ == old(self)@.push(Map::<Seq<char>, ValueView>::empty()),
    {
        self.scopes.push(StringHashMap::new());
        assert(scope_view(Map::<Seq<char>, Value>::empty()) =~= Map::<Seq<char>, ValueView>::empty());
    }

    /// Pop the current scope; the global scope is never popped.
    pub fn pop_scope(&mut self)
        requires
            old(self).wf(),
        ensures
            final(self).wf(),
            final(self)@ == leave(old(self)@),
    {
        if self.scopes.len() > 1 {
            self.scopes.pop();
        }
    }

    /// Define a new variable in the current scope
    pub fn define(&mut self, name: String, value: Value)
        requires
            old(self).wf(),
        ensures
            final(self).wf(),
            final(self)@ == declare(old(self)@, name@, value@),
    {
        let last = self.scopes.len() - 1;
        let mut scope = self.scopes.pop().unwrap();
        scope.insert(name, value);
        self.scopes.push(scope);
        assert(scope_view(old(self).scopes[last as int]@.insert(name@, value)) =~= scope_view(
            old(self).scopes[last as int]@,
        ).insert(name@, value@));
    }

    /// Get a variable value (searches from innermost to outermost scope)
    pub fn get(&self, name: &str) -> (r: RuntimeResult<Value>)
        requires
            self.wf(),
        ensures
            match lookup(self@, name@) {
                Some(v) => r matches Ok(found) && found@ == v,
                None => r matches Err(e) && e@ == (RuntimeErrorView::UndefinedVariable {
                    name: name@,
                }),
            },
    {
        let mut i: usize = self.scopes.len();
        assert(self@.take(i as int) =~= self@);
        while i > 0
            invariant
                i <= self.scopes.len(),
                lookup(self@.take(i as int), name@) == lookup(self@, name@),
            decreases i,
        {
            i -= 1;
            let ghost upto = self@.take(i + 1);
            assert(upto.drop_last() =~= self@.take(i as int));
            match self.scopes[i].get(name) {
                Some(value) => {
                    return Ok(value.clone());
                },
                None => {},
            }
        }
        Err(RuntimeError::UndefinedVariable { name: name.to_string() })
    }

    /// Update an existing variable (searches from innermost to outermost scope)
    pub fn set(&mut self, name: &str, value: Value) -> (r: RuntimeResult<()>)
        requires
            old(self).wf(),
        ensures
            final(self).wf(),
            match assign(old(self)@, name@, value@) {
                Some(after) => r is Ok && final(self)@ == after,
                None => {
                    &&& final(self)@ == old(self)@
                    &&& r matches Err(e)
                    &&& e@ == (RuntimeErrorView::AssignmentToUndefined { name: name@ })
                },
            },
    {
        let mut i: usize = self.scopes.len();
        let ghost whole = self@;
        proof {
            assert(whole.take(i as int) =~= whole);
            match assign(whole, name@, value@) {
                Some(inner) => {
                    lemma_assign_keeps_depth(whole, name@, value@);
                },
                None => {},
            }
        }
        while i > 0
            invariant
                i <= self.scopes.len(),
                self.wf(),
                *self == *old(self),
                whole == self@,
                match assign(whole.take(i as int), name@, value@) {
                    Some(inner) => assign(whole, name@, value@) == Some(
                        inner + whole.skip(i as int),
                    ),
                    None => assign(whole, name@, value@) is None,
                },
            decreases i,
        {
            i -= 1;
            let ghost upto = whole.take(i + 1);
            assert(upto.drop_last() =~= whole.take(i as int));
            if self.scopes[i].contains_key(name) {
                let ghost before = self.scopes[i as int]@;
                let mut scope = self.scopes.remove(i);
                scope.insert(name.to_string(), value);
                self.scopes.insert(i, scope);
                proof {
                    assert(scope_view(before.insert(name@, value)) =~= scope_view(before).insert(
                        name@,
                        value@,
                    ));
                }
                return Ok(());
            }
            proof {
                match assign(whole.take(i as int), name@, value@) {
                    Some(inner) => {
                        assert(inner.push(upto.last()) + whole.skip(i + 1) =~= inner + whole.skip(
                            i as int,
                        )) by {
                            lemma_assign_keeps_depth(whole.take(i as int), name@, value@);
                        }
                    },
                    None => {},
                }
            }
        }
        Err(RuntimeError::AssignmentToUndefined { name: name.to_string() })
    }

    /// Check if a variable exists in any scope
    pub fn contains(&self, name: &str) -> (r: bool)
        requires
            self.wf(),
        ensures
            r == lookup(self@, name@) is Some,
    {
        let mut i: usize = self.scopes.len();
        assert(self@.take(i as int) =~= self@);
        while i > 0
            invariant
                i <= self.scopes.len(),
                lookup(self@.take(i as int), name@) == lookup(self@, name@),
            decreases i,
        {
            i -= 1;
            let ghost upto = self@.take(i + 1);
            assert(upto.drop_last() =~= self@.take(i as int));
            if self.scopes[i].contains_key(name) {
                return true;
            }
        }
        false
    }
}

impl Default for Environment {
    fn default() -> (r: Self)
        ensures
            r.wf(),
            r@ == seq![Map::<Seq<char>, ValueView>::empty()],
    {
        Self::new()
    }
}

} // verus!
