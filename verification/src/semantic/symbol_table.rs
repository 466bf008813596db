use vstd::prelude::*;
use vstd::hash_map::StringHashMap;
use crate::ast::Type;

verus! {

/// What a name stands for: a variable of some type, or a function with its
/// parameter types and the type it returns.
#[derive(Debug, PartialEq)]
pub enum Symbol {
    Variable(Type),
    Function { params: Vec<Type>, return_type: Type },
}

/// The mathematical value of a [`Symbol`].
pub enum SymbolView {
    Variable(Type),
    Function { params: Seq<Type>, return_type: Type },
}

impl View for Symbol {
    type V = SymbolView;

    open spec fn view(&self) -> SymbolView {
        match self {
            Symbol::Variable(t) => SymbolView::Variable(*t),
            Symbol::Function { params, return_type } => SymbolView::Function {
                params: params@,
                return_type: *return_type,
            },
        }
    }
}

/// A copy of each type of `ts`.
pub fn clone_types(ts: &Vec<Type>) -> (r: Vec<Type>)
    ensures
        r@ == ts@,
{
    let mut out: Vec<Type> = Vec::new();
    let mut i: usize = 0;
    while i < ts.len()
        invariant
            i <= ts.len(),
            out.len() == i,
            forall|j: int| 0 <= j < i ==> out[j] == ts[j],
        decreases ts.len() - i,
    {
        out.push(ts[i].clone());
        i += 1;
    }
    out
}

impl Clone for Symbol {
    fn clone(&self) -> (r: Self)
        ensures
            r@ == self@,
    {
        match self {
            Symbol::Variable(t) => Symbol::Variable(t.clone()),
            Symbol::Function { params, return_type } => Symbol::Function {
                params: clone_types(params),
                return_type: return_type.clone(),
            },
        }
    }
}

/// One scope of the table: the symbols declared in it, by name.
pub type SymbolScope = Map<Seq<char>, SymbolView>;

/// The symbol bound to `name` in the innermost scope that declares it.
pub open spec fn resolve(scopes: Seq<SymbolScope>, name: Seq<char>) -> Option<SymbolView>
    decreases scopes.len(),
{
    if scopes.len() == 0 {
        None
    } else if scopes.last().contains_key(name) {
        Some(scopes.last()[name])
    } else {
        resolve(scopes.drop_last(), name)
    }
}

/// The scopes after `name` is bound to `symbol` in the innermost scope.
pub open spec fn bound(scopes: Seq<SymbolScope>, name: Seq<char>, symbol: SymbolView) -> Seq<
    SymbolScope,
> {
    if scopes.len() == 0 {
        scopes
    } else {
        scopes.update(scopes.len() - 1, scopes.last().insert(name, symbol))
    }
}

/// The scopes after the innermost one is left. The outermost scope stays.
pub open spec fn exited(scopes: Seq<SymbolScope>) -> Seq<SymbolScope> {
    if scopes.len() > 1 {
        scopes.drop_last()
    } else {
        scopes
    }
}

/// What an exec scope stands for.
pub open spec fn symbol_scope_view(m: Map<Seq<char>, Symbol>) -> SymbolScope {
    m.map_values(|s: Symbol| s@)
}

/// A stack of scopes that map names to symbols. Lookup walks from the
/// innermost scope outwards, so an inner declaration shadows an outer one.
pub struct SymbolTable {
    scopes: Vec<StringHashMap<Symbol>>,
}

impl View for SymbolTable {
    type V = Seq<SymbolScope>;

    closed spec fn view(&self) -> Seq<SymbolScope> {
        Seq::new(self.scopes.len() as nat, |i: int| symbol_scope_view(self.scopes[i]@))
    }
}

impl SymbolTable {
    /// There is always a global scope.
    pub closed spec fn wf(&self) -> bool {
        self.scopes.len() >= 1
    }

    pub proof fn lemma_wf_depth(&self)
        requires
            self.wf(),
        ensures
            self@.len() >= 1,
    {
    }

    /// A table with one scope, the global one, and nothing in it.
    pub fn new() -> (r: Self)
        ensures
            r.wf(),
            r@ == seq![Map::<Seq<char>, SymbolView>::empty()],
    {
        let mut scopes: Vec<StringHashMap<Symbol>> = Vec::new();
        scopes.push(StringHashMap::new());
        let r = SymbolTable { scopes };
        assert(symbol_scope_view(Map::<Seq<char>, Symbol>::empty()) =~= Map::<
            Seq<char>,
            SymbolView,
        >::empty());
        r
    }

    /// The number of scopes.
    pub fn depth(&self) -> (r: usize)
        ensures
            r == self@.len(),
    {
        self.scopes.len()
    }

    /// Opens a new innermost scope.
    pub fn enter_scope(&mut self)
        requires
            old(self).wf(),
        ensures
            final(self).wf(),
            final(self)@ == old(self)@.push(Map::<Seq<char>, SymbolView>::empty()),
    {
        self.scopes.push(StringHashMap::new());
        assert(symbol_scope_view(Map::<Seq<char>, Symbol>::empty()) =~= Map::<
            Seq<char>,
            SymbolView,
        >::empty());
    }

    /// Leaves the innermost scope; the global scope is never left.
    pub fn exit_scope(&mut self)
        requires
            old(self).wf(),
        ensures
            final(self).wf(),
            final(self)@ == exited(old(self)@),
    {
        if self.scopes.len() > 1 {
            self.scopes.pop();
        }
    }

    /// Binds `name` in the innermost scope.
    pub fn define(&mut self, name: String, symbol: Symbol)
        requires
            old(self).wf(),
        ensures
            final(self).wf(),
            final(self)@ == bound(old(self)@, name@, symbol@),
    {
        let last = self.scopes.len() - 1;
        let mut scope = self.scopes.pop().unwrap();
        scope.insert(name, symbol);
        self.scopes.push(scope);
        assert(symbol_scope_view(old(self).scopes[last as int]@.insert(name@, symbol))
            =~= symbol_scope_view(old(self).scopes[last as int]@).insert(name@, symbol@));
    }

    /// The symbol that `name` stands for, from the innermost scope outwards.
    pub fn get(&self, name: &str) -> (r: Option<Symbol>)
        requires
            self.wf(),
        ensures
            match resolve(self@, name@) {
                Some(s) => r matches Some(found) && found@ == s,
                None => r is None,
            },
    {
        let mut i: usize = self.scopes.len();
        assert(self@.take(i as int) =~= self@);
        while i > 0
            invariant
                i <= self.scopes.len(),
                resolve(self@.take(i as int), name@) == resolve(self@, name@),
            decreases i,
        {
            i -= 1;
            let ghost upto = self@.take(i + 1);
            assert(upto.drop_last() =~= self@.take(i as int));
            match self.scopes[i].get(name) {
                Some(symbol) => {
                    return Some(symbol.clone());
                },
                None => {},
            }
        }
        None
    }
}

impl Default for SymbolTable {
    fn default() -> (r: Self)
        ensures
            r.wf(),
            r@ == seq![Map::<Seq<char>, SymbolView>::empty()],
    {
        Self::new()
    }
}

} // verus!
