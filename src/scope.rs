use vstd::prelude::*;

use crate::module::Module;
use crate::types::Dynamic;

verus! {

/// What a name is bound to in an evaluation scope.
#[verifier::reject_recursive_types(F)]
pub enum ScopeBinding<F> {
    /// A variable.
    Normal(Dynamic),
    /// A constant.
    Constant(Dynamic),
    /// An imported module.
    Module(Module<F>),
}

/// The bindings a script evaluation leaves behind, in the order they were
/// made.
#[verifier::reject_recursive_types(F)]
pub struct Scope<F> {
    entries: Vec<(String, ScopeBinding<F>)>,
}

impl<F> View for Scope<F> {
    type V = Seq<(String, ScopeBinding<F>)>;

    closed spec fn view(&self) -> Seq<(String, ScopeBinding<F>)> {
        self.entries@
    }
}

impl<F> Scope<F> {
    /// An empty scope.
    pub fn new() -> (r: Scope<F>)
        ensures
            r@ == Seq::<(String, ScopeBinding<F>)>::empty(),
    {
        Scope { entries: Vec::new() }
    }

    /// The number of bindings.
    pub fn len(&self) -> (r: usize)
        ensures
            r == self@.len(),
    {
        self.entries.len()
    }

    /// Adds a binding after the others.
    pub fn push(&mut self, name: String, binding: ScopeBinding<F>)
        ensures
            final(self)@ == old(self)@.push((name, binding)),
    {
        self.entries.push((name, binding));
    }

    /// Adds a variable.
    pub fn push_var(&mut self, name: &str, value: Dynamic)
        ensures
            final(self)@.len() == old(self)@.len() + 1,
            final(self)@.drop_last() == old(self)@,
            final(self)@.last().0@ == name@,
            final(self)@.last().1 == ScopeBinding::<F>::Normal(value),
    {
        self.push(name.to_owned(), ScopeBinding::Normal(value));
        proof {
            assert(self@.drop_last() =~= old(self)@);
        }
    }

    /// Adds a constant.
    pub fn push_constant(&mut self, name: &str, value: Dynamic)
        ensures
            final(self)@.len() == old(self)@.len() + 1,
            final(self)@.drop_last() == old(self)@,
            final(self)@.last().0@ == name@,
            final(self)@.last().1 == ScopeBinding::<F>::Constant(value),
    {
        self.push(name.to_owned(), ScopeBinding::Constant(value));
        proof {
            assert(self@.drop_last() =~= old(self)@);
        }
    }

    /// Adds an imported module.
    pub fn push_module(&mut self, name: &str, module: Module<F>)
        ensures
            final(self)@.len() == old(self)@.len() + 1,
            final(self)@.drop_last() == old(self)@,
            final(self)@.last().0@ == name@,
            final(self)@.last().1 == ScopeBinding::<F>::Module(module),
    {
        self.push(name.to_owned(), ScopeBinding::Module(module));
        proof {
            assert(self@.drop_last() =~= old(self)@);
        }
    }

    /// The bindings, in order.
    pub fn into_entries(self) -> (r: Vec<(String, ScopeBinding<F>)>)
        ensures
            r@ == self@,
    {
        self.entries
    }
}

/// The variables and constants that `s` leaves: the last binding of a name
/// counts.
pub open spec fn scope_vars<F>(s: Seq<(String, ScopeBinding<F>)>) -> Map<Seq<char>, Dynamic>
    decreases s.len(),
{
    if s.len() == 0 {
        Map::empty()
    } else {
        match s.last().1 {
            ScopeBinding::Normal(v) => scope_vars(s.drop_last()).insert(s.last().0@, v),
            ScopeBinding::Constant(v) => scope_vars(s.drop_last()).insert(s.last().0@, v),
            ScopeBinding::Module(_) => scope_vars(s.drop_last()),
        }
    }
}

/// The modules that `s` leaves: the last binding of a name counts.
pub open spec fn scope_modules<F>(s: Seq<(String, ScopeBinding<F>)>) -> Map<Seq<char>, Module<F>>
    decreases s.len(),
{
    if s.len() == 0 {
        Map::empty()
    } else {
        match s.last().1 {
            ScopeBinding::Module(m) => scope_modules(s.drop_last()).insert(s.last().0@, m),
            _ => scope_modules(s.drop_last()),
        }
    }
}

} // verus!
