use vstd::prelude::*;
use vstd::string::StringExecFns;

use std::collections::HashMap;

use crate::error::EvalError;
use crate::fn_lib::{lookup_fn, FnDef, FnDefView, FunctionsLib};
use crate::hashing::{calc_fn_hash, spec_fn_hash};
use crate::name_map::{
    contains_entry, get_entry, get_entry_mut, insert_entry, lemma_map_of_same_names, map_of,
};
use crate::native::{behaves_as, WrapsCallable, Fn0, Fn1, Fn1Mut, Fn2, Fn2Mut, Fn3, Fn3Mut};
use crate::scope::{scope_modules, scope_vars, Scope, ScopeBinding};
use crate::types::{Dynamic, Position, TypeTag, Variant};

verus! {

broadcast use vstd::std_specs::hash::group_hash_axioms;

/// A namespace: variables, sub-modules, native functions keyed by their
/// overload hash, and script-defined functions.
///
/// `F` is the handle of a native function, shared between the modules that
/// hold it: `Rc<dyn NativeCallable>` within one thread, or an atomically
/// counted handle where modules cross threads.
#[verifier::reject_recursive_types(F)]
pub struct Module<F> {
    modules: Vec<(String, Module<F>)>,
    variables: Vec<(String, Dynamic)>,
    functions: HashMap<u64, F>,
    fn_lib: FunctionsLib,
}

impl<F> Module<F> {
    /// The variables, by name.
    pub closed spec fn vars(&self) -> Map<Seq<char>, Dynamic> {
        map_of(self.variables@)
    }

    /// The sub-modules, by name.
    pub closed spec fn subs(&self) -> Map<Seq<char>, Module<F>> {
        map_of(self.modules@)
    }

    /// The native functions, by overload hash.
    pub closed spec fn fns(&self) -> Map<u64, F> {
        self.functions@
    }

    /// The script-defined functions.
    pub closed spec fn lib(&self) -> Seq<FnDefView> {
        self.fn_lib@
    }

    /// An empty module.
    pub fn new() -> (r: Module<F>)
        ensures
            r.vars() == Map::<Seq<char>, Dynamic>::empty(),
            r.subs() == Map::<Seq<char>, Module<F>>::empty(),
            r.fns() == Map::<u64, F>::empty(),
            r.lib() == Seq::<FnDefView>::empty(),
    {
        Module {
            modules: Vec::new(),
            variables: Vec::new(),
            functions: HashMap::new(),
            fn_lib: FunctionsLib::new(),
        }
    }

    /// Does a variable exist in the module?
    pub fn contains_var(&self, name: &str) -> (r: bool)
        ensures
            r == self.vars().contains_key(name@),
    {
        contains_entry(&self.variables, name)
    }

    /// The value of a variable, where it holds a `T`.
    pub fn get_var_value<T: Variant>(&self, name: &str) -> (r: Option<T>)
        ensures
            r is Some <==> self.vars().contains_key(name@) && self.vars()[name@].spec_type_tag()
                == T::spec_tag(),
            r matches Some(v) ==> v.spec_into_dynamic() == self.vars()[name@],
    {
        match self.get_var(name) {
            Some(v) => T::try_cast(v),
            None => None,
        }
    }

    /// A copy of a variable's value.
    pub fn get_var(&self, name: &str) -> (r: Option<Dynamic>)
        ensures
            match r {
                Some(v) => self.vars().contains_key(name@) && v == self.vars()[name@],
                None => !self.vars().contains_key(name@),
            },
    {
        match get_entry(&self.variables, name) {
            Some(v) => Some(v.clone()),
            None => None,
        }
    }

    /// A mutable reference to a variable.
    pub fn get_var_mut(&mut self, name: &str) -> (r: Option<&mut Dynamic>)
        ensures
            final(self).subs() == old(self).subs(),
            final(self).fns() == old(self).fns(),
            final(self).lib() == old(self).lib(),
            match r {
                Some(v) => old(self).vars().contains_key(name@) && *v == old(self).vars()[name@]
                    && final(self).vars() == old(self).vars().insert(name@, *final(v)),
                None => !old(self).vars().contains_key(name@) && *final(self) == *old(self),
            },
    {
        get_entry_mut(&mut self.variables, name)
    }

    /// Sets a variable, replacing one of the same name.
    pub fn set_var<T: Variant>(&mut self, name: &str, value: T)
        ensures
            final(self).vars() == old(self).vars().insert(name@, value.spec_into_dynamic()),
            final(self).subs() == old(self).subs(),
            final(self).fns() == old(self).fns(),
            final(self).lib() == old(self).lib(),
    {
        insert_entry(&mut self.variables, name.to_owned(), value.into_dynamic());
    }

    /// Does a sub-module exist in the module?
    pub fn contains_sub_module(&self, name: &str) -> (r: bool)
        ensures
            r == self.subs().contains_key(name@),
    {
        contains_entry(&self.modules, name)
    }

    /// A sub-module.
    pub fn get_sub_module(&self, name: &str) -> (r: Option<&Module<F>>)
        ensures
            match r {
                Some(m) => self.subs().contains_key(name@) && *m == self.subs()[name@],
                None => !self.subs().contains_key(name@),
            },
    {
        get_entry(&self.modules, name)
    }

    /// A mutable reference to a sub-module.
    pub fn get_sub_module_mut(&mut self, name: &str) -> (r: Option<&mut Module<F>>)
        ensures
            final(self).vars() == old(self).vars(),
            final(self).fns() == old(self).fns(),
            final(self).lib() == old(self).lib(),
            match r {
                Some(m) => old(self).subs().contains_key(name@) && *m == old(self).subs()[name@]
                    && final(self).subs() == old(self).subs().insert(name@, *final(m)),
                None => !old(self).subs().contains_key(name@) && *final(self) == *old(self),
            },
    {
        get_entry_mut(&mut self.modules, name)
    }

    /// Sets a sub-module, replacing one of the same name.
    pub fn set_sub_module(&mut self, name: &str, sub_module: Module<F>)
        ensures
            final(self).subs() == old(self).subs().insert(name@, sub_module),
            final(self).vars() == old(self).vars(),
            final(self).fns() == old(self).fns(),
            final(self).lib() == old(self).lib(),
    {
        insert_entry(&mut self.modules, name.to_owned(), sub_module);
    }

    /// Does a native function of this overload hash exist in the module?
    pub fn contains_fn(&self, hash: u64) -> (r: bool)
        ensures
            r == self.fns().contains_key(hash),
    {
        self.functions.contains_key(&hash)
    }

    /// Registers a native function under the hash of its name and parameter types,
    /// replacing one of the same hash, and returns the hash.
    pub fn set_fn(&mut self, fn_name: &str, params: &[TypeTag], func: F) -> (r: u64)
        ensures
            r == spec_fn_hash(fn_name@, params@),
            final(self).fns() == old(self).fns().insert(r, func),
            final(self).vars() == old(self).vars(),
            final(self).subs() == old(self).subs(),
            final(self).lib() == old(self).lib(),
    {
        let hash = calc_fn_hash(fn_name, params);
        self.functions.insert(hash, func);
        hash
    }

    /// The native function of this overload hash.
    pub fn get_fn(&self, hash: u64) -> (r: Option<&F>)
        ensures
            match r {
                Some(f) => self.fns().contains_key(hash) && *f == self.fns()[hash],
                None => !self.fns().contains_key(hash),
            },
    {
        self.functions.get(&hash)
    }

    /// The script-defined functions.
    pub fn get_fn_lib(&self) -> (r: &FunctionsLib)
        ensures
            r@ == self.lib(),
    {
        &self.fn_lib
    }

    /// Adds the definitions of `lib` to the module's script-defined
    /// functions; on the same name and arity those of `lib` count.
    pub fn merge_fn_lib(&mut self, lib: &FunctionsLib)
        ensures
            final(self).lib() == old(self).lib() + lib@,
            final(self).vars() == old(self).vars(),
            final(self).subs() == old(self).subs(),
            final(self).fns() == old(self).fns(),
    {
        self.fn_lib = self.fn_lib.merge(lib);
    }
}

/// `a` and `b` agree down to `d` levels of sub-modules: the same
/// variables, native functions and script functions, and sub-modules of
/// the same names that agree down to one level less.
pub open spec fn same_to_depth<F>(a: Module<F>, b: Module<F>, d: nat) -> bool
    decreases d,
{
    &&& a.vars() == b.vars()
    &&& a.fns() == b.fns()
    &&& a.lib() == b.lib()
    &&& a.subs().dom() == b.subs().dom()
    &&& d > 0 ==> forall|k: Seq<char>| #![trigger a.subs()[k]]
        a.subs().contains_key(k) ==> same_to_depth(a.subs()[k], b.subs()[k], (d - 1) as nat)
}

/// `a` is a copy of `b`: they agree at every depth of sub-modules.
pub open spec fn copy_of<F>(a: Module<F>, b: Module<F>) -> bool {
    forall|d: nat| #[trigger] same_to_depth(a, b, d)
}

pub(crate) proof fn lemma_copies_map<F>(s: Seq<(String, Module<F>)>, t: Seq<(String, Module<F>)>, k: Seq<char>)
    requires
        s.len() == t.len(),
        forall|j: int| 0 <= j < s.len() ==> #[trigger] s[j].0@ == t[j].0@ && copy_of(s[j].1, t[j].1),
        map_of(s).contains_key(k),
    ensures
        map_of(t).contains_key(k),
        copy_of(map_of(s)[k], map_of(t)[k]),
    decreases s.len(),
{
    let n = s.len() - 1;
    assert(s[n].0@ == t[n].0@ && copy_of(s[n].1, t[n].1));
    if s.last().0@ != k {
        lemma_copies_map(s.drop_last(), t.drop_last(), k);
    }
}

impl<F: Clone> Module<F> {
    /// A copy of the module: the same variables, native functions and
    /// script functions, and a copy of each sub-module.
    fn copy(&self) -> (r: Module<F>)
        ensures
            r.vars() == self.vars(),
            r.fns() == self.fns(),
            r.lib() == self.lib(),
            r.subs().dom() == self.subs().dom(),
            copy_of(r, *self),
        decreases self,
    {
        let mut variables: Vec<(String, Dynamic)> = Vec::new();
        let mut i: usize = 0;
        while i < self.variables.len()
            invariant
                i <= self.variables@.len(),
                variables@ == self.variables@.take(i as int),
            decreases self.variables@.len() - i,
        {
            let (name, value) = &self.variables[i];
            variables.push((name.clone(), value.clone()));
            proof {
                assert(variables@ =~= self.variables@.take(i + 1));
            }
            i = i + 1;
        }
        proof {
            assert(variables@ =~= self.variables@);
        }
        let mut modules: Vec<(String, Module<F>)> = Vec::new();
        let mut j: usize = 0;
        while j < self.modules.len()
            invariant
                j <= self.modules@.len(),
                modules@.len() == j,
                forall|k: int| 0 <= k < j ==> #[trigger] modules@[k].0@ == self.modules@[k].0@
                    && copy_of(modules@[k].1, self.modules@[k].1),
            decreases self.modules@.len() - j,
        {
            let (name, sub) = &self.modules[j];
            proof {
                assert(decreases_to!(self => self.modules));
                assert(decreases_to!(self.modules => self.modules[j as int]));
            }
            modules.push((name.clone(), sub.copy()));
            j = j + 1;
        }
        proof {
            lemma_map_of_same_names(modules@, self.modules@);
        }
        let r = Module {
            modules,
            variables,
            functions: self.functions.clone(),
            fn_lib: self.fn_lib.clone(),
        };
        proof {
            assert forall|d: nat| #[trigger] same_to_depth(r, *self, d) by {
                if d > 0 {
                    assert forall|k: Seq<char>| #![trigger r.subs()[k]] r.subs().contains_key(k) implies
                        same_to_depth(r.subs()[k], self.subs()[k], (d - 1) as nat) by {
                        lemma_copies_map(r.modules@, self.modules@, k);
                    }
                }
            }
        }
        r
    }
}

impl<F> Default for Module<F> {
    fn default() -> (r: Self)
        ensures
            r.vars() == Map::<Seq<char>, Dynamic>::empty(),
            r.subs() == Map::<Seq<char>, Module<F>>::empty(),
            r.fns() == Map::<u64, F>::empty(),
            r.lib() == Seq::<FnDefView>::empty(),
    {
        Module::new()
    }
}

impl<F: Clone> Clone for Module<F> {
    fn clone(&self) -> (r: Self)
        ensures
            r.vars() == self.vars(),
            r.fns() == self.fns(),
            r.lib() == self.lib(),
            r.subs().dom() == self.subs().dom(),
            copy_of(r, *self),
    {
        self.copy()
    }
}

/// The module that `path` leads to from `m`, descending from segment `i`
/// on through sub-modules.
pub open spec fn target_of<F>(m: Module<F>, path: Seq<(String, Position)>, i: int) -> Option<Module<F>>
    decreases path.len() - i,
{
    if i < 0 || i >= path.len() {
        Some(m)
    } else if m.subs().contains_key(path[i].0@) {
        target_of(m.subs()[path[i].0@], path, i + 1)
    } else {
        None
    }
}

/// The first segment from `i` on that names no sub-module, where the
/// descent fails.
pub open spec fn first_missing<F>(m: Module<F>, path: Seq<(String, Position)>, i: int) -> int
    decreases path.len() - i,
{
    if i < 0 || i >= path.len() {
        path.len() as int
    } else if m.subs().contains_key(path[i].0@) {
        first_missing(m.subs()[path[i].0@], path, i + 1)
    } else {
        i
    }
}

/// `new` is `old` where only the module at the end of `path` may have
/// changed.
pub open spec fn same_outside<F>(old: Module<F>, new: Module<F>, path: Seq<(String, Position)>, i: int) -> bool
    decreases path.len() - i,
{
    if i < 0 || i >= path.len() {
        true
    } else {
        let k = path[i].0@;
        &&& old.vars() == new.vars()
        &&& old.fns() == new.fns()
        &&& old.lib() == new.lib()
        &&& old.subs().contains_key(k)
        &&& new.subs() == old.subs().insert(k, new.subs()[k])
        &&& same_outside(old.subs()[k], new.subs()[k], path, i + 1)
    }
}

/// The error of a qualified lookup whose module is missing: it names the
/// first missing segment, at that segment's position.
pub open spec fn module_missing<F>(e: EvalError, m: Module<F>, path: Seq<(String, Position)>) -> bool {
    let k = first_missing(m, path, 1);
    &&& 1 <= k < path.len()
    &&& e matches EvalError::ModuleNotFound(n, p) && n@ == path[k].0@ && p == path[k].1
}

impl<F> Module<F> {
    fn descend(&self, path: &[(String, Position)], i: usize) -> (r: Result<&Module<F>, EvalError>)
        requires
            1 <= i <= path@.len(),
        ensures
            match r {
                Ok(m) => target_of(*self, path@, i as int) == Some(*m),
                Err(e) => target_of(*self, path@, i as int) is None && {
                    let k = first_missing(*self, path@, i as int);
                    &&& i <= k < path@.len()
                    &&& e matches EvalError::ModuleNotFound(n, p) && n@ == path@[k].0@ && p == path@[k].1
                },
            },
        decreases path@.len() - i,
    {
        if i >= path.len() {
            return Ok(self);
        }
        match self.get_sub_module(path[i].0.as_str()) {
            Some(sub) => sub.descend(path, i + 1),
            None => Err(EvalError::ModuleNotFound(path[i].0.clone(), path[i].1)),
        }
    }

    fn descend_mut(
        &mut self,
        path: &[(String, Position)],
        i: usize,
    ) -> (r: Result<&mut Module<F>, EvalError>)
        requires
            1 <= i <= path@.len(),
            target_of(*old(self), path@, i as int) is Some,
        ensures
            r matches Ok(m) && target_of(*old(self), path@, i as int) == Some(*m)
                && target_of(*final(self), path@, i as int) == Some(*final(m))
                && same_outside(*old(self), *final(self), path@, i as int),
        decreases path@.len() - i,
    {
        if i >= path.len() {
            return Ok(self);
        }
        match self.get_sub_module_mut(path[i].0.as_str()) {
            Some(sub) => sub.descend_mut(path, i + 1),
            None => Err(EvalError::ModuleNotFound(path[i].0.clone(), path[i].1)),
        }
    }

    /// The module at the end of a qualified path. The first segment stands
    /// for this module itself; each further one names a sub-module of the
    /// one before.
    pub fn get_qualified_module_mut(
        &mut self,
        modules: &[(String, Position)],
    ) -> (r: Result<&mut Module<F>, EvalError>)
        requires
            modules@.len() >= 1,
        ensures
            match r {
                Ok(m) => target_of(*old(self), modules@, 1) == Some(*m)
                    && target_of(*final(self), modules@, 1) == Some(*final(m))
                    && same_outside(*old(self), *final(self), modules@, 1),
                Err(e) => target_of(*old(self), modules@, 1) is None && *final(self) == *old(self)
                    && module_missing(e, *old(self), modules@),
            },
    {
        match self.descend(modules, 1) {
            Err(e) => {
                return Err(e);
            },
            Ok(_) => {},
        }
        self.descend_mut(modules, 1)
    }
}

/// Every segment of `path` followed by the namespace separator `::`.
pub open spec fn joined_path(path: Seq<(String, Position)>) -> Seq<char>
    decreases path.len(),
{
    if path.len() == 0 {
        Seq::empty()
    } else {
        joined_path(path.drop_last()) + path.last().0@ + seq![':', ':']
    }
}

/// The name under which a function missing from a qualified path is
/// reported: `a::b::name`.
pub open spec fn qualified_name(path: Seq<(String, Position)>, name: Seq<char>) -> Seq<char> {
    joined_path(path) + name
}

/// Builds the reported name of a function: every segment and `::`, then
/// the function's own name.
fn build_qualified_name(path: &[(String, Position)], name: &str) -> (r: String)
    ensures
        r@ == qualified_name(path@, name@),
{
    let mut s = String::new();
    let mut i: usize = 0;
    while i < path.len()
        invariant
            i <= path@.len(),
            s@ == joined_path(path@.take(i as int)),
        decreases path@.len() - i,
    {
        proof {
            reveal_strlit("::");
            assert(path@.take(i + 1).drop_last() =~= path@.take(i as int));
        }
        s.append(path[i].0.as_str());
        s.append("::");
        i = i + 1;
    }
    proof {
        assert(path@.take(i as int) =~= path@);
    }
    s.append(name);
    s
}

impl<F> Module<F> {
    /// A mutable reference to a variable of the module at the end of a
    /// qualified path.
    pub fn get_qualified_var_mut(
        &mut self,
        name: &str,
        modules: &[(String, Position)],
        pos: Position,
    ) -> (r: Result<&mut Dynamic, EvalError>)
        requires
            modules@.len() >= 1,
        ensures
            match r {
                Ok(v) => target_of(*old(self), modules@, 1) matches Some(t)
                    && t.vars().contains_key(name@) && *v == t.vars()[name@]
                    && same_outside(*old(self), *final(self), modules@, 1)
                    && (target_of(*final(self), modules@, 1) matches Some(t2)
                    && t2.vars() == t.vars().insert(name@, *final(v))
                    && t2.subs() == t.subs() && t2.fns() == t.fns() && t2.lib() == t.lib()),
                Err(e) => *final(self) == *old(self) && match target_of(*old(self), modules@, 1) {
                    None => module_missing(e, *old(self), modules@),
                    Some(t) => !t.vars().contains_key(name@)
                        && (e matches EvalError::VariableNotFound(n, p) && n@ == name@ && p == pos),
                },
            },
    {
        let found = match self.descend(modules, 1) {
            Err(e) => {
                return Err(e);
            },
            Ok(m) => m.contains_var(name),
        };
        if !found {
            return Err(EvalError::VariableNotFound(name.to_owned(), pos));
        }
        match self.descend_mut(modules, 1) {
            Ok(m) => match m.get_var_mut(name) {
                Some(v) => Ok(v),
                None => Err(EvalError::VariableNotFound(name.to_owned(), pos)),
            },
            Err(e) => Err(e),
        }
    }

    /// The native function of this overload hash in the module at the end
    /// of a qualified path.
    pub fn get_qualified_fn(
        &self,
        name: &str,
        hash: u64,
        modules: &[(String, Position)],
        pos: Position,
    ) -> (r: Result<&F, EvalError>)
        requires
            modules@.len() >= 1,
        ensures
            match r {
                Ok(f) => target_of(*self, modules@, 1) matches Some(t) && t.fns().contains_key(hash)
                    && *f == t.fns()[hash],
                Err(e) => match target_of(*self, modules@, 1) {
                    None => module_missing(e, *self, modules@),
                    Some(t) => !t.fns().contains_key(hash)
                        && (e matches EvalError::FunctionNotFound(n, p) && n@ == qualified_name(modules@, name@)
                        && p == pos),
                },
            },
    {
        match self.descend(modules, 1) {
            Err(e) => Err(e),
            Ok(m) => match m.get_fn(hash) {
                Some(f) => Ok(f),
                None => Err(EvalError::FunctionNotFound(build_qualified_name(modules, name), pos)),
            },
        }
    }

    /// The script-defined function of this name and arity in the module at
    /// the end of a qualified path.
    pub fn get_qualified_fn_lib(
        &self,
        name: &str,
        args: usize,
        modules: &[(String, Position)],
    ) -> (r: Result<Option<&FnDef>, EvalError>)
        requires
            modules@.len() >= 1,
        ensures
            match r {
                Ok(o) => target_of(*self, modules@, 1) matches Some(t) && match o {
                    Some(d) => lookup_fn(t.lib(), name@, args as nat) == Some(d@),
                    None => lookup_fn(t.lib(), name@, args as nat) is None,
                },
                Err(e) => target_of(*self, modules@, 1) is None && module_missing(e, *self, modules@),
            },
    {
        match self.descend(modules, 1) {
            Err(e) => Err(e),
            Ok(m) => Ok(m.fn_lib.get_function(name, args)),
        }
    }
}

impl<F> Module<F> {
    /// The module that an evaluated script leaves: its variables and
    /// constants become variables, its imported modules become
    /// sub-modules, and `lib` becomes its script-defined functions.
    pub fn from_scope(scope: Scope<F>, lib: &FunctionsLib) -> (r: Module<F>)
        ensures
            r.vars() == scope_vars(scope@),
            r.subs() == scope_modules(scope@),
            r.fns() == Map::<u64, F>::empty(),
            r.lib() == lib@,
    {
        let ghost all = scope@;
        let mut entries = scope.into_entries();
        let mut module: Module<F> = Module::new();
        let mut done: usize = 0;
        let n = entries.len();
        proof {
            assert(all.skip(0) =~= all);
            assert(n == all.len());
        }
        while entries.len() > 0
            invariant
                done <= all.len(),
                all.len() <= usize::MAX,
                entries@ == all.skip(done as int),
                module.vars() == scope_vars(all.take(done as int)),
                module.subs() == scope_modules(all.take(done as int)),
                module.fns() == Map::<u64, F>::empty(),
                module.lib() == Seq::<FnDefView>::empty(),
            decreases entries@.len(),
        {
            let (name, binding) = entries.remove(0);
            proof {
                assert(all.take(done + 1).drop_last() =~= all.take(done as int));
                assert(all[done as int] == (name, binding));
                assert(entries@ =~= all.skip(done + 1));
            }
            match binding {
                ScopeBinding::Normal(v) => insert_entry(&mut module.variables, name, v),
                ScopeBinding::Constant(v) => insert_entry(&mut module.variables, name, v),
                ScopeBinding::Module(m) => insert_entry(&mut module.modules, name, m),
            }
            done = done + 1;
        }
        proof {
            assert(all.take(done as int) =~= all);
        }
        module.merge_fn_lib(lib);
        proof {
            assert(Seq::<FnDefView>::empty() + lib@ =~= lib@);
        }
        module
    }
}

impl<F> Module<F> {
    /// Registers a native function taking no parameters, returning its overload hash; a
    /// function of the same name and parameter types is replaced.
    pub fn set_fn_0<T: Variant, G: Fn() -> Result<T, EvalError>>(
        &mut self,
        fn_name: &str,
        func: G,
    ) -> (r: u64)
        where
            F: WrapsCallable<Fn0<T, G>>,
        requires
            call_requires(func, ()),
        ensures
            r == spec_fn_hash(fn_name@, Seq::<TypeTag>::empty()),
            exists|f: F| final(self).fns() == old(self).fns().insert(r, f),
            exists|ad: Fn0<T, G>| ad.func() == func && behaves_as(final(self).fns()[r], ad),
            final(self).vars() == old(self).vars(),
            final(self).subs() == old(self).subs(),
            final(self).lib() == old(self).lib(),
    {
        let adapter = Fn0::new(func);
        let ghost ad = adapter;
        let arg_types: [TypeTag; 0] = [];
        proof {
            assert(arg_types@ =~= Seq::<TypeTag>::empty());
        }
        self.set_fn(fn_name, &arg_types, F::wrap(adapter))
    }

    /// Registers a native function taking one parameter, returning its overload hash; a
    /// function of the same name and parameter types is replaced.
    pub fn set_fn_1<A: Variant, T: Variant, G: Fn(A) -> Result<T, EvalError>>(
        &mut self,
        fn_name: &str,
        func: G,
    ) -> (r: u64)
        where
            F: WrapsCallable<Fn1<A, T, G>>,
        requires
            forall|a: A| call_requires(func, (a,)),
        ensures
            r == spec_fn_hash(fn_name@, seq![A::spec_tag()]),
            exists|f: F| final(self).fns() == old(self).fns().insert(r, f),
            exists|ad: Fn1<A, T, G>| ad.func() == func && behaves_as(final(self).fns()[r], ad),
            final(self).vars() == old(self).vars(),
            final(self).subs() == old(self).subs(),
            final(self).lib() == old(self).lib(),
    {
        let adapter = Fn1::new(func);
        let ghost ad = adapter;
        let arg_types: [TypeTag; 1] = [A::tag()];
        proof {
            assert(arg_types@ =~= seq![A::spec_tag()]);
        }
        self.set_fn(fn_name, &arg_types, F::wrap(adapter))
    }

    /// Registers a native function taking one parameter, the first one by mutable
    /// reference, returning its overload hash; a function of the same name and parameter
    /// types is replaced.
    pub fn set_fn_1_mut<A: Variant, T: Variant, G: Fn(&mut A) -> Result<T, EvalError>>(
        &mut self,
        fn_name: &str,
        func: G,
    ) -> (r: u64)
        where
            F: WrapsCallable<Fn1Mut<A, T, G>>,
        requires
            forall|a: &mut A| call_requires(func, (a,)),
        ensures
            r == spec_fn_hash(fn_name@, seq![A::spec_tag()]),
            exists|f: F| final(self).fns() == old(self).fns().insert(r, f),
            exists|ad: Fn1Mut<A, T, G>| ad.func() == func && behaves_as(final(self).fns()[r], ad),
            final(self).vars() == old(self).vars(),
            final(self).subs() == old(self).subs(),
            final(self).lib() == old(self).lib(),
    {
        let adapter = Fn1Mut::new(func);
        let ghost ad = adapter;
        let arg_types: [TypeTag; 1] = [A::tag()];
        proof {
            assert(arg_types@ =~= seq![A::spec_tag()]);
        }
        self.set_fn(fn_name, &arg_types, F::wrap(adapter))
    }

    /// Registers a native function taking two parameters, returning its overload hash; a
    /// function of the same name and parameter types is replaced.
    pub fn set_fn_2<A: Variant, B: Variant, T: Variant, G: Fn(A, B) -> Result<T, EvalError>>(
        &mut self,
        fn_name: &str,
        func: G,
    ) -> (r: u64)
        where
            F: WrapsCallable<Fn2<A, B, T, G>>,
        requires
            forall|a: A, b: B| call_requires(func, (a, b)),
        ensures
            r == spec_fn_hash(fn_name@, seq![A::spec_tag(), B::spec_tag()]),
            exists|f: F| final(self).fns() == old(self).fns().insert(r, f),
            exists|ad: Fn2<A, B, T, G>| ad.func() == func && behaves_as(final(self).fns()[r], ad),
            final(self).vars() == old(self).vars(),
            final(self).subs() == old(self).subs(),
            final(self).lib() == old(self).lib(),
    {
        let adapter = Fn2::new(func);
        let ghost ad = adapter;
        let arg_types: [TypeTag; 2] = [A::tag(), B::tag()];
        proof {
            assert(arg_types@ =~= seq![A::spec_tag(), B::spec_tag()]);
        }
        self.set_fn(fn_name, &arg_types, F::wrap(adapter))
    }

    /// Registers a native function taking two parameters, the first one by mutable
    /// reference, returning its overload hash; a function of the same name and parameter
    /// types is replaced.
    pub fn set_fn_2_mut<A: Variant, B: Variant, T: Variant, G: Fn(&mut A, B) -> Result<T, EvalError>>(
        &mut self,
        fn_name: &str,
        func: G,
    ) -> (r: u64)
        where
            F: WrapsCallable<Fn2Mut<A, B, T, G>>,
        requires
            forall|a: &mut A, b: B| call_requires(func, (a, b)),
        ensures
            r == spec_fn_hash(fn_name@, seq![A::spec_tag(), B::spec_tag()]),
            exists|f: F| final(self).fns() == old(self).fns().insert(r, f),
            exists|ad: Fn2Mut<A, B, T, G>| ad.func() == func && behaves_as(final(self).fns()[r], ad),
            final(self).vars() == old(self).vars(),
            final(self).subs() == old(self).subs(),
            final(self).lib() == old(self).lib(),
    {
        let adapter = Fn2Mut::new(func);
        let ghost ad = adapter;
        let arg_types: [TypeTag; 2] = [A::tag(), B::tag()];
        proof {
            assert(arg_types@ =~= seq![A::spec_tag(), B::spec_tag()]);
        }
        self.set_fn(fn_name, &arg_types, F::wrap(adapter))
    }

    /// Registers a native function taking three parameters, returning its overload hash; a
    /// function of the same name and parameter types is replaced.
    pub fn set_fn_3<A: Variant, B: Variant, C: Variant, T: Variant, G: Fn(A, B, C) -> Result<T, EvalError>>(
        &mut self,
        fn_name: &str,
        func: G,
    ) -> (r: u64)
        where
            F: WrapsCallable<Fn3<A, B, C, T, G>>,
        requires
            forall|a: A, b: B, c: C| call_requires(func, (a, b, c)),
        ensures
            r == spec_fn_hash(fn_name@, seq![A::spec_tag(), B::spec_tag(), C::spec_tag()]),
            exists|f: F| final(self).fns() == old(self).fns().insert(r, f),
            exists|ad: Fn3<A, B, C, T, G>| ad.func() == func && behaves_as(final(self).fns()[r], ad),
            final(self).vars() == old(self).vars(),
            final(self).subs() == old(self).subs(),
            final(self).lib() == old(self).lib(),
    {
        let adapter = Fn3::new(func);
        let ghost ad = adapter;
        let arg_types: [TypeTag; 3] = [A::tag(), B::tag(), C::tag()];
        proof {
            assert(arg_types@ =~= seq![A::spec_tag(), B::spec_tag(), C::spec_tag()]);
        }
        self.set_fn(fn_name, &arg_types, F::wrap(adapter))
    }

    /// Registers a native function taking three parameters, the first one by mutable
    /// reference, returning its overload hash; a function of the same name and parameter
    /// types is replaced.
    pub fn set_fn_3_mut<A: Variant, B: Variant, C: Variant, T: Variant, G: Fn(&mut A, B, C) -> Result<T, EvalError>>(
        &mut self,
        fn_name: &str,
        func: G,
    ) -> (r: u64)
        where
            F: WrapsCallable<Fn3Mut<A, B, C, T, G>>,
        requires
            forall|a: &mut A, b: B, c: C| call_requires(func, (a, b, c)),
        ensures
            r == spec_fn_hash(fn_name@, seq![A::spec_tag(), B::spec_tag(), C::spec_tag()]),
            exists|f: F| final(self).fns() == old(self).fns().insert(r, f),
            exists|ad: Fn3Mut<A, B, C, T, G>| ad.func() == func && behaves_as(final(self).fns()[r], ad),
            final(self).vars() == old(self).vars(),
            final(self).subs() == old(self).subs(),
            final(self).lib() == old(self).lib(),
    {
        let adapter = Fn3Mut::new(func);
        let ghost ad = adapter;
        let arg_types: [TypeTag; 3] = [A::tag(), B::tag(), C::tag()];
        proof {
            assert(arg_types@ =~= seq![A::spec_tag(), B::spec_tag(), C::spec_tag()]);
        }
        self.set_fn(fn_name, &arg_types, F::wrap(adapter))
    }
}

} // verus!
