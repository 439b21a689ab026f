use vstd::prelude::*;

use crate::hashing::spec_fn_hash;
use crate::module::Module;
use crate::resolvers::StaticModuleResolver;
use crate::types::{Dynamic, TypeTag};

verus! {

/// Once `set_fn` has registered `func` under the hash of its name and
/// parameter types, the module holds that hash, and the function under it
/// is `func`.
pub proof fn set_fn_then_contains<F>(
    before: Module<F>,
    after: Module<F>,
    name: Seq<char>,
    params: Seq<TypeTag>,
    func: F,
)
    requires
        after.fns() == before.fns().insert(spec_fn_hash(name, params), func),
    ensures
        after.fns().contains_key(spec_fn_hash(name, params)),
        after.fns()[spec_fn_hash(name, params)] == func,
{
}

/// Two functions of one name whose parameter types give different hashes
/// both stay registered, each under its own hash.
pub proof fn overloads_coexist<F>(
    m0: Module<F>,
    m1: Module<F>,
    m2: Module<F>,
    name: Seq<char>,
    params1: Seq<TypeTag>,
    params2: Seq<TypeTag>,
    f1: F,
    f2: F,
)
    requires
        spec_fn_hash(name, params1) != spec_fn_hash(name, params2),
        m1.fns() == m0.fns().insert(spec_fn_hash(name, params1), f1),
        m2.fns() == m1.fns().insert(spec_fn_hash(name, params2), f2),
    ensures
        m2.fns().contains_key(spec_fn_hash(name, params1)),
        m2.fns().contains_key(spec_fn_hash(name, params2)),
        m2.fns()[spec_fn_hash(name, params1)] == f1,
        m2.fns()[spec_fn_hash(name, params2)] == f2,
{
}

/// Registering a second function under the same name and parameter types
/// leaves one entry for them, the second function.
pub proof fn reregistering_replaces<F>(
    m0: Module<F>,
    m1: Module<F>,
    m2: Module<F>,
    name: Seq<char>,
    params: Seq<TypeTag>,
    f1: F,
    f2: F,
)
    requires
        m1.fns() == m0.fns().insert(spec_fn_hash(name, params), f1),
        m2.fns() == m1.fns().insert(spec_fn_hash(name, params), f2),
    ensures
        m2.fns() == m0.fns().insert(spec_fn_hash(name, params), f2),
        m2.fns()[spec_fn_hash(name, params)] == f2,
{
    assert(m2.fns() =~= m0.fns().insert(spec_fn_hash(name, params), f2));
}

/// A variable reads back as the value last set under its name.
pub proof fn set_var_then_get<F>(
    m0: Module<F>,
    m1: Module<F>,
    m2: Module<F>,
    name: Seq<char>,
    v1: Dynamic,
    v2: Dynamic,
)
    requires
        m1.vars() == m0.vars().insert(name, v1),
        m2.vars() == m1.vars().insert(name, v2),
    ensures
        m1.vars().contains_key(name) && m1.vars()[name] == v1,
        m2.vars().contains_key(name) && m2.vars()[name] == v2,
        m2.vars() == m0.vars().insert(name, v2),
{
    assert(m2.vars() =~= m0.vars().insert(name, v2));
}

/// Two computations of the overload hash of one name and one list of
/// parameter types give the same value: it depends on them and on the
/// build's hashing seed alone.
pub proof fn fn_hash_is_stable(name: Seq<char>, params: Seq<TypeTag>, h1: u64, h2: u64)
    requires
        h1 == spec_fn_hash(name, params),
        h2 == spec_fn_hash(name, params),
    ensures
        h1 == h2,
{
}

/// A module put into a static resolver under a path is served under that
/// path.
pub proof fn static_insert_then_serve<F>(
    r0: StaticModuleResolver<F>,
    r1: StaticModuleResolver<F>,
    path: Seq<char>,
    module: Module<F>,
)
    requires
        r1@ == r0@.insert(path, module),
    ensures
        r1@.contains_key(path),
        r1@[path] == module,
{
}

} // verus!
