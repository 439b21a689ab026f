//! Modules, native-function registration and module resolution for an
//! embeddable scripting runtime.

mod error;
mod fn_lib;
mod hashing;
mod laws;
mod module;
mod name_map;
mod native;
mod resolvers;
mod scope;
mod types;

pub use error::EvalError;
pub use types::{Dynamic, Position, TypeTag, Variant};
pub use hashing::{calc_fn_hash, FIXED_HASH_SEED};
pub use fn_lib::{FnDef, FunctionsLib};
pub use native::{Fn0, Fn1, Fn1Mut, Fn2, Fn2Mut, Fn3, Fn3Mut, NativeCallable, WrapsCallable};
pub use module::Module;
pub use scope::{Scope, ScopeBinding};
pub use resolvers::{FileModuleResolver, ModuleResolver, ScriptEngine, StaticModuleResolver};
pub use laws::{
    fn_hash_is_stable, overloads_coexist, reregistering_replaces, set_fn_then_contains, set_var_then_get,
    static_insert_then_serve,
};
