use vstd::prelude::*;

use crate::error::EvalError;
use crate::fn_lib::FunctionsLib;
use crate::module::{copy_of, lemma_copies_map, Module};
use crate::name_map::{lemma_map_of_same_names, contains_entry, entry_names, get_entry, insert_entry, map_of, remove_entry};
use crate::scope::Scope;
use crate::types::Position;

verus! {

/// The compiler and evaluator that a file-backed resolver runs a module's
/// script with.
pub trait ScriptEngine<F> {
    /// A compiled script.
    type Ast;

    /// Reads and compiles the script file at `path`.
    fn compile_file(&self, path: &str) -> Result<Self::Ast, EvalError>;

    /// Runs a compiled script, leaving its bindings in `scope`.
    fn eval_ast_with_scope(&self, scope: &mut Scope<F>, ast: &Self::Ast) -> Result<(), EvalError>;

    /// The functions that a compiled script defines.
    fn ast_fn_lib<'a>(&self, ast: &'a Self::Ast) -> &'a FunctionsLib;
}

/// A service that turns an import path into a module.
pub trait ModuleResolver<F> {
    /// Resolves `path`, imported at `pos`, into a module.
    fn resolve<E: ScriptEngine<F>>(
        &self,
        engine: &E,
        path: &str,
        pos: Position,
    ) -> (r: Result<Module<F>, EvalError>)
        ensures
            r matches Err(e) ==> e.spec_position() == pos,
    ;
}

/// The path that `std::path::PathBuf::push` makes of `base` and `rel`.
pub uninterp spec fn pushed_path(base: Seq<char>, rel: Seq<char>) -> Seq<char>;

/// The path that `std::path::PathBuf::set_extension` makes of `path` with
/// extension `ext`.
pub uninterp spec fn extension_set(path: Seq<char>, ext: Seq<char>) -> Seq<char>;

/// Relies on `std::path::PathBuf::push`: `rel` joined onto `base`.
#[verifier::external_body]
fn push_path(base: &str, rel: &str) -> (r: String)
    ensures
        r@ == pushed_path(base@, rel@),
{
    let mut p = std::path::PathBuf::from(base);
    p.push(rel);
    p.to_string_lossy().into_owned()
}

/// `ext` holds no path separator, which `PathBuf::set_extension` refuses
/// (by panicking).
pub open spec fn extension_ok(ext: Seq<char>) -> bool {
    forall|i: int| 0 <= i < ext.len() ==> ext[i] != '/' && ext[i] != '\\'
}

/// Relies on `std::path::PathBuf::set_extension`: `path` with its extension
/// replaced by `ext`. It panics on an extension holding a separator.
#[verifier::external_body]
fn set_extension(path: &str, ext: &str) -> (r: String)
    requires
        extension_ok(ext@),
    ensures
        r@ == extension_set(path@, ext@),
{
    let mut p = std::path::PathBuf::from(path);
    p.set_extension(ext);
    p.to_string_lossy().into_owned()
}

/// A resolver that loads a module by running a script file found under a
/// base directory, with the extension forced to the one configured.
#[derive(Debug, PartialEq, Eq, Hash)]
pub struct FileModuleResolver {
    path: String,
    extension: String,
}

impl FileModuleResolver {
    #[verifier::type_invariant]
    spec fn inv(&self) -> bool {
        extension_ok(self.extension@)
    }

    /// The base directory.
    pub closed spec fn base(&self) -> Seq<char> {
        self.path@
    }

    /// The extension forced on script files.
    pub closed spec fn ext(&self) -> Seq<char> {
        self.extension@
    }

    /// A resolver under `path`, with the default extension `rhai`.
    pub fn new_with_path(path: String) -> (r: FileModuleResolver)
        ensures
            r.base() == path@,
            r.ext() == seq!['r', 'h', 'a', 'i'],
    {
        proof {
            reveal_strlit("rhai");
            assert(extension_ok("rhai"@));
        }
        Self::new_with_path_and_extension(path, "rhai".to_owned())
    }

    /// A resolver under `path`, forcing `extension`, which must hold no
    /// path separator.
    pub fn new_with_path_and_extension(path: String, extension: String) -> (r: FileModuleResolver)
        requires
            extension_ok(extension@),
        ensures
            r.base() == path@,
            r.ext() == extension@,
    {
        FileModuleResolver { path, extension }
    }

    /// A resolver under the current directory, with the default extension.
    pub fn new() -> (r: FileModuleResolver)
        ensures
            r.base() == Seq::<char>::empty(),
            r.ext() == seq!['r', 'h', 'a', 'i'],
    {
        Self::new_with_path(String::new())
    }

    /// The file that the import path `path` stands for: joined onto the
    /// base directory, with the extension forced.
    pub fn script_path(&self, path: &str) -> (r: String)
        ensures
            r@ == extension_set(pushed_path(self.base(), path@), self.ext()),
    {
        proof {
            use_type_invariant(self);
        }
        let joined = push_path(self.path.as_str(), path);
        set_extension(joined.as_str(), self.extension.as_str())
    }

    /// Compiles and runs the script that `path` stands for, and makes a
    /// module of what it leaves behind (see `Module::from_scope`). A failure
    /// to compile or run it comes back stamped with the import's position.
    pub fn resolve_with<F, E: ScriptEngine<F>>(
        &self,
        engine: &E,
        path: &str,
        pos: Position,
    ) -> (r: Result<Module<F>, EvalError>)
        ensures
            r matches Err(e) ==> e.spec_position() == pos,
            r matches Ok(m) ==> m.fns() == Map::<u64, F>::empty(),
    {
        let file = self.script_path(path);
        let ast = match engine.compile_file(file.as_str()) {
            Ok(ast) => ast,
            Err(e) => {
                return Err(e.set_position(pos));
            },
        };
        let mut scope: Scope<F> = Scope::new();
        match engine.eval_ast_with_scope(&mut scope, &ast) {
            Ok(()) => {},
            Err(e) => {
                return Err(e.set_position(pos));
            },
        }
        Ok(Module::from_scope(scope, engine.ast_fn_lib(&ast)))
    }
}

impl Default for FileModuleResolver {
    fn default() -> (r: Self)
        ensures
            r.base() == Seq::<char>::empty(),
            r.ext() == seq!['r', 'h', 'a', 'i'],
    {
        FileModuleResolver::new()
    }
}

impl Clone for FileModuleResolver {
    fn clone(&self) -> (r: Self)
        ensures
            r.base() == self.base(),
            r.ext() == self.ext(),
    {
        proof {
            use_type_invariant(self);
        }
        FileModuleResolver { path: self.path.clone(), extension: self.extension.clone() }
    }
}

impl<F> ModuleResolver<F> for FileModuleResolver {
    fn resolve<E: ScriptEngine<F>>(
        &self,
        engine: &E,
        path: &str,
        pos: Position,
    ) -> (r: Result<Module<F>, EvalError>)
        ensures
            r matches Err(e) ==> e.spec_position() == pos,
            r matches Ok(m) ==> m.fns() == Map::<u64, F>::empty(),
    {
        self.resolve_with(engine, path, pos)
    }
}

/// A resolver that serves the modules put into it, by path.
#[verifier::reject_recursive_types(F)]
pub struct StaticModuleResolver<F> {
    modules: Vec<(String, Module<F>)>,
}

impl<F> View for StaticModuleResolver<F> {
    type V = Map<Seq<char>, Module<F>>;

    closed spec fn view(&self) -> Map<Seq<char>, Module<F>> {
        map_of(self.modules@)
    }
}

impl<F> StaticModuleResolver<F> {
    /// A resolver serving no module.
    pub fn new() -> (r: StaticModuleResolver<F>)
        ensures
            r@ == Map::<Seq<char>, Module<F>>::empty(),
    {
        StaticModuleResolver { modules: Vec::new() }
    }

    /// Serves `module` under `path`, replacing one served there.
    pub fn insert(&mut self, path: &str, module: Module<F>)
        ensures
            final(self)@ == old(self)@.insert(path@, module),
    {
        insert_entry(&mut self.modules, path.to_owned(), module);
    }

    /// Stops serving the module under `path`, and gives it back.
    pub fn remove(&mut self, path: &str) -> (r: Option<Module<F>>)
        ensures
            final(self)@ == old(self)@.remove(path@),
            match r {
                Some(m) => old(self)@.contains_key(path@) && m == old(self)@[path@],
                None => !old(self)@.contains_key(path@),
            },
    {
        remove_entry(&mut self.modules, path)
    }

    /// Whether a module is served under `path`.
    pub fn contains_key(&self, path: &str) -> (r: bool)
        ensures
            r == self@.contains_key(path@),
    {
        contains_entry(&self.modules, path)
    }

    /// The paths served, in the order they were first put in.
    pub fn paths(&self) -> (r: Vec<String>)
        ensures
            forall|k: Seq<char>| self@.contains_key(k) <==> exists|i: int| 0 <= i < r@.len() && #[trigger] r@[i]@ == k,
    {
        entry_names(&self.modules)
    }

    /// The module served under `path`.
    pub fn get(&self, path: &str) -> (r: Option<&Module<F>>)
        ensures
            match r {
                Some(m) => self@.contains_key(path@) && *m == self@[path@],
                None => !self@.contains_key(path@),
            },
    {
        get_entry(&self.modules, path)
    }
}

impl<F: Clone> StaticModuleResolver<F> {
    /// A copy of the module served under `path`, or a module-not-found
    /// error naming `path` at `pos`.
    pub fn resolve_path(&self, path: &str, pos: Position) -> (r: Result<Module<F>, EvalError>)
        ensures
            match r {
                Ok(m) => self@.contains_key(path@) && copy_of(m, self@[path@]),
                Err(e) => !self@.contains_key(path@)
                    && (e matches EvalError::ModuleNotFound(n, p) && n@ == path@ && p == pos),
            },
    {
        match get_entry(&self.modules, path) {
            Some(m) => Ok(m.clone()),
            None => Err(EvalError::ModuleNotFound(path.to_owned(), pos)),
        }
    }
}

impl<F> Default for StaticModuleResolver<F> {
    fn default() -> (r: Self)
        ensures
            r@ == Map::<Seq<char>, Module<F>>::empty(),
    {
        StaticModuleResolver::new()
    }
}

impl<F: Clone> Clone for StaticModuleResolver<F> {
    /// A resolver serving a copy of each module this one serves.
    fn clone(&self) -> (r: Self)
        ensures
            r@.dom() == self@.dom(),
            forall|k: Seq<char>| #[trigger] r@.contains_key(k) ==> copy_of(r@[k], self@[k]),
    {
        let mut modules: Vec<(String, Module<F>)> = Vec::new();
        let mut j: usize = 0;
        while j < self.modules.len()
            invariant
                j <= self.modules@.len(),
                modules@.len() == j,
                forall|k: int| 0 <= k < j ==> #[trigger] modules@[k].0@ == self.modules@[k].0@
                    && copy_of(modules@[k].1, self.modules@[k].1),
            decreases self.modules@.len() - j,
        {
            let (name, m) = &self.modules[j];
            modules.push((name.clone(), m.clone()));
            j = j + 1;
        }
        let r = StaticModuleResolver { modules };
        proof {
            lemma_map_of_same_names(r.modules@, self.modules@);
            assert forall|k: Seq<char>| #[trigger] r@.contains_key(k) implies copy_of(r@[k], self@[k]) by {
                lemma_copies_map(r.modules@, self.modules@, k);
            }
        }
        r
    }
}

impl<F: Clone> ModuleResolver<F> for StaticModuleResolver<F> {
    fn resolve<E: ScriptEngine<F>>(
        &self,
        engine: &E,
        path: &str,
        pos: Position,
    ) -> (r: Result<Module<F>, EvalError>)
        ensures
            match r {
                Ok(m) => self@.contains_key(path@) && copy_of(m, self@[path@]),
                Err(e) => !self@.contains_key(path@)
                    && (e matches EvalError::ModuleNotFound(n, p) && n@ == path@ && p == pos),
            },
    {
        self.resolve_path(path, pos)
    }
}

} // verus!
