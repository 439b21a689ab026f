use std::cell::RefCell;

use rhai_modules::{
    Dynamic, EvalError, FileModuleResolver, FnDef, FunctionsLib, Module, ModuleResolver,
    Position, Scope, ScriptEngine, StaticModuleResolver,
};

/// A stand-in for the compiler and evaluator: it "compiles" one known file
/// and records which files were asked for.
struct FakeEngine {
    known: String,
    asked: RefCell<Vec<String>>,
    fail_eval: bool,
}

struct FakeAst {
    lib: FunctionsLib,
}

impl ScriptEngine<u8> for FakeEngine {
    type Ast = FakeAst;

    fn compile_file(&self, path: &str) -> Result<FakeAst, EvalError> {
        self.asked.borrow_mut().push(path.to_string());
        if path == self.known {
            let mut lib = FunctionsLib::new();
            lib.add(FnDef::new("double".to_string(), vec!["x".to_string()], "x * 2".to_string()));
            Ok(FakeAst { lib })
        } else {
            Err(EvalError::Compile(format!("cannot read {}", path), Position::none()))
        }
    }

    fn eval_ast_with_scope(&self, scope: &mut Scope<u8>, _ast: &FakeAst) -> Result<(), EvalError> {
        if self.fail_eval {
            return Err(EvalError::Runtime("oops".to_string(), Position::new(1, 1)));
        }
        scope.push_constant("PI", Dynamic::Int(3));
        Ok(())
    }

    fn ast_fn_lib<'a>(&self, ast: &'a FakeAst) -> &'a FunctionsLib {
        &ast.lib
    }
}

fn engine(known: &str, fail_eval: bool) -> FakeEngine {
    FakeEngine { known: known.to_string(), asked: RefCell::new(Vec::new()), fail_eval }
}

#[test]
fn static_resolver_serves_inserted_module() {
    let mut r: StaticModuleResolver<u8> = StaticModuleResolver::new();
    let mut m: Module<u8> = Module::new();
    m.set_var("e", 2_i64);
    r.insert("mathlib", m);
    let e = engine("", false);
    let got = r.resolve(&e, "mathlib", Position::new(1, 1)).unwrap();
    assert_eq!(got.get_var("e"), Some(Dynamic::Int(2)));
    // The served module stays in place.
    assert!(r.contains_key("mathlib"));
    assert_eq!(r.get("mathlib").unwrap().get_var("e"), Some(Dynamic::Int(2)));
}

#[test]
fn static_resolver_missing_path() {
    let r: StaticModuleResolver<u8> = StaticModuleResolver::new();
    let e = engine("", false);
    let got = r.resolve(&e, "missing", Position::new(4, 2));
    assert_eq!(got.err(), Some(EvalError::ModuleNotFound("missing".to_string(), Position::new(4, 2))));
}

#[test]
fn static_resolver_remove() {
    let mut r: StaticModuleResolver<u8> = StaticModuleResolver::new();
    r.insert("a", Module::new());
    assert!(r.remove("a").is_some());
    assert!(r.remove("a").is_none());
    assert!(!r.contains_key("a"));
}

#[test]
fn file_resolver_builds_path_and_harvests() {
    let r = FileModuleResolver::new_with_path_and_extension("base".to_string(), "rhai".to_string());
    assert_eq!(r.script_path("utils/strings"), "base/utils/strings.rhai");
    let e = engine("base/utils/strings.rhai", false);
    let m: Module<u8> = r.resolve(&e, "utils/strings", Position::new(3, 1)).unwrap();
    assert_eq!(e.asked.borrow().clone(), vec!["base/utils/strings.rhai".to_string()]);
    assert_eq!(m.get_var("PI"), Some(Dynamic::Int(3)));
    let d = m.get_fn_lib().get_function("double", 1).unwrap();
    assert_eq!(d.name, "double");
}

#[test]
fn file_resolver_forces_extension() {
    let r = FileModuleResolver::new_with_path("scripts".to_string());
    assert_eq!(r.script_path("lib.txt"), "scripts/lib.rhai");
    let r = FileModuleResolver::new_with_path_and_extension("s".to_string(), "scr".to_string());
    assert_eq!(r.script_path("a/b.rhai"), "s/a/b.scr");
    let r = FileModuleResolver::new();
    assert_eq!(r.script_path("m"), "m.rhai");
}

#[test]
fn file_resolver_compile_error_gets_import_position() {
    let r = FileModuleResolver::new_with_path("base".to_string());
    let e = engine("elsewhere.rhai", false);
    let got: Result<Module<u8>, EvalError> = r.resolve(&e, "nothing", Position::new(8, 3));
    assert_eq!(
        got.err(),
        Some(EvalError::Compile("cannot read base/nothing.rhai".to_string(), Position::new(8, 3)))
    );
}

#[test]
fn file_resolver_eval_error_gets_import_position() {
    let r = FileModuleResolver::new_with_path("base".to_string());
    let e = engine("base/m.rhai", true);
    let got: Result<Module<u8>, EvalError> = r.resolve(&e, "m", Position::new(2, 9));
    assert_eq!(got.err(), Some(EvalError::Runtime("oops".to_string(), Position::new(2, 9))));
}

#[test]
fn static_resolver_lists_paths() {
    let mut r: StaticModuleResolver<u8> = StaticModuleResolver::new();
    r.insert("a", Module::new());
    r.insert("b", Module::new());
    r.insert("a", Module::new());
    assert_eq!(r.paths(), vec!["a".to_string(), "b".to_string()]);
}

#[test]
fn static_resolver_copies_nested_modules() {
    let mut inner: Module<u8> = Module::new();
    inner.set_var("deep", 9_i64);
    let mut m: Module<u8> = Module::new();
    m.set_sub_module("inner", inner);
    let mut r: StaticModuleResolver<u8> = StaticModuleResolver::new();
    r.insert("m", m);
    let e = engine("", false);
    let mut got = r.resolve(&e, "m", Position::none()).unwrap();
    assert_eq!(got.get_sub_module("inner").unwrap().get_var("deep"), Some(Dynamic::Int(9)));
    // The copy is independent of the module the resolver holds.
    got.get_sub_module_mut("inner").unwrap().set_var("deep", 1_i64);
    let held = r.get("m").unwrap().get_sub_module("inner").unwrap();
    assert_eq!(held.get_var("deep"), Some(Dynamic::Int(9)));
}

#[test]
fn defaults_are_empty() {
    let r: StaticModuleResolver<u8> = StaticModuleResolver::default();
    assert!(r.paths().is_empty());
    let f = FileModuleResolver::default();
    assert_eq!(f.script_path("m"), "m.rhai");
    let m: Module<u8> = Module::default();
    assert!(!m.contains_var("x"));
}
