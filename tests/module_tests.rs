use std::rc::Rc;

use rhai_modules::{
    calc_fn_hash, Dynamic, EvalError, Fn0, Fn1, Fn1Mut, Fn2, Fn2Mut, Fn3, Fn3Mut, FnDef,
    FunctionsLib, Module, NativeCallable, Position, Scope, TypeTag, Variant, WrapsCallable,
};

/// A native function handle for the tests: shared, behind the uniform
/// calling convention.
#[derive(Clone)]
struct Native(Rc<dyn NativeCallable>);

impl NativeCallable for Native {
    fn call(&self, args: &mut Vec<Dynamic>, pos: Position) -> Result<Dynamic, EvalError> {
        self.0.call(args, pos)
    }
}

impl<T: Variant + 'static, G: Fn() -> Result<T, EvalError> + 'static> WrapsCallable<Fn0<T, G>> for Native {
    fn wrap(f: Fn0<T, G>) -> Self {
        Native(Rc::new(f))
    }
}

impl<A: Variant + 'static, T: Variant + 'static, G: Fn(A) -> Result<T, EvalError> + 'static>
    WrapsCallable<Fn1<A, T, G>> for Native
{
    fn wrap(f: Fn1<A, T, G>) -> Self {
        Native(Rc::new(f))
    }
}

impl<A: Variant + 'static, T: Variant + 'static, G: Fn(&mut A) -> Result<T, EvalError> + 'static>
    WrapsCallable<Fn1Mut<A, T, G>> for Native
{
    fn wrap(f: Fn1Mut<A, T, G>) -> Self {
        Native(Rc::new(f))
    }
}

impl<
        A: Variant + 'static,
        B: Variant + 'static,
        T: Variant + 'static,
        G: Fn(A, B) -> Result<T, EvalError> + 'static,
    > WrapsCallable<Fn2<A, B, T, G>> for Native
{
    fn wrap(f: Fn2<A, B, T, G>) -> Self {
        Native(Rc::new(f))
    }
}

impl<
        A: Variant + 'static,
        B: Variant + 'static,
        T: Variant + 'static,
        G: Fn(&mut A, B) -> Result<T, EvalError> + 'static,
    > WrapsCallable<Fn2Mut<A, B, T, G>> for Native
{
    fn wrap(f: Fn2Mut<A, B, T, G>) -> Self {
        Native(Rc::new(f))
    }
}

impl<
        A: Variant + 'static,
        B: Variant + 'static,
        C: Variant + 'static,
        T: Variant + 'static,
        G: Fn(A, B, C) -> Result<T, EvalError> + 'static,
    > WrapsCallable<Fn3<A, B, C, T, G>> for Native
{
    fn wrap(f: Fn3<A, B, C, T, G>) -> Self {
        Native(Rc::new(f))
    }
}

impl<
        A: Variant + 'static,
        B: Variant + 'static,
        C: Variant + 'static,
        T: Variant + 'static,
        G: Fn(&mut A, B, C) -> Result<T, EvalError> + 'static,
    > WrapsCallable<Fn3Mut<A, B, C, T, G>> for Native
{
    fn wrap(f: Fn3Mut<A, B, C, T, G>) -> Self {
        Native(Rc::new(f))
    }
}

fn path(segments: &[&str]) -> Vec<(String, Position)> {
    segments
        .iter()
        .enumerate()
        .map(|(i, s)| (s.to_string(), Position::new(1, i as u32 + 1)))
        .collect()
}

#[test]
fn registered_function_is_found_and_called() {
    let mut m: Module<Native> = Module::new();
    let hash = m.set_fn_2("add", |a: i64, b: i64| Ok(a + b));
    assert!(m.contains_fn(hash));
    let f = m.get_fn(hash).expect("registered");
    let mut args = vec![Dynamic::Int(40), Dynamic::Int(2)];
    assert_eq!(f.call(&mut args, Position::new(3, 4)), Ok(Dynamic::Int(42)));
    // The arguments were moved out of their slots.
    assert_eq!(args, vec![Dynamic::Unit, Dynamic::Unit]);
}

#[test]
fn overloads_get_different_hashes() {
    let mut m: Module<Native> = Module::new();
    let h_int = m.set_fn_2("add", |a: i64, b: i64| Ok(a + b));
    let h_str = m.set_fn_2("add", |a: String, b: String| Ok(format!("{}{}", a, b)));
    let h_one = m.set_fn_1("add", |a: i64| Ok(a));
    assert_ne!(h_int, h_str);
    assert_ne!(h_int, h_one);
    assert_ne!(h_str, h_one);
    let mut args = vec![Dynamic::Int(1), Dynamic::Int(2)];
    assert_eq!(m.get_fn(h_int).unwrap().call(&mut args, Position::none()), Ok(Dynamic::Int(3)));
    let mut args = vec![Dynamic::Str("ab".to_string()), Dynamic::Str("cd".to_string())];
    assert_eq!(
        m.get_fn(h_str).unwrap().call(&mut args, Position::none()),
        Ok(Dynamic::Str("abcd".to_string()))
    );
}

#[test]
fn reregistering_replaces_the_function() {
    let mut m: Module<Native> = Module::new();
    let h1 = m.set_fn_1("f", |a: i64| Ok(a + 1));
    let h2 = m.set_fn_1("f", |a: i64| Ok(a * 10));
    assert_eq!(h1, h2);
    let mut args = vec![Dynamic::Int(5)];
    assert_eq!(m.get_fn(h2).unwrap().call(&mut args, Position::none()), Ok(Dynamic::Int(50)));
}

#[test]
fn set_var_then_get_var() {
    let mut m: Module<Native> = Module::new();
    m.set_var("x", 5_i64);
    assert!(m.contains_var("x"));
    assert_eq!(m.get_var("x"), Some(Dynamic::Int(5)));
    assert_eq!(m.get_var_value::<i64>("x"), Some(5));
    assert_eq!(m.get_var_value::<bool>("x"), None);
    m.set_var("x", "hi".to_string());
    assert_eq!(m.get_var("x"), Some(Dynamic::Str("hi".to_string())));
    assert_eq!(m.get_var("y"), None);
    assert!(!m.contains_var("y"));
}

#[test]
fn get_var_mut_changes_the_variable() {
    let mut m: Module<Native> = Module::new();
    m.set_var("n", 1_i64);
    *m.get_var_mut("n").unwrap() = Dynamic::Bool(true);
    assert_eq!(m.get_var("n"), Some(Dynamic::Bool(true)));
    assert!(m.get_var_mut("missing").is_none());
}

fn chain_with_y(with_y: bool, with_b: bool) -> Module<Native> {
    let mut b: Module<Native> = Module::new();
    if with_y {
        b.set_var("y", 7_i64);
    }
    let mut a: Module<Native> = Module::new();
    if with_b {
        a.set_sub_module("b", b);
    }
    let mut root: Module<Native> = Module::new();
    root.set_sub_module("a", a);
    root
}

#[test]
fn qualified_var_found() {
    let mut root = chain_with_y(true, true);
    let p = path(&["self", "a", "b"]);
    let v = root.get_qualified_var_mut("y", &p, Position::new(9, 9)).unwrap();
    assert_eq!(*v, Dynamic::Int(7));
    *v = Dynamic::Int(8);
    let b = root.get_sub_module("a").unwrap().get_sub_module("b").unwrap();
    assert_eq!(b.get_var("y"), Some(Dynamic::Int(8)));
}

#[test]
fn qualified_var_missing_variable() {
    let mut root = chain_with_y(false, true);
    let p = path(&["self", "a", "b"]);
    let r = root.get_qualified_var_mut("y", &p, Position::new(9, 9));
    assert_eq!(r.err(), Some(EvalError::VariableNotFound("y".to_string(), Position::new(9, 9))));
}

#[test]
fn qualified_var_missing_module() {
    let mut root = chain_with_y(true, false);
    let p = path(&["self", "a", "b"]);
    let r = root.get_qualified_var_mut("y", &p, Position::new(9, 9));
    assert_eq!(r.err(), Some(EvalError::ModuleNotFound("b".to_string(), Position::new(1, 3))));
}

#[test]
fn qualified_module_skips_first_segment() {
    let mut root = chain_with_y(true, true);
    let p = path(&["anything", "a"]);
    let a = root.get_qualified_module_mut(&p).unwrap();
    assert!(a.contains_sub_module("b"));
    let p = path(&["only"]);
    let same = root.get_qualified_module_mut(&p).unwrap();
    assert!(same.contains_sub_module("a"));
}

#[test]
fn qualified_fn_found_and_missing() {
    let mut sub: Module<Native> = Module::new();
    let hash = sub.set_fn_0("answer", || Ok(42_i64));
    let mut root: Module<Native> = Module::new();
    root.set_sub_module("m", sub);
    let p = path(&["root", "m"]);
    let f = root.get_qualified_fn("answer", hash, &p, Position::new(2, 2)).unwrap();
    let mut args: Vec<Dynamic> = Vec::new();
    assert_eq!(f.call(&mut args, Position::none()), Ok(Dynamic::Int(42)));
    let r = root.get_qualified_fn("other", hash ^ 1, &p, Position::new(2, 2));
    assert_eq!(
        r.err(),
        Some(EvalError::FunctionNotFound("root::m::other".to_string(), Position::new(2, 2)))
    );
    let p = path(&["root", "nope"]);
    let r = root.get_qualified_fn("answer", hash, &p, Position::new(2, 2));
    assert_eq!(r.err(), Some(EvalError::ModuleNotFound("nope".to_string(), Position::new(1, 2))));
}

#[test]
fn qualified_fn_lib_lookup() {
    let mut lib = FunctionsLib::new();
    lib.add(FnDef::new("double".to_string(), vec!["x".to_string()], "x * 2".to_string()));
    let mut sub: Module<Native> = Module::new();
    sub.merge_fn_lib(&lib);
    let mut root: Module<Native> = Module::new();
    root.set_sub_module("m", sub);
    let p = path(&["root", "m"]);
    let d = root.get_qualified_fn_lib("double", 1, &p).unwrap().unwrap();
    assert_eq!(d.name, "double");
    assert!(root.get_qualified_fn_lib("double", 2, &p).unwrap().is_none());
    let p = path(&["root", "x"]);
    assert!(root.get_qualified_fn_lib("double", 1, &p).is_err());
}

#[test]
fn fixed_seed_hash_is_stable() {
    let h1 = calc_fn_hash("add", &[TypeTag::Int, TypeTag::Int]);
    let h2 = calc_fn_hash("add", &[TypeTag::Int, TypeTag::Int]);
    assert_eq!(h1, h2);
    assert_eq!(h1, 0x8e3f_e0a4_0bc9_1797);
    assert_eq!(calc_fn_hash("add", &[TypeTag::Str, TypeTag::Str]), 0x8e46_aaa4_0bce_da83);
}

#[test]
fn set_fn_hash_matches_calc_fn_hash() {
    let mut m: Module<Native> = Module::new();
    let h = m.set_fn_2("add", |a: i64, b: i64| Ok(a - b));
    assert_eq!(h, calc_fn_hash("add", &[TypeTag::Int, TypeTag::Int]));
    let h0 = m.set_fn_0("add", || Ok(()));
    assert_eq!(h0, calc_fn_hash("add", &[]));
}

#[test]
fn mutable_first_argument_is_written_back() {
    let mut m: Module<Native> = Module::new();
    let h = m.set_fn_1_mut("inc", |a: &mut i64| {
        *a += 1;
        Ok(())
    });
    let mut args = vec![Dynamic::Int(9)];
    assert_eq!(m.get_fn(h).unwrap().call(&mut args, Position::none()), Ok(Dynamic::Unit));
    assert_eq!(args, vec![Dynamic::Int(10)]);

    let h = m.set_fn_2_mut("push", |s: &mut String, c: char| {
        s.push(c);
        Ok(s.len() as i64)
    });
    let mut args = vec![Dynamic::Str("ab".to_string()), Dynamic::Char('c')];
    assert_eq!(m.get_fn(h).unwrap().call(&mut args, Position::none()), Ok(Dynamic::Int(3)));
    assert_eq!(args, vec![Dynamic::Str("abc".to_string()), Dynamic::Unit]);

    let h = m.set_fn_3_mut("set", |x: &mut i64, a: i64, b: i64| {
        *x = a * b;
        Ok(true)
    });
    let mut args = vec![Dynamic::Int(0), Dynamic::Int(6), Dynamic::Int(7)];
    assert_eq!(m.get_fn(h).unwrap().call(&mut args, Position::none()), Ok(Dynamic::Bool(true)));
    assert_eq!(args[0], Dynamic::Int(42));
}

#[test]
fn three_parameters() {
    let mut m: Module<Native> = Module::new();
    let h = m.set_fn_3("pick", |c: bool, a: i64, b: i64| Ok(if c { a } else { b }));
    let mut args = vec![Dynamic::Bool(false), Dynamic::Int(1), Dynamic::Int(2)];
    assert_eq!(m.get_fn(h).unwrap().call(&mut args, Position::none()), Ok(Dynamic::Int(2)));
}

#[test]
fn function_error_gets_call_position() {
    let mut m: Module<Native> = Module::new();
    let h = m.set_fn_1("fail", |_: i64| -> Result<i64, EvalError> {
        Err(EvalError::Runtime("boom".to_string(), Position::none()))
    });
    let mut args = vec![Dynamic::Int(1)];
    assert_eq!(
        m.get_fn(h).unwrap().call(&mut args, Position::new(5, 6)),
        Err(EvalError::Runtime("boom".to_string(), Position::new(5, 6)))
    );
}

#[test]
fn unknown_hash_is_absent() {
    let m: Module<Native> = Module::new();
    assert!(!m.contains_fn(12345));
    assert!(m.get_fn(12345).is_none());
    assert_eq!(m.get_fn_lib().len(), 0);
}

#[test]
fn sub_modules_are_replaced() {
    let mut m: Module<Native> = Module::new();
    let mut s1: Module<Native> = Module::new();
    s1.set_var("v", 1_i64);
    let mut s2: Module<Native> = Module::new();
    s2.set_var("v", 2_i64);
    m.set_sub_module("s", s1);
    m.set_sub_module("s", s2);
    assert_eq!(m.get_sub_module("s").unwrap().get_var("v"), Some(Dynamic::Int(2)));
    m.get_sub_module_mut("s").unwrap().set_var("v", 3_i64);
    assert_eq!(m.get_sub_module("s").unwrap().get_var("v"), Some(Dynamic::Int(3)));
    assert!(m.get_sub_module("t").is_none());
}

#[test]
fn module_from_scope_harvests_bindings() {
    let mut scope: Scope<Native> = Scope::new();
    scope.push_var("a", Dynamic::Int(1));
    scope.push_constant("b", Dynamic::Bool(true));
    let mut inner: Module<Native> = Module::new();
    inner.set_var("z", 0_i64);
    scope.push_module("m", inner);
    scope.push_var("a", Dynamic::Int(2));
    let mut lib = FunctionsLib::new();
    lib.add(FnDef::new("f".to_string(), vec![], "1".to_string()));
    let m = Module::from_scope(scope, &lib);
    assert_eq!(m.get_var("a"), Some(Dynamic::Int(2)));
    assert_eq!(m.get_var("b"), Some(Dynamic::Bool(true)));
    assert!(!m.contains_var("m"));
    assert_eq!(m.get_sub_module("m").unwrap().get_var("z"), Some(Dynamic::Int(0)));
    assert!(m.get_fn_lib().get_function("f", 0).is_some());
}

#[test]
fn functions_lib_merge_prefers_other() {
    let mut a = FunctionsLib::new();
    a.add(FnDef::new("f".to_string(), vec!["x".to_string()], "old".to_string()));
    a.add(FnDef::new("g".to_string(), vec![], "g".to_string()));
    let mut b = FunctionsLib::new();
    b.add(FnDef::new("f".to_string(), vec!["y".to_string()], "new".to_string()));
    let c = a.merge(&b);
    assert_eq!(c.get_function("f", 1).unwrap().body, "new");
    assert_eq!(c.get_function("g", 0).unwrap().body, "g");
    assert!(c.get_function("f", 0).is_none());
}

#[test]
fn module_clone_keeps_contents() {
    let mut m: Module<Native> = Module::new();
    m.set_var("x", 1_i64);
    let h = m.set_fn_0("one", || Ok(1_i64));
    m.set_sub_module("s", Module::new());
    let c = m.clone();
    assert_eq!(c.get_var("x"), Some(Dynamic::Int(1)));
    assert!(c.contains_fn(h));
    assert!(c.contains_sub_module("s"));
}

#[test]
fn error_position_is_restamped() {
    let e = EvalError::Compile("bad".to_string(), Position::new(1, 1));
    let e = e.set_position(Position::new(7, 8));
    assert_eq!(e, EvalError::Compile("bad".to_string(), Position::new(7, 8)));
    assert_eq!(e.position(), Position::new(7, 8));
}

#[test]
fn overloads_by_arity_call_their_own_closures() {
    let mut m: Module<Native> = Module::default();
    let h1 = m.set_fn_1("f", |x: i64| Ok(x + 1));
    let h2 = m.set_fn_2("f", |x: i64, y: i64| Ok(x * y));
    assert_ne!(h1, h2);
    let mut args = vec![Dynamic::Int(4)];
    assert_eq!(m.get_fn(h1).unwrap().call(&mut args, Position::none()), Ok(Dynamic::Int(5)));
    let mut args = vec![Dynamic::Int(3), Dynamic::Int(4)];
    assert_eq!(m.get_fn(h2).unwrap().call(&mut args, Position::none()), Ok(Dynamic::Int(12)));
}

#[test]
fn rc_handle_calls_the_adapter() {
    let mut m: Module<Rc<Fn2<i64, i64, i64, fn(i64, i64) -> Result<i64, EvalError>>>> = Module::new();
    let add: fn(i64, i64) -> Result<i64, EvalError> = |a, b| Ok(a + b);
    let h = m.set_fn_2("add", add);
    let mut args = vec![Dynamic::Int(2), Dynamic::Int(5)];
    assert_eq!(m.get_fn(h).unwrap().call(&mut args, Position::none()), Ok(Dynamic::Int(7)));
}
