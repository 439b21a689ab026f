use vstd::prelude::*;

use std::marker::PhantomData;
use std::rc::Rc;

use crate::error::EvalError;
use crate::types::{Dynamic, Position, Variant};

verus! {

/// A native function behind the one uniform calling convention: the
/// arguments as dynamic values, and the position of the call site.
pub trait NativeCallable {
    /// Whether `args` fit the parameters: enough of them, each holding its
    /// parameter's type. The dispatcher picks the function by the argument
    /// types, so a call with arguments that do not fit is a caller's error.
    /// A handle that states nothing accepts nothing, so verified code
    /// cannot call it.
    open spec fn accepts(&self, args: Seq<Dynamic>) -> bool {
        false
    }

    /// What a call may leave behind: the arguments `before` and `after`
    /// it, and its result `r`, for a call made at `pos`.
    open spec fn outcome(
        &self,
        before: Seq<Dynamic>,
        after: Seq<Dynamic>,
        pos: Position,
        r: Result<Dynamic, EvalError>,
    ) -> bool {
        true
    }

    /// Calls the function with `args`, at the call site `pos`.
    fn call(&self, args: &mut Vec<Dynamic>, pos: Position) -> (r: Result<Dynamic, EvalError>)
        requires
            self.accepts(old(args)@),
        ensures
            self.outcome(old(args)@, final(args)@, pos, r),
    ;
}

/// A handle that behaves as the callable `c`: it accepts the same
/// arguments, and its calls have the same outcomes.
pub open spec fn behaves_as<H: NativeCallable, C: NativeCallable>(h: H, c: C) -> bool {
    &&& forall|args: Seq<Dynamic>| #[trigger] h.accepts(args) == c.accepts(args)
    &&& forall|before: Seq<Dynamic>, after: Seq<Dynamic>, pos: Position, r: Result<Dynamic, EvalError>|
        #[trigger] h.outcome(before, after, pos, r) == c.outcome(before, after, pos, r)
}

/// A shareable handle that can be made from the callable `C`, and then
/// behaves as it.
pub trait WrapsCallable<C: NativeCallable>: NativeCallable + Sized {
    fn wrap(c: C) -> (r: Self)
        ensures
            behaves_as(r, c),
    ;
}

impl<C: NativeCallable> NativeCallable for Rc<C> {
    open spec fn accepts(&self, args: Seq<Dynamic>) -> bool {
        (**self).accepts(args)
    }

    open spec fn outcome(
        &self,
        before: Seq<Dynamic>,
        after: Seq<Dynamic>,
        pos: Position,
        r: Result<Dynamic, EvalError>,
    ) -> bool {
        (**self).outcome(before, after, pos, r)
    }

    fn call(&self, args: &mut Vec<Dynamic>, pos: Position) -> (r: Result<Dynamic, EvalError>) {
        (**self).call(args, pos)
    }
}

impl<C: NativeCallable> WrapsCallable<C> for Rc<C> {
    fn wrap(c: C) -> (r: Self) {
        Rc::new(c)
    }
}

/// The error for arguments that do not fit a native function's signature.
fn mismatch(pos: Position) -> (r: EvalError)
    ensures
        r is ArgumentMismatch,
        r.spec_position() == pos,
{
    EvalError::ArgumentMismatch("arguments do not match the function's parameters".to_owned(), pos)
}

/// What a native function's result becomes: its value made dynamic, or its
/// error stamped with the position of the call.
pub open spec fn wrap_result<T: Variant>(r: Result<T, EvalError>, pos: Position) -> Result<Dynamic, EvalError> {
    match r {
        Ok(v) => Ok(v.spec_into_dynamic()),
        Err(e) => Err(e.spec_with_position(pos)),
    }
}

fn wrap<T: Variant>(r: Result<T, EvalError>, pos: Position) -> (out: Result<Dynamic, EvalError>)
    ensures
        out == wrap_result(r, pos),
{
    match r {
        Ok(v) => Ok(v.into_dynamic()),
        Err(e) => Err(e.set_position(pos)),
    }
}

/// Moves argument `i` out, leaving the unit value in its slot.
fn take_arg(args: &mut Vec<Dynamic>, i: usize) -> (r: Dynamic)
    requires
        i < old(args)@.len(),
    ensures
        r == old(args)@[i as int],
        final(args)@ == old(args)@.update(i as int, Dynamic::Unit),
{
    let r = args[i].clone();
    args.set(i, Dynamic::Unit);
    r
}

/// Whether argument `i` holds a value of type `A`.
pub open spec fn arg_is<A: Variant>(args: Seq<Dynamic>, i: int) -> bool {
    0 <= i < args.len() && args[i].spec_type_tag() == A::spec_tag()
}

/// The first two arguments hold an `A` and a `B`.
pub open spec fn args_fit2<A: Variant, B: Variant>(args: Seq<Dynamic>) -> bool {
    arg_is::<A>(args, 0) && arg_is::<B>(args, 1)
}

/// The first three arguments hold an `A`, a `B` and a `C`.
pub open spec fn args_fit3<A: Variant, B: Variant, C: Variant>(args: Seq<Dynamic>) -> bool {
    arg_is::<A>(args, 0) && arg_is::<B>(args, 1) && arg_is::<C>(args, 2)
}

/// Adapter of a native function without parameters.
#[verifier::reject_recursive_types(T)]
pub struct Fn0<T: Variant, F: Fn() -> Result<T, EvalError>> {
    func: F,
    marker: PhantomData<(T)>,
}

impl<T: Variant, F: Fn() -> Result<T, EvalError>> Fn0<T, F> {
    /// The function that the adapter calls.
    pub closed spec fn func(&self) -> F {
        self.func
    }

    #[verifier::type_invariant]
    spec fn inv(&self) -> bool {
        call_requires(self.func(), ())
    }

    /// Wraps `func`, which must accept every argument of its types.
    pub fn new(func: F) -> (r: Self)
        requires
            call_requires(func, ()),
        ensures
            r.func() == func,
    {
        Fn0 { func, marker: PhantomData }
    }

    /// Calls the function on the arguments, moving each out of its slot and
    /// converting it to its parameter's type.
    pub fn invoke(&self, args: &mut Vec<Dynamic>, pos: Position) -> (r: Result<Dynamic, EvalError>)
        ensures
            *final(args) == *old(args),
            exists|out: Result<T, EvalError>| call_ensures(self.func(), (), out) && r == wrap_result(out, pos),
    {
        proof {
            use_type_invariant(self);
        }
        proof {
            assert(call_requires(self.func(), ()));
        }
        let out = (self.func)();
        proof {
            assert(call_ensures(self.func(), (), out));
        }
        wrap(out, pos)
    }
}

impl<T: Variant, F: Fn() -> Result<T, EvalError>> NativeCallable for Fn0<T, F> {
    open spec fn accepts(&self, args: Seq<Dynamic>) -> bool {
        true
    }

    open spec fn outcome(
        &self,
        before: Seq<Dynamic>,
        after: Seq<Dynamic>,
        pos: Position,
        r: Result<Dynamic, EvalError>,
    ) -> bool {
        &&& after == before
        &&& exists|out: Result<T, EvalError>| call_ensures(self.func(), (), out) && r == wrap_result(out, pos)
    }

    fn call(&self, args: &mut Vec<Dynamic>, pos: Position) -> (r: Result<Dynamic, EvalError>) {
        self.invoke(args, pos)
    }
}

/// Adapter of a native function with one parameter, taken by value.
#[verifier::reject_recursive_types(A)]
#[verifier::reject_recursive_types(T)]
pub struct Fn1<A: Variant, T: Variant, F: Fn(A) -> Result<T, EvalError>> {
    func: F,
    marker: PhantomData<(A, T)>,
}

impl<A: Variant, T: Variant, F: Fn(A) -> Result<T, EvalError>> Fn1<A, T, F> {
    /// The function that the adapter calls.
    pub closed spec fn func(&self) -> F {
        self.func
    }

    #[verifier::type_invariant]
    spec fn inv(&self) -> bool {
        forall|a: A| call_requires(self.func(), (a,))
    }

    /// Wraps `func`, which must accept every argument of its types.
    pub fn new(func: F) -> (r: Self)
        requires
            forall|a: A| call_requires(func, (a,)),
        ensures
            r.func() == func,
    {
        Fn1 { func, marker: PhantomData }
    }

    /// Calls the function on the arguments, moving each out of its slot and
    /// converting it to its parameter's type.
    pub fn invoke(&self, args: &mut Vec<Dynamic>, pos: Position) -> (r: Result<Dynamic, EvalError>)
        requires
            arg_is::<A>(old(args)@, 0),
        ensures
            exists|a: A, out: Result<T, EvalError>|
                a.spec_into_dynamic() == old(args)@[0] && call_ensures(self.func(), (a,), out)
                    && final(args)@ == old(args)@.update(0, Dynamic::Unit)
                    && r == wrap_result(out, pos),
    {
        proof {
            use_type_invariant(self);
        }
        if args.len() < 1 {
            return Err(mismatch(pos));
        }
        let a = match A::try_cast(take_arg(args, 0)) {
            Some(x) => x,
            None => return Err(mismatch(pos)),
        };
        let ghost ga = a;
        proof {
            assert(call_requires(self.func(), (a,)));
        }
        let out = (self.func)(a);
        proof {
            assert(call_ensures(self.func(), (ga,), out));
        }
        wrap(out, pos)
    }
}

impl<A: Variant, T: Variant, F: Fn(A) -> Result<T, EvalError>> NativeCallable for Fn1<A, T, F> {
    open spec fn accepts(&self, args: Seq<Dynamic>) -> bool {
        arg_is::<A>(args, 0)
    }

    open spec fn outcome(
        &self,
        before: Seq<Dynamic>,
        after: Seq<Dynamic>,
        pos: Position,
        r: Result<Dynamic, EvalError>,
    ) -> bool {
        &&& exists|a: A, out: Result<T, EvalError>|
            a.spec_into_dynamic() == before[0] && call_ensures(self.func(), (a,), out)
                && after == before.update(0, Dynamic::Unit)
                && r == wrap_result(out, pos)
    }

    fn call(&self, args: &mut Vec<Dynamic>, pos: Position) -> (r: Result<Dynamic, EvalError>) {
        self.invoke(args, pos)
    }
}

/// Adapter of a native function with one parameter, taken by mutable
/// reference: the argument slot receives the value as the function left it.
#[verifier::reject_recursive_types(A)]
#[verifier::reject_recursive_types(T)]
pub struct Fn1Mut<A: Variant, T: Variant, F: Fn(&mut A) -> Result<T, EvalError>> {
    func: F,
    marker: PhantomData<(A, T)>,
}

impl<A: Variant, T: Variant, F: Fn(&mut A) -> Result<T, EvalError>> Fn1Mut<A, T, F> {
    /// The function that the adapter calls.
    pub closed spec fn func(&self) -> F {
        self.func
    }

    #[verifier::type_invariant]
    spec fn inv(&self) -> bool {
        forall|a: &mut A| call_requires(self.func(), (a,))
    }

    /// Wraps `func`, which must accept every argument of its types.
    pub fn new(func: F) -> (r: Self)
        requires
            forall|a: &mut A| call_requires(func, (a,)),
        ensures
            r.func() == func,
    {
        Fn1Mut { func, marker: PhantomData }
    }

    /// Calls the function on the arguments: the first is lent to it and
    /// then written back as the function left it; the others are moved out
    /// of their slots.
    pub fn invoke(&self, args: &mut Vec<Dynamic>, pos: Position) -> (r: Result<Dynamic, EvalError>)
        requires
            arg_is::<A>(old(args)@, 0),
        ensures
            exists|a: &mut A, out: Result<T, EvalError>|
                (*a).spec_into_dynamic() == old(args)@[0]
                    && call_ensures(self.func(), (a,), out)
                    && final(args)@ == old(args)@.update(0, (*final(a)).spec_into_dynamic())
                    && r == wrap_result(out, pos),
    {
        proof {
            use_type_invariant(self);
        }
        if args.len() < 1 {
            return Err(mismatch(pos));
        }
        let mut a = match A::try_cast(take_arg(args, 0)) {
            Some(x) => x,
            None => return Err(mismatch(pos)),
        };
        let ghost ga = a;
        let a_ref = &mut a;
        proof {
            assert(call_requires(self.func(), (a_ref,)));
        }
        let out = (self.func)(a_ref);
        proof {
            assert(exists|x: &mut A| call_ensures(self.func(), (x,), out) && *x == ga && *final(x) == a);
        }
        args.set(0, a.into_dynamic());
        wrap(out, pos)
    }
}

impl<A: Variant, T: Variant, F: Fn(&mut A) -> Result<T, EvalError>> NativeCallable for Fn1Mut<A, T, F> {
    open spec fn accepts(&self, args: Seq<Dynamic>) -> bool {
        arg_is::<A>(args, 0)
    }

    open spec fn outcome(
        &self,
        before: Seq<Dynamic>,
        after: Seq<Dynamic>,
        pos: Position,
        r: Result<Dynamic, EvalError>,
    ) -> bool {
        &&& exists|a: &mut A, a1: A, out: Result<T, EvalError>|
            (*a).spec_into_dynamic() == before[0]
                && call_ensures(self.func(), (a,), out)
                && after == before.update(0, a1.spec_into_dynamic())
                && r == wrap_result(out, pos)
    }

    fn call(&self, args: &mut Vec<Dynamic>, pos: Position) -> (r: Result<Dynamic, EvalError>) {
        self.invoke(args, pos)
    }
}

/// Adapter of a native function with two parameters, taken by value.
#[verifier::reject_recursive_types(A)]
#[verifier::reject_recursive_types(B)]
#[verifier::reject_recursive_types(T)]
pub struct Fn2<A: Variant, B: Variant, T: Variant, F: Fn(A, B) -> Result<T, EvalError>> {
    func: F,
    marker: PhantomData<(A, B, T)>,
}

impl<A: Variant, B: Variant, T: Variant, F: Fn(A, B) -> Result<T, EvalError>> Fn2<A, B, T, F> {
    /// The function that the adapter calls.
    pub closed spec fn func(&self) -> F {
        self.func
    }

    #[verifier::type_invariant]
    spec fn inv(&self) -> bool {
        forall|a: A, b: B| call_requires(self.func(), (a, b))
    }

    /// Wraps `func`, which must accept every argument of its types.
    pub fn new(func: F) -> (r: Self)
        requires
            forall|a: A, b: B| call_requires(func, (a, b)),
        ensures
            r.func() == func,
    {
        Fn2 { func, marker: PhantomData }
    }

    /// Calls the function on the arguments, moving each out of its slot and
    /// converting it to its parameter's type.
    pub fn invoke(&self, args: &mut Vec<Dynamic>, pos: Position) -> (r: Result<Dynamic, EvalError>)
        requires
            args_fit2::<A, B>(old(args)@),
        ensures
            exists|a: A, b: B, out: Result<T, EvalError>|
                a.spec_into_dynamic() == old(args)@[0] && b.spec_into_dynamic() == old(args)@[1]
                    && call_ensures(self.func(), (a, b), out)
                    && final(args)@ == old(args)@.update(0, Dynamic::Unit).update(1, Dynamic::Unit)
                    && r == wrap_result(out, pos),
    {
        proof {
            use_type_invariant(self);
        }
        if args.len() < 2 {
            return Err(mismatch(pos));
        }
        let a = match A::try_cast(take_arg(args, 0)) {
            Some(x) => x,
            None => return Err(mismatch(pos)),
        };
        let b = match B::try_cast(take_arg(args, 1)) {
            Some(x) => x,
            None => return Err(mismatch(pos)),
        };
        let ghost ga = a;
        let ghost gb = b;
        proof {
            assert(call_requires(self.func(), (a, b)));
        }
        let out = (self.func)(a, b);
        proof {
            assert(call_ensures(self.func(), (ga, gb), out));
        }
        wrap(out, pos)
    }
}

impl<A: Variant, B: Variant, T: Variant, F: Fn(A, B) -> Result<T, EvalError>> NativeCallable for Fn2<A, B, T, F> {
    open spec fn accepts(&self, args: Seq<Dynamic>) -> bool {
        args_fit2::<A, B>(args)
    }

    open spec fn outcome(
        &self,
        before: Seq<Dynamic>,
        after: Seq<Dynamic>,
        pos: Position,
        r: Result<Dynamic, EvalError>,
    ) -> bool {
        &&& exists|a: A, b: B, out: Result<T, EvalError>|
            a.spec_into_dynamic() == before[0] && b.spec_into_dynamic() == before[1]
                && call_ensures(self.func(), (a, b), out)
                && after == before.update(0, Dynamic::Unit).update(1, Dynamic::Unit)
                && r == wrap_result(out, pos)
    }

    fn call(&self, args: &mut Vec<Dynamic>, pos: Position) -> (r: Result<Dynamic, EvalError>) {
        self.invoke(args, pos)
    }
}

/// Adapter of a native function with two parameters, the first taken by
/// mutable reference: its slot receives the value as the function left it.
#[verifier::reject_recursive_types(A)]
#[verifier::reject_recursive_types(B)]
#[verifier::reject_recursive_types(T)]
pub struct Fn2Mut<A: Variant, B: Variant, T: Variant, F: Fn(&mut A, B) -> Result<T, EvalError>> {
    func: F,
    marker: PhantomData<(A, B, T)>,
}

impl<A: Variant, B: Variant, T: Variant, F: Fn(&mut A, B) -> Result<T, EvalError>> Fn2Mut<A, B, T, F> {
    /// The function that the adapter calls.
    pub closed spec fn func(&self) -> F {
        self.func
    }

    #[verifier::type_invariant]
    spec fn inv(&self) -> bool {
        forall|a: &mut A, b: B| call_requires(self.func(), (a, b))
    }

    /// Wraps `func`, which must accept every argument of its types.
    pub fn new(func: F) -> (r: Self)
        requires
            forall|a: &mut A, b: B| call_requires(func, (a, b)),
        ensures
            r.func() == func,
    {
        Fn2Mut { func, marker: PhantomData }
    }

    /// Calls the function on the arguments: the first is lent to it and
    /// then written back as the function left it; the others are moved out
    /// of their slots.
    pub fn invoke(&self, args: &mut Vec<Dynamic>, pos: Position) -> (r: Result<Dynamic, EvalError>)
        requires
            args_fit2::<A, B>(old(args)@),
        ensures
            exists|a: &mut A, b: B, out: Result<T, EvalError>|
                (*a).spec_into_dynamic() == old(args)@[0] && b.spec_into_dynamic() == old(args)@[1]
                    && call_ensures(self.func(), (a, b), out)
                    && final(args)@ == old(args)@.update(0, (*final(a)).spec_into_dynamic()).update(1, Dynamic::Unit)
                    && r == wrap_result(out, pos),
    {
        proof {
            use_type_invariant(self);
        }
        if args.len() < 2 {
            return Err(mismatch(pos));
        }
        let b = match B::try_cast(take_arg(args, 1)) {
            Some(x) => x,
            None => return Err(mismatch(pos)),
        };
        let mut a = match A::try_cast(take_arg(args, 0)) {
            Some(x) => x,
            None => return Err(mismatch(pos)),
        };
        let ghost ga = a;
        let ghost gb = b;
        let a_ref = &mut a;
        proof {
            assert(call_requires(self.func(), (a_ref, b,)));
        }
        let out = (self.func)(a_ref, b);
        proof {
            assert(exists|x: &mut A| call_ensures(self.func(), (x, gb), out) && *x == ga && *final(x) == a);
        }
        args.set(0, a.into_dynamic());
        wrap(out, pos)
    }
}

impl<A: Variant, B: Variant, T: Variant, F: Fn(&mut A, B) -> Result<T, EvalError>> NativeCallable for Fn2Mut<A, B, T, F> {
    open spec fn accepts(&self, args: Seq<Dynamic>) -> bool {
        args_fit2::<A, B>(args)
    }

    open spec fn outcome(
        &self,
        before: Seq<Dynamic>,
        after: Seq<Dynamic>,
        pos: Position,
        r: Result<Dynamic, EvalError>,
    ) -> bool {
        &&& exists|a: &mut A, a1: A, b: B, out: Result<T, EvalError>|
            (*a).spec_into_dynamic() == before[0] && b.spec_into_dynamic() == before[1]
                && call_ensures(self.func(), (a, b), out)
                && after == before.update(0, a1.spec_into_dynamic()).update(1, Dynamic::Unit)
                && r == wrap_result(out, pos)
    }

    fn call(&self, args: &mut Vec<Dynamic>, pos: Position) -> (r: Result<Dynamic, EvalError>) {
        self.invoke(args, pos)
    }
}

/// Adapter of a native function with three parameters, taken by value.
#[verifier::reject_recursive_types(A)]
#[verifier::reject_recursive_types(B)]
#[verifier::reject_recursive_types(C)]
#[verifier::reject_recursive_types(T)]
pub struct Fn3<A: Variant, B: Variant, C: Variant, T: Variant, F: Fn(A, B, C) -> Result<T, EvalError>> {
    func: F,
    marker: PhantomData<(A, B, C, T)>,
}

impl<A: Variant, B: Variant, C: Variant, T: Variant, F: Fn(A, B, C) -> Result<T, EvalError>> Fn3<A, B, C, T, F> {
    /// The function that the adapter calls.
    pub closed spec fn func(&self) -> F {
        self.func
    }

    #[verifier::type_invariant]
    spec fn inv(&self) -> bool {
        forall|a: A, b: B, c: C| call_requires(self.func(), (a, b, c))
    }

    /// Wraps `func`, which must accept every argument of its types.
    pub fn new(func: F) -> (r: Self)
        requires
            forall|a: A, b: B, c: C| call_requires(func, (a, b, c)),
        ensures
            r.func() == func,
    {
        Fn3 { func, marker: PhantomData }
    }

    /// Calls the function on the arguments, moving each out of its slot and
    /// converting it to its parameter's type.
    pub fn invoke(&self, args: &mut Vec<Dynamic>, pos: Position) -> (r: Result<Dynamic, EvalError>)
        requires
            args_fit3::<A, B, C>(old(args)@),
        ensures
            exists|a: A, b: B, c: C, out: Result<T, EvalError>|
                a.spec_into_dynamic() == old(args)@[0] && b.spec_into_dynamic() == old(args)@[1] && c.spec_into_dynamic() == old(args)@[2]
                    && call_ensures(self.func(), (a, b, c), out)
                    && final(args)@ == old(args)@.update(0, Dynamic::Unit).update(1, Dynamic::Unit).update(2, Dynamic::Unit)
                    && r == wrap_result(out, pos),
    {
        proof {
            use_type_invariant(self);
        }
        if args.len() < 3 {
            return Err(mismatch(pos));
        }
        let a = match A::try_cast(take_arg(args, 0)) {
            Some(x) => x,
            None => return Err(mismatch(pos)),
        };
        let b = match B::try_cast(take_arg(args, 1)) {
            Some(x) => x,
            None => return Err(mismatch(pos)),
        };
        let c = match C::try_cast(take_arg(args, 2)) {
            Some(x) => x,
            None => return Err(mismatch(pos)),
        };
        let ghost ga = a;
        let ghost gb = b;
        let ghost gc = c;
        proof {
            assert(call_requires(self.func(), (a, b, c)));
        }
        let out = (self.func)(a, b, c);
        proof {
            assert(call_ensures(self.func(), (ga, gb, gc), out));
        }
        wrap(out, pos)
    }
}

impl<A: Variant, B: Variant, C: Variant, T: Variant, F: Fn(A, B, C) -> Result<T, EvalError>> NativeCallable for Fn3<A, B, C, T, F> {
    open spec fn accepts(&self, args: Seq<Dynamic>) -> bool {
        args_fit3::<A, B, C>(args)
    }

    open spec fn outcome(
        &self,
        before: Seq<Dynamic>,
        after: Seq<Dynamic>,
        pos: Position,
        r: Result<Dynamic, EvalError>,
    ) -> bool {
        &&& exists|a: A, b: B, c: C, out: Result<T, EvalError>|
            a.spec_into_dynamic() == before[0] && b.spec_into_dynamic() == before[1] && c.spec_into_dynamic() == before[2]
                && call_ensures(self.func(), (a, b, c), out)
                && after == before.update(0, Dynamic::Unit).update(1, Dynamic::Unit).update(2, Dynamic::Unit)
                && r == wrap_result(out, pos)
    }

    fn call(&self, args: &mut Vec<Dynamic>, pos: Position) -> (r: Result<Dynamic, EvalError>) {
        self.invoke(args, pos)
    }
}

/// Adapter of a native function with three parameters, the first taken by
/// mutable reference: its slot receives the value as the function left it.
#[verifier::reject_recursive_types(A)]
#[verifier::reject_recursive_types(B)]
#[verifier::reject_recursive_types(C)]
#[verifier::reject_recursive_types(T)]
pub struct Fn3Mut<A: Variant, B: Variant, C: Variant, T: Variant, F: Fn(&mut A, B, C) -> Result<T, EvalError>> {
    func: F,
    marker: PhantomData<(A, B, C, T)>,
}

impl<A: Variant, B: Variant, C: Variant, T: Variant, F: Fn(&mut A, B, C) -> Result<T, EvalError>> Fn3Mut<A, B, C, T, F> {
    /// The function that the adapter calls.
    pub closed spec fn func(&self) -> F {
        self.func
    }

    #[verifier::type_invariant]
    spec fn inv(&self) -> bool {
        forall|a: &mut A, b: B, c: C| call_requires(self.func(), (a, b, c))
    }

    /// Wraps `func`, which must accept every argument of its types.
    pub fn new(func: F) -> (r: Self)
        requires
            forall|a: &mut A, b: B, c: C| call_requires(func, (a, b, c)),
        ensures
            r.func() == func,
    {
        Fn3Mut { func, marker: PhantomData }
    }

    /// Calls the function on the arguments: the first is lent to it and
    /// then written back as the function left it; the others are moved out
    /// of their slots.
    pub fn invoke(&self, args: &mut Vec<Dynamic>, pos: Position) -> (r: Result<Dynamic, EvalError>)
        requires
            args_fit3::<A, B, C>(old(args)@),
        ensures
            exists|a: &mut A, b: B, c: C, out: Result<T, EvalError>|
                (*a).spec_into_dynamic() == old(args)@[0] && b.spec_into_dynamic() == old(args)@[1] && c.spec_into_dynamic() == old(args)@[2]
                    && call_ensures(self.func(), (a, b, c), out)
                    && final(args)@ == old(args)@.update(0, (*final(a)).spec_into_dynamic()).update(1, Dynamic::Unit).update(2, Dynamic::Unit)
                    && r == wrap_result(out, pos),
    {
        proof {
            use_type_invariant(self);
        }
        if args.len() < 3 {
            return Err(mismatch(pos));
        }
        let b = match B::try_cast(take_arg(args, 1)) {
            Some(x) => x,
            None => return Err(mismatch(pos)),
        };
        let c = match C::try_cast(take_arg(args, 2)) {
            Some(x) => x,
            None => return Err(mismatch(pos)),
        };
        let mut a = match A::try_cast(take_arg(args, 0)) {
            Some(x) => x,
            None => return Err(mismatch(pos)),
        };
        let ghost ga = a;
        let ghost gb = b;
        let ghost gc = c;
        let a_ref = &mut a;
        proof {
            assert(call_requires(self.func(), (a_ref, b, c,)));
        }
        let out = (self.func)(a_ref, b, c);
        proof {
            assert(exists|x: &mut A| call_ensures(self.func(), (x, gb, gc), out) && *x == ga && *final(x) == a);
        }
        args.set(0, a.into_dynamic());
        wrap(out, pos)
    }
}

impl<A: Variant, B: Variant, C: Variant, T: Variant, F: Fn(&mut A, B, C) -> Result<T, EvalError>> NativeCallable for Fn3Mut<A, B, C, T, F> {
    open spec fn accepts(&self, args: Seq<Dynamic>) -> bool {
        args_fit3::<A, B, C>(args)
    }

    open spec fn outcome(
        &self,
        before: Seq<Dynamic>,
        after: Seq<Dynamic>,
        pos: Position,
        r: Result<Dynamic, EvalError>,
    ) -> bool {
        &&& exists|a: &mut A, a1: A, b: B, c: C, out: Result<T, EvalError>|
            (*a).spec_into_dynamic() == before[0] && b.spec_into_dynamic() == before[1] && c.spec_into_dynamic() == before[2]
                && call_ensures(self.func(), (a, b, c), out)
                && after == before.update(0, a1.spec_into_dynamic()).update(1, Dynamic::Unit).update(2, Dynamic::Unit)
                && r == wrap_result(out, pos)
    }

    fn call(&self, args: &mut Vec<Dynamic>, pos: Position) -> (r: Result<Dynamic, EvalError>) {
        self.invoke(args, pos)
    }
}

} // verus!
