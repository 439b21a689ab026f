use vstd::prelude::*;

verus! {

/// A function defined in script source.
#[derive(Debug)]
pub struct FnDef {
    /// Name of the function.
    pub name: String,
    /// Names of its parameters, in order.
    pub params: Vec<String>,
    /// Source text of its body; this library does not look inside it.
    pub body: String,
}

/// What a definition states: its name, its parameters and its body.
pub struct FnDefView {
    pub name: Seq<char>,
    pub params: Seq<String>,
    pub body: Seq<char>,
}

impl View for FnDef {
    type V = FnDefView;

    open spec fn view(&self) -> FnDefView {
        FnDefView { name: self.name@, params: self.params@, body: self.body@ }
    }
}

impl FnDef {
    pub fn new(name: String, params: Vec<String>, body: String) -> (r: FnDef)
        ensures
            r@ == (FnDefView { name: name@, params: params@, body: body@ }),
    {
        FnDef { name, params, body }
    }

    /// The number of parameters.
    pub fn arity(&self) -> (r: usize)
        ensures
            r == self.params@.len(),
    {
        self.params.len()
    }
}

impl Clone for FnDef {
    fn clone(&self) -> (r: Self)
        ensures
            r@ == self@,
    {
        let mut params: Vec<String> = Vec::new();
        let mut i: usize = 0;
        while i < self.params.len()
            invariant
                i <= self.params@.len(),
                params@ == self.params@.take(i as int),
            decreases self.params@.len() - i,
        {
            params.push(self.params[i].clone());
            proof {
                assert(params@ =~= self.params@.take(i + 1));
            }
            i = i + 1;
        }
        proof {
            assert(params@ =~= self.params@);
        }
        FnDef { name: self.name.clone(), params, body: self.body.clone() }
    }
}

/// The views of a sequence of definitions.
pub open spec fn views_of(s: Seq<FnDef>) -> Seq<FnDefView> {
    s.map_values(|d: FnDef| d@)
}

/// Whether `d` is named `name` and takes `arity` parameters.
pub open spec fn fn_matches(d: FnDefView, name: Seq<char>, arity: nat) -> bool {
    d.name == name && d.params.len() == arity
}

/// The last definition in `s` with this name and arity.
pub open spec fn lookup_fn(s: Seq<FnDefView>, name: Seq<char>, arity: nat) -> Option<FnDefView>
    decreases s.len(),
{
    if s.len() == 0 {
        None
    } else if fn_matches(s.last(), name, arity) {
        Some(s.last())
    } else {
        lookup_fn(s.drop_last(), name, arity)
    }
}

proof fn lemma_lookup_append(a: Seq<FnDefView>, b: Seq<FnDefView>, name: Seq<char>, arity: nat)
    ensures
        lookup_fn(a + b, name, arity) == match lookup_fn(b, name, arity) {
            Some(d) => Some(d),
            None => lookup_fn(a, name, arity),
        },
    decreases b.len(),
{
    if b.len() == 0 {
        assert(a + b =~= a);
    } else {
        assert((a + b).drop_last() =~= a + b.drop_last());
        assert((a + b).last() == b.last());
        lemma_lookup_append(a, b.drop_last(), name, arity);
    }
}

/// A library of script-defined functions, looked up by name and arity.
/// Of two definitions with the same name and arity the later one counts.
#[derive(Debug)]
pub struct FunctionsLib {
    defs: Vec<FnDef>,
}

impl View for FunctionsLib {
    type V = Seq<FnDefView>;

    closed spec fn view(&self) -> Seq<FnDefView> {
        views_of(self.defs@)
    }
}

impl FunctionsLib {
    /// The definition that a lookup of this name and arity finds.
    pub open spec fn spec_get(&self, name: Seq<char>, arity: nat) -> Option<FnDefView> {
        lookup_fn(self@, name, arity)
    }

    /// An empty library.
    pub fn new() -> (r: FunctionsLib)
        ensures
            r@ == Seq::<FnDefView>::empty(),
    {
        FunctionsLib { defs: Vec::new() }
    }

    /// Adds a definition, overriding one of the same name and arity.
    pub fn add(&mut self, def: FnDef)
        ensures
            final(self)@ == old(self)@.push(def@),
    {
        self.defs.push(def);
        proof {
            assert(self@ =~= old(self)@.push(def@));
        }
    }

    /// The number of definitions held.
    pub fn len(&self) -> (r: usize)
        ensures
            r == self@.len(),
    {
        self.defs.len()
    }

    /// The function of this name taking `arity` parameters.
    pub fn get_function(&self, name: &str, arity: usize) -> (r: Option<&FnDef>)
        ensures
            match r {
                Some(d) => self.spec_get(name@, arity as nat) == Some(d@),
                None => self.spec_get(name@, arity as nat) is None,
            },
    {
        let key = name.to_owned();
        let mut i: usize = self.defs.len();
        proof {
            assert(self@.take(i as int) =~= self@);
        }
        while i > 0
            invariant
                i <= self.defs@.len(),
                key@ == name@,
                lookup_fn(self@, name@, arity as nat) == lookup_fn(
                    self@.take(i as int),
                    name@,
                    arity as nat,
                ),
            decreases i,
        {
            let d = &self.defs[i - 1];
            proof {
                assert(self@.take(i as int).drop_last() =~= self@.take(i - 1));
            }
            if d.name == key && d.params.len() == arity {
                return Some(d);
            }
            i = i - 1;
        }
        None
    }

    /// The union of both libraries; where both define a name and arity,
    /// `other`'s definition counts.
    pub fn merge(&self, other: &FunctionsLib) -> (r: FunctionsLib)
        ensures
            r@ == self@ + other@,
            forall|name: Seq<char>, arity: nat| #[trigger] r.spec_get(name, arity) == match other.spec_get(name, arity) {
                Some(d) => Some(d),
                None => self.spec_get(name, arity),
            },
    {
        let mut defs: Vec<FnDef> = Vec::new();
        let mut i: usize = 0;
        while i < self.defs.len()
            invariant
                i <= self.defs@.len(),
                views_of(defs@) == self@.take(i as int),
            decreases self.defs@.len() - i,
        {
            let c = self.defs[i].clone();
            proof {
                assert(c@ == self@[i as int]);
                assert(views_of(defs@.push(c)) =~= views_of(defs@).push(c@));
            }
            defs.push(c);
            proof {
                assert(views_of(defs@) =~= self@.take(i + 1));
            }
            i = i + 1;
        }
        let mut j: usize = 0;
        while j < other.defs.len()
            invariant
                j <= other.defs@.len(),
                views_of(defs@) == self@ + other@.take(j as int),
            decreases other.defs@.len() - j,
        {
            let c = other.defs[j].clone();
            proof {
                assert(c@ == other@[j as int]);
                assert(views_of(defs@.push(c)) =~= views_of(defs@).push(c@));
            }
            defs.push(c);
            proof {
                assert(views_of(defs@) =~= self@ + other@.take(j + 1));
            }
            j = j + 1;
        }
        proof {
            assert(self@.take(i as int) =~= self@);
            assert(other@.take(j as int) =~= other@);
            assert forall|name: Seq<char>, arity: nat|
                #[trigger] lookup_fn(self@ + other@, name, arity) == match lookup_fn(other@, name, arity) {
                    Some(d) => Some(d),
                    None => lookup_fn(self@, name, arity),
                } by {
                lemma_lookup_append(self@, other@, name, arity);
            }
        }
        FunctionsLib { defs }
    }
}

} // verus!

verus! {

impl Clone for FunctionsLib {
    fn clone(&self) -> (r: Self)
        ensures
            r@ == self@,
    {
        let r = FunctionsLib::new().merge(self);
        proof {
            assert(Seq::<FnDefView>::empty() + self@ =~= self@);
        }
        r
    }
}

} // verus!
