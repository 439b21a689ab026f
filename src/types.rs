use vstd::prelude::*;

verus! {

/// A position in script source: line and column, both starting at 1.
/// The value with line 0 stands for "no position".
#[derive(Clone, Copy, Debug, PartialEq, Eq, Structural)]
pub struct Position {
    pub line: u32,
    pub column: u32,
}

impl Position {
    pub fn new(line: u32, column: u32) -> (r: Position)
        ensures
            r.line == line,
            r.column == column,
    {
        Position { line, column }
    }

    pub fn none() -> (r: Position)
        ensures
            r.line == 0,
            r.column == 0,
    {
        Position { line: 0, column: 0 }
    }
}

/// The identifier of a concrete type that a dynamic value can hold.
#[derive(Clone, Copy, Debug, PartialEq, Eq, Structural)]
pub enum TypeTag {
    Unit,
    Bool,
    Int,
    Char,
    Str,
}

impl TypeTag {
    pub open spec fn spec_code(self) -> u64 {
        match self {
            TypeTag::Unit => 1,
            TypeTag::Bool => 2,
            TypeTag::Int => 3,
            TypeTag::Char => 4,
            TypeTag::Str => 5,
        }
    }

    /// A distinct number for each type, fed into function hashes.
    #[verifier::when_used_as_spec(spec_code)]
    pub fn code(self) -> (r: u64)
        ensures
            r == self.spec_code(),
    {
        match self {
            TypeTag::Unit => 1,
            TypeTag::Bool => 2,
            TypeTag::Int => 3,
            TypeTag::Char => 4,
            TypeTag::Str => 5,
        }
    }
}

/// A dynamically typed value.
#[derive(Debug, PartialEq)]
pub enum Dynamic {
    Unit,
    Bool(bool),
    Int(i64),
    Char(char),
    Str(String),
}

impl Dynamic {
    pub open spec fn spec_type_tag(&self) -> TypeTag {
        match self {
            Dynamic::Unit => TypeTag::Unit,
            Dynamic::Bool(_) => TypeTag::Bool,
            Dynamic::Int(_) => TypeTag::Int,
            Dynamic::Char(_) => TypeTag::Char,
            Dynamic::Str(_) => TypeTag::Str,
        }
    }

    /// The type of the value held.
    #[verifier::when_used_as_spec(spec_type_tag)]
    pub fn type_tag(&self) -> (r: TypeTag)
        ensures
            r == self.spec_type_tag(),
    {
        match self {
            Dynamic::Unit => TypeTag::Unit,
            Dynamic::Bool(_) => TypeTag::Bool,
            Dynamic::Int(_) => TypeTag::Int,
            Dynamic::Char(_) => TypeTag::Char,
            Dynamic::Str(_) => TypeTag::Str,
        }
    }

    /// Moves the value out, leaving the unit value behind.
    pub fn take(&mut self) -> (r: Dynamic)
        ensures
            r == *old(self),
            *final(self) == Dynamic::Unit,
    {
        let r = self.clone();
        *self = Dynamic::Unit;
        r
    }
}

impl Clone for Dynamic {
    fn clone(&self) -> (r: Self)
        ensures
            r == *self,
    {
        match self {
            Dynamic::Unit => Dynamic::Unit,
            Dynamic::Bool(b) => Dynamic::Bool(*b),
            Dynamic::Int(i) => Dynamic::Int(*i),
            Dynamic::Char(c) => Dynamic::Char(*c),
            Dynamic::Str(s) => Dynamic::Str(s.clone()),
        }
    }
}

impl Default for Dynamic {
    fn default() -> (r: Self)
        ensures
            r == Dynamic::Unit,
    {
        Dynamic::Unit
    }
}

/// A concrete type that a dynamic value can hold: checked downcast and
/// conversion back.
pub trait Variant: Sized {
    spec fn spec_tag() -> TypeTag;

    spec fn spec_into_dynamic(self) -> Dynamic;

    fn tag() -> (r: TypeTag)
        ensures
            r == Self::spec_tag(),
    ;

    fn into_dynamic(self) -> (r: Dynamic)
        ensures
            r == self.spec_into_dynamic(),
            r.spec_type_tag() == Self::spec_tag(),
    ;

    /// Gives the value back where `d` holds this type, else `None`.
    fn try_cast(d: Dynamic) -> (r: Option<Self>)
        ensures
            r is Some <==> d.spec_type_tag() == Self::spec_tag(),
            r matches Some(v) ==> v.spec_into_dynamic() == d,
    ;
}

impl Variant for () {
    open spec fn spec_tag() -> TypeTag {
        TypeTag::Unit
    }

    open spec fn spec_into_dynamic(self) -> Dynamic {
        Dynamic::Unit
    }

    fn tag() -> (r: TypeTag) {
        TypeTag::Unit
    }

    fn into_dynamic(self) -> (r: Dynamic) {
        Dynamic::Unit
    }

    fn try_cast(d: Dynamic) -> (r: Option<Self>) {
        match d {
            Dynamic::Unit => Some(()),
            _ => None,
        }
    }
}

impl Variant for bool {
    open spec fn spec_tag() -> TypeTag {
        TypeTag::Bool
    }

    open spec fn spec_into_dynamic(self) -> Dynamic {
        Dynamic::Bool(self)
    }

    fn tag() -> (r: TypeTag) {
        TypeTag::Bool
    }

    fn into_dynamic(self) -> (r: Dynamic) {
        Dynamic::Bool(self)
    }

    fn try_cast(d: Dynamic) -> (r: Option<Self>) {
        match d {
            Dynamic::Bool(b) => Some(b),
            _ => None,
        }
    }
}

impl Variant for i64 {
    open spec fn spec_tag() -> TypeTag {
        TypeTag::Int
    }

    open spec fn spec_into_dynamic(self) -> Dynamic {
        Dynamic::Int(self)
    }

    fn tag() -> (r: TypeTag) {
        TypeTag::Int
    }

    fn into_dynamic(self) -> (r: Dynamic) {
        Dynamic::Int(self)
    }

    fn try_cast(d: Dynamic) -> (r: Option<Self>) {
        match d {
            Dynamic::Int(i) => Some(i),
            _ => None,
        }
    }
}

impl Variant for char {
    open spec fn spec_tag() -> TypeTag {
        TypeTag::Char
    }

    open spec fn spec_into_dynamic(self) -> Dynamic {
        Dynamic::Char(self)
    }

    fn tag() -> (r: TypeTag) {
        TypeTag::Char
    }

    fn into_dynamic(self) -> (r: Dynamic) {
        Dynamic::Char(self)
    }

    fn try_cast(d: Dynamic) -> (r: Option<Self>) {
        match d {
            Dynamic::Char(c) => Some(c),
            _ => None,
        }
    }
}

impl Variant for String {
    open spec fn spec_tag() -> TypeTag {
        TypeTag::Str
    }

    open spec fn spec_into_dynamic(self) -> Dynamic {
        Dynamic::Str(self)
    }

    fn tag() -> (r: TypeTag) {
        TypeTag::Str
    }

    fn into_dynamic(self) -> (r: Dynamic) {
        Dynamic::Str(self)
    }

    fn try_cast(d: Dynamic) -> (r: Option<Self>) {
        match d {
            Dynamic::Str(s) => Some(s),
            _ => None,
        }
    }
}

} // verus!
