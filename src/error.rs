use vstd::prelude::*;

use crate::types::Position;

verus! {

/// What went wrong while resolving or calling something, and where.
#[derive(Debug, Clone, PartialEq)]
pub enum EvalError {
    /// A variable of this name is absent from the resolved module.
    VariableNotFound(String, Position),
    /// A module (a path segment, or an import path) could not be found.
    ModuleNotFound(String, Position),
    /// No native function of this qualified name and signature exists.
    FunctionNotFound(String, Position),
    /// A native function received arguments of the wrong number or types.
    ArgumentMismatch(String, Position),
    /// Compiling a script failed.
    Compile(String, Position),
    /// Running a script, or a native function, failed.
    Runtime(String, Position),
}

impl EvalError {
    pub open spec fn spec_position(&self) -> Position {
        match self {
            EvalError::VariableNotFound(_, p) => *p,
            EvalError::ModuleNotFound(_, p) => *p,
            EvalError::FunctionNotFound(_, p) => *p,
            EvalError::ArgumentMismatch(_, p) => *p,
            EvalError::Compile(_, p) => *p,
            EvalError::Runtime(_, p) => *p,
        }
    }

    pub open spec fn spec_message(&self) -> Seq<char> {
        match self {
            EvalError::VariableNotFound(m, _) => m@,
            EvalError::ModuleNotFound(m, _) => m@,
            EvalError::FunctionNotFound(m, _) => m@,
            EvalError::ArgumentMismatch(m, _) => m@,
            EvalError::Compile(m, _) => m@,
            EvalError::Runtime(m, _) => m@,
        }
    }

    /// The same error of the same kind, with its position replaced by `pos`.
    pub open spec fn spec_with_position(self, pos: Position) -> EvalError {
        match self {
            EvalError::VariableNotFound(m, _) => EvalError::VariableNotFound(m, pos),
            EvalError::ModuleNotFound(m, _) => EvalError::ModuleNotFound(m, pos),
            EvalError::FunctionNotFound(m, _) => EvalError::FunctionNotFound(m, pos),
            EvalError::ArgumentMismatch(m, _) => EvalError::ArgumentMismatch(m, pos),
            EvalError::Compile(m, _) => EvalError::Compile(m, pos),
            EvalError::Runtime(m, _) => EvalError::Runtime(m, pos),
        }
    }

    /// Re-stamps the error with the position of the call or import site.
    pub fn set_position(self, pos: Position) -> (r: EvalError)
        ensures
            r == self.spec_with_position(pos),
            r.spec_position() == pos,
            r.spec_message() == self.spec_message(),
    {
        match self {
            EvalError::VariableNotFound(m, _) => EvalError::VariableNotFound(m, pos),
            EvalError::ModuleNotFound(m, _) => EvalError::ModuleNotFound(m, pos),
            EvalError::FunctionNotFound(m, _) => EvalError::FunctionNotFound(m, pos),
            EvalError::ArgumentMismatch(m, _) => EvalError::ArgumentMismatch(m, pos),
            EvalError::Compile(m, _) => EvalError::Compile(m, pos),
            EvalError::Runtime(m, _) => EvalError::Runtime(m, pos),
        }
    }

    /// The position the error points at.
    pub fn position(&self) -> (r: Position)
        ensures
            r == self.spec_position(),
    {
        match self {
            EvalError::VariableNotFound(_, p) => *p,
            EvalError::ModuleNotFound(_, p) => *p,
            EvalError::FunctionNotFound(_, p) => *p,
            EvalError::ArgumentMismatch(_, p) => *p,
            EvalError::Compile(_, p) => *p,
            EvalError::Runtime(_, p) => *p,
        }
    }
}

} // verus!
