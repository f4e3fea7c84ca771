//! Errors of the function-compilation pipeline.
//!
//! Every failure is fatal for the whole module: the first one that reaches the
//! pipeline is kept, together with the piece of work that produced it.

use vstd::prelude::*;

verus! {

/// A backend artifact that breaks the closed-world assumptions of the pipeline.
#[derive(Debug, Clone, PartialEq, Eq)]
pub enum ConsistencyError {
    /// A relocation names a function that the module only imports.
    RelocationToImport { function: u32 },
    /// A relocation names a function index past the last function of the module.
    RelocationOutOfRange { function: u32 },
    /// A relocation names a user symbol outside the namespace that the module's
    /// functions are named in.
    RelocationNamespace { namespace: u32 },
    /// A relocation names neither a function nor a runtime intrinsic.
    RelocationName,
    /// The backend recorded an interrupt trap, which has no portable kind.
    TrapInterrupt,
    /// The backend recorded a user-defined trap, which has no portable kind.
    TrapUser { code: u16 },
    /// The module's index spaces are inconsistent: its function table has
    /// not one entry per function, or names a signature that is not there.
    IndexSpace,
    /// A completion arrived for work that the module does not have, that was
    /// already delivered, or that was not yet due.
    UnexpectedCompletion,
    /// The result was asked for while work was still outstanding.
    Incomplete,
}

/// What the backend reports when it cannot produce an artifact.
#[derive(Debug, Clone, PartialEq, Eq)]
pub enum BackendError {
    /// The function's byte-code is malformed or uses an unsupported construct.
    Translation(String),
    /// The code generator failed on valid intermediate representation.
    Codegen(String),
}

/// The piece of work an error belongs to.
#[derive(Debug, Clone, Copy, PartialEq, Eq)]
pub enum Origin {
    /// The module as a whole.
    Module,
    /// The local function with this index.
    Function(u32),
    /// The call trampoline of the signature with this index.
    CallTrampoline(u32),
    /// The dynamic trampoline of the imported function with this index.
    DynamicTrampoline(u32),
}

/// The three kinds of failure.
#[derive(Debug, Clone, PartialEq, Eq)]
pub enum ErrorKind {
    Translation(String),
    Codegen(String),
    InternalConsistency(ConsistencyError),
}

/// Why a module failed to compile.
#[derive(Debug, Clone, PartialEq, Eq)]
pub struct CompileError {
    pub origin: Origin,
    pub kind: ErrorKind,
}

impl BackendError {
    /// The failure kind that carries this report.
    pub open spec fn kind(self) -> ErrorKind {
        match self {
            BackendError::Translation(message) => ErrorKind::Translation(message),
            BackendError::Codegen(message) => ErrorKind::Codegen(message),
        }
    }

    /// Attributes the report to the work that produced it.
    pub fn at(self, origin: Origin) -> (error: CompileError)
        ensures
            error == (CompileError { origin, kind: self.kind() }),
    {
        match self {
            BackendError::Translation(message) => CompileError {
                origin,
                kind: ErrorKind::Translation(message),
            },
            BackendError::Codegen(message) => CompileError { origin, kind: ErrorKind::Codegen(message) },
        }
    }
}

impl ConsistencyError {
    /// Attributes the violation to the work that produced it.
    pub fn at(self, origin: Origin) -> (error: CompileError)
        ensures
            error == (CompileError { origin, kind: ErrorKind::InternalConsistency(self) }),
    {
        CompileError { origin, kind: ErrorKind::InternalConsistency(self) }
    }
}

} // verus!
