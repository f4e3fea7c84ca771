//! The mathematical model of one module's compilation: which artifacts have
//! arrived, what the next piece of work is, and what the result will be.

use crate::artifacts::{
    relocations_local, CompilationView, CompiledFunctionUnwindInfo, CompiledFunctionView,
    CustomSection, Dwarf, FunctionBody,
};
use crate::backend::MachFunction;
use crate::error::{BackendError, CompileError, ConsistencyError, ErrorKind, Origin};
use crate::module::{ModuleInfo, Target};
use crate::normalize::spec_normalize_function;
use crate::slots::{all_filled, dense, first_empty};
use cranelift_codegen::isa::unwind::systemv::UnwindInfo;
use vstd::prelude::*;

verus! {

/// How the pipeline is configured.
#[derive(Debug, Clone, Copy, PartialEq, Eq)]
pub struct Cranelift {
    /// Whether modules get a shared unwind frame table where the target
    /// unwinds by one.
    pub table_unwind: bool,
    /// The number of workers that compile functions and trampolines side by
    /// side, or `None` to compile them one after the other.
    pub worker_pool: Option<usize>,
}

/// A piece of work for the code generator.
#[derive(Debug, Clone, Copy, PartialEq, Eq)]
pub enum Work {
    /// Translate and compile the local function `local`, which is function
    /// `function` of the module and has the signature `signature`.
    Function { local: u32, function: u32, signature: u32 },
    /// Serialize the module's frame table into its unwind section.
    UnwindSection,
    /// Generate the call trampoline of signature `signature`.
    CallTrampoline { signature: u32 },
    /// Generate the dynamic trampoline of imported function `function`,
    /// which has the signature `signature`.
    DynamicTrampoline { function: u32, signature: u32 },
    /// Nothing is left to do, or the compilation has failed.
    Finished,
}

impl Work {
    /// `completion` is the completion of this piece of work.
    pub open spec fn done_by(self, completion: Completion) -> bool {
        match self {
            Work::Function { local, .. } => completion matches Completion::Function { local: l, .. }
                && l == local,
            Work::UnwindSection => completion is UnwindSection,
            Work::CallTrampoline { signature } => completion matches Completion::CallTrampoline {
                signature: s,
                ..
            } && s == signature,
            Work::DynamicTrampoline { function, .. } => completion matches Completion::DynamicTrampoline {
                function: f,
                ..
            } && f == function,
            Work::Finished => false,
        }
    }
}

/// A piece of work that the code generator has completed.
#[derive(Debug, PartialEq, Eq)]
pub enum Completion {
    Function { local: u32, outcome: Result<MachFunction, BackendError> },
    UnwindSection { section: CustomSection },
    CallTrampoline { signature: u32, trampoline: Result<FunctionBody, BackendError> },
    DynamicTrampoline { function: u32, trampoline: Result<FunctionBody, BackendError> },
}

/// The state of one module's compilation.
pub struct CompilationState {
    pub module: ModuleInfo,
    /// Whether the module gets a frame table and an unwind section.
    pub table_unwind: bool,
    /// The compiled local functions that have arrived, by local index.
    pub functions: Seq<Option<CompiledFunctionView>>,
    /// The table-based unwind information of the functions that have any.
    pub frame_entries: Seq<Option<UnwindInfo>>,
    pub unwind_section: Option<CustomSection>,
    /// The call trampolines that have arrived, by signature index.
    pub call_trampolines: Seq<Option<FunctionBody>>,
    /// The dynamic trampolines that have arrived, by imported function index.
    pub dynamic_trampolines: Seq<Option<FunctionBody>>,
    /// The first failure, after which nothing changes any more.
    pub failure: Option<CompileError>,
}

/// Whether a module with `local_functions` functions gets a frame table: the
/// pipeline is configured for it, the target unwinds by one, and there is
/// at least one function to describe.
pub open spec fn spec_unwind_table_applicable(
    config: Cranelift,
    target: Target,
    local_functions: u32,
) -> bool {
    config.table_unwind && local_functions > 0 && target.spec_table_unwind()
}

impl CompilationState {
    /// The state in which nothing has arrived yet. A module whose index
    /// spaces are inconsistent fails at once.
    pub open spec fn start(config: Cranelift, target: Target, module: ModuleInfo) -> Self {
        if module.valid() {
            CompilationState {
                module,
                table_unwind: spec_unwind_table_applicable(config, target, module.local_functions),
                functions: Seq::new(module.local_functions as nat, |i: int| None),
                frame_entries: Seq::new(module.local_functions as nat, |i: int| None),
                unwind_section: None,
                call_trampolines: Seq::new(module.signatures as nat, |i: int| None),
                dynamic_trampolines: Seq::new(module.imported_functions as nat, |i: int| None),
                failure: None,
            }
        } else {
            CompilationState {
                module,
                table_unwind: false,
                functions: Seq::empty(),
                frame_entries: Seq::empty(),
                unwind_section: None,
                call_trampolines: Seq::empty(),
                dynamic_trampolines: Seq::empty(),
                failure: Some(
                    CompileError {
                        origin: Origin::Module,
                        kind: ErrorKind::InternalConsistency(ConsistencyError::IndexSpace),
                    },
                ),
            }
        }
    }

    /// What holds of every state that a compilation goes through.
    pub open spec fn wf(self) -> bool {
        &&& self.failure is None ==> self.module.valid()
        &&& self.module.valid() ==> {
            &&& self.functions.len() == self.module.local_functions
            &&& self.frame_entries.len() == self.module.local_functions
            &&& self.call_trampolines.len() == self.module.signatures
            &&& self.dynamic_trampolines.len() == self.module.imported_functions
        }
        &&& self.frame_entries.len() == self.functions.len() <= self.module.local_functions
        &&& self.table_unwind ==> self.module.local_functions > 0
        &&& self.unwind_section is Some ==> self.table_unwind && all_filled(self.functions)
        &&& forall|i: int|
            0 <= i < self.functions.len() ==> (#[trigger] self.functions[i] matches Some(function)
                ==> relocations_local(function.relocations, self.module.local_functions))
        &&& forall|i: int|
            0 <= i < self.frame_entries.len() ==> (#[trigger] self.frame_entries[i] is Some
                ==> self.table_unwind && self.functions[i] is Some)
        &&& forall|i: int|
            0 <= i < self.functions.len() ==> (#[trigger] self.functions[i] matches Some(function)
                ==> (function.body.unwind_info == Some(CompiledFunctionUnwindInfo::Dwarf)
                <==> self.frame_entries[i] is Some))
    }

    /// The state after the failure `kind` of the work `origin`.
    pub open spec fn fail(self, origin: Origin, kind: ErrorKind) -> Self {
        CompilationState { failure: Some(CompileError { origin, kind }), ..self }
    }

    /// The state after a completion that the module has no use for.
    pub open spec fn unexpected(self, origin: Origin) -> Self {
        self.fail(origin, ErrorKind::InternalConsistency(ConsistencyError::UnexpectedCompletion))
    }

    /// The state after the local function `local` has come back from the
    /// code generator.
    pub open spec fn function_step(self, local: u32, outcome: Result<MachFunction, BackendError>) -> Self {
        let origin = Origin::Function(local);
        if local >= self.functions.len() || self.functions[local as int] is Some {
            self.unexpected(origin)
        } else {
            match outcome {
                Err(error) => self.fail(origin, error.kind()),
                Ok(function) => match spec_normalize_function(self.module, self.table_unwind, function) {
                    Err(error) => self.fail(origin, ErrorKind::InternalConsistency(error)),
                    Ok(output) => CompilationState {
                        functions: self.functions.update(local as int, Some(output.compiled)),
                        frame_entries: self.frame_entries.update(local as int, output.frame_entry),
                        ..self
                    },
                },
            }
        }
    }

    /// The state after the unwind section has been serialized. It is due
    /// once, when every local function has arrived.
    pub open spec fn section_step(self, section: CustomSection) -> Self {
        if !self.table_unwind || !all_filled(self.functions) || self.unwind_section is Some {
            self.unexpected(Origin::Module)
        } else {
            CompilationState { unwind_section: Some(section), ..self }
        }
    }

    /// The state after the call trampoline of `signature` has come back.
    pub open spec fn call_trampoline_step(
        self,
        signature: u32,
        outcome: Result<FunctionBody, BackendError>,
    ) -> Self {
        let origin = Origin::CallTrampoline(signature);
        if signature >= self.call_trampolines.len() || self.call_trampolines[signature as int] is Some {
            self.unexpected(origin)
        } else {
            match outcome {
                Err(error) => self.fail(origin, error.kind()),
                Ok(body) => CompilationState {
                    call_trampolines: self.call_trampolines.update(signature as int, Some(body)),
                    ..self
                },
            }
        }
    }

    /// The state after the dynamic trampoline of the imported function
    /// `function` has come back.
    pub open spec fn dynamic_trampoline_step(
        self,
        function: u32,
        outcome: Result<FunctionBody, BackendError>,
    ) -> Self {
        let origin = Origin::DynamicTrampoline(function);
        if function >= self.dynamic_trampolines.len() || self.dynamic_trampolines[function as int] is Some {
            self.unexpected(origin)
        } else {
            match outcome {
                Err(error) => self.fail(origin, error.kind()),
                Ok(body) => CompilationState {
                    dynamic_trampolines: self.dynamic_trampolines.update(function as int, Some(body)),
                    ..self
                },
            }
        }
    }

    /// The state after `completion`. Once the compilation has failed,
    /// completions are discarded.
    pub open spec fn step(self, completion: Completion) -> Self {
        if self.failure is Some {
            self
        } else {
            match completion {
                Completion::Function { local, outcome } => self.function_step(local, outcome),
                Completion::UnwindSection { section } => self.section_step(section),
                Completion::CallTrampoline { signature, trampoline } => self.call_trampoline_step(
                    signature,
                    trampoline,
                ),
                Completion::DynamicTrampoline { function, trampoline } => self.dynamic_trampoline_step(
                    function,
                    trampoline,
                ),
            }
        }
    }

    /// The state after the completions have arrived one by one.
    pub open spec fn run(self, completions: Seq<Completion>) -> Self
        decreases completions.len(),
    {
        if completions.len() == 0 {
            self
        } else {
            self.run(completions.drop_last()).step(completions.last())
        }
    }

    /// The first piece of work that is still outstanding: the local
    /// functions by index, then the unwind section, then the call
    /// trampolines and the dynamic trampolines by index.
    pub open spec fn next_work(self) -> Work {
        if self.failure is Some {
            Work::Finished
        } else if !all_filled(self.functions) {
            Work::Function {
                local: first_empty(self.functions) as u32,
                function: self.module.spec_func_index(first_empty(self.functions) as u32) as u32,
                signature: self.module.functions@[self.module.spec_func_index(
                    first_empty(self.functions) as u32,
                )],
            }
        } else if self.table_unwind && self.unwind_section is None {
            Work::UnwindSection
        } else if !all_filled(self.call_trampolines) {
            Work::CallTrampoline { signature: first_empty(self.call_trampolines) as u32 }
        } else if !all_filled(self.dynamic_trampolines) {
            Work::DynamicTrampoline {
                function: first_empty(self.dynamic_trampolines) as u32,
                signature: self.module.functions@[first_empty(self.dynamic_trampolines)],
            }
        } else {
            Work::Finished
        }
    }

    /// Whether every artifact of the module has arrived.
    pub open spec fn complete(self) -> bool {
        &&& all_filled(self.functions)
        &&& self.table_unwind ==> self.unwind_section is Some
        &&& all_filled(self.call_trampolines)
        &&& all_filled(self.dynamic_trampolines)
    }

    /// The custom sections of the compiled module: the unwind section, if
    /// the module has one.
    pub open spec fn sections(self) -> Seq<CustomSection> {
        match self.unwind_section {
            Some(section) => seq![section],
            None => Seq::empty(),
        }
    }

    /// The result of the compilation: the first failure; or, when every
    /// artifact has arrived, the artifacts in index order.
    pub open spec fn result(self) -> Result<CompilationView, CompileError> {
        match self.failure {
            Some(error) => Err(error),
            None => if !self.complete() {
                Err(
                    CompileError {
                        origin: Origin::Module,
                        kind: ErrorKind::InternalConsistency(ConsistencyError::Incomplete),
                    },
                )
            } else {
                Ok(
                    CompilationView {
                        functions: dense(self.functions),
                        custom_sections: self.sections(),
                        function_call_trampolines: dense(self.call_trampolines),
                        dynamic_function_trampolines: dense(self.dynamic_trampolines),
                        debug: match self.unwind_section {
                            Some(_) => Some(Dwarf { eh_frame: 0 }),
                            None => None,
                        },
                    },
                )
            },
        }
    }
}

} // verus!
