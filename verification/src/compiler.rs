//! Drives the compilation of one module: hands out the work, takes in what
//! the code generator completes, and assembles the result by index.

use crate::artifacts::{
    Compilation, CompiledFunction, CompiledFunctionView, CustomSection, Dwarf, FunctionBody,
};
use crate::backend::MachFunction;
use crate::error::{BackendError, CompileError, ConsistencyError, Origin};
use crate::laws::{lemma_start_wf, lemma_step_wf};
use crate::module::{ModuleInfo, Target};
use crate::normalize::{normalize_function, FunctionOutput};
use crate::sections::CustomSections;
use crate::slots::{all_filled, dense, first_empty, is_first_empty, lemma_first_empty, Slots};
use crate::state::{spec_unwind_table_applicable, CompilationState, Completion, Cranelift, Work};
use crate::unwind::{assemble_frame_table, frame_table_addresses, spec_frame_addresses};
use cranelift_codegen::isa::unwind::systemv::UnwindInfo;
use gimli::write::{CommonInformationEntry, FrameTable};
use vstd::pervasive::unreached;
use vstd::prelude::*;

verus! {

/// A compiler that compiles a WebAssembly module with Cranelift.
pub struct CraneliftCompiler {
    config: Cranelift,
}

impl View for CraneliftCompiler {
    type V = Cranelift;

    closed spec fn view(&self) -> Cranelift {
        self.config
    }
}

/// Whether a module with `local_functions` functions gets a frame table.
pub fn unwind_table_applicable(config: &Cranelift, target: &Target, local_functions: u32) -> (applicable:
    bool)
    ensures
        applicable == spec_unwind_table_applicable(*config, *target, local_functions),
        local_functions == 0 ==> !applicable,
{
    config.table_unwind && local_functions > 0 && target.table_unwind()
}

impl CraneliftCompiler {
    /// Creates a new Cranelift compiler.
    pub fn new(config: Cranelift) -> (compiler: Self)
        ensures
            compiler@ == config,
    {
        Self { config }
    }

    /// Gets the configuration of this compiler.
    pub fn config(&self) -> (config: &Cranelift)
        ensures
            *config == self@,
    {
        &self.config
    }

    /// Starts the compilation of `module` for `target`.
    pub fn compile_module(&self, target: &Target, module: ModuleInfo) -> (compilation:
        ModuleCompilation)
        ensures
            compilation.wf(),
            compilation@ == CompilationState::start(self@, *target, module),
    {
        if !module.is_valid() {
            let refused = ModuleCompilation {
                module,
                table_unwind: false,
                functions: Slots::new(0),
                frame_entries: Vec::new(),
                unwind_section: None,
                call_trampolines: Slots::new(0),
                dynamic_trampolines: Slots::new(0),
                failure: Some(ConsistencyError::IndexSpace.at(Origin::Module)),
            };
            proof {
                let start = CompilationState::start(self@, *target, module);
                assert(refused@.functions =~= start.functions);
                assert(refused@.frame_entries =~= start.frame_entries);
                assert(refused@.call_trampolines =~= start.call_trampolines);
                assert(refused@.dynamic_trampolines =~= start.dynamic_trampolines);
            }
            return refused;
        }
        let table_unwind = unwind_table_applicable(&self.config, target, module.local_functions);
        let local_functions: u32 = module.local_functions;
        let signatures: u32 = module.signatures;
        let imported_functions: u32 = module.imported_functions;
        let mut frame_entries: Vec<Option<UnwindInfo>> = Vec::new();
        let mut i: u32 = 0;
        while i < local_functions
            invariant
                i <= local_functions,
                frame_entries@.len() == i,
                forall|j: int| 0 <= j < i ==> (#[trigger] frame_entries@[j]) is None,
            decreases local_functions - i,
        {
            frame_entries.push(None);
            i += 1;
        }
        let compilation = ModuleCompilation {
            module,
            table_unwind,
            functions: Slots::new(local_functions as usize),
            frame_entries,
            unwind_section: None,
            call_trampolines: Slots::new(signatures as usize),
            dynamic_trampolines: Slots::new(imported_functions as usize),
            failure: None,
        };
        proof {
            let start = CompilationState::start(self@, *target, module);
            lemma_start_wf(self@, *target, module);
            assert(compilation@.functions =~= start.functions);
            assert(compilation@.frame_entries =~= start.frame_entries);
            assert(compilation@.call_trampolines =~= start.call_trampolines);
            assert(compilation@.dynamic_trampolines =~= start.dynamic_trampolines);
        }
        compilation
    }
}

/// The content of slots of compiled functions.
pub open spec fn function_views(slots: Seq<Option<CompiledFunction>>) -> Seq<
    Option<CompiledFunctionView>,
> {
    Seq::new(
        slots.len(),
        |i: int|
            match slots[i] {
                Some(function) => Some(function@),
                None => None,
            },
    )
}

/// Slots of compiled functions are empty where their content is.
pub proof fn lemma_function_views(slots: Seq<Option<CompiledFunction>>)
    ensures
        first_empty(function_views(slots)) == first_empty(slots),
        all_filled(function_views(slots)) == all_filled(slots),
        all_filled(slots) ==> dense(function_views(slots)) == Seq::new(
            slots.len(),
            |i: int| dense(slots)[i]@,
        ),
{
    let views = function_views(slots);
    lemma_first_empty(slots);
    lemma_first_empty(views);
    let k = first_empty(slots);
    assert forall|j: int| 0 <= j < k implies (#[trigger] views[j]) is Some by {
        assert(slots[j] is Some);
    }
    assert(is_first_empty(views, k));
    if all_filled(slots) {
        assert(dense(views) =~= Seq::new(slots.len(), |i: int| dense(slots)[i]@));
    }
}

/// One module's compilation in progress.
pub struct ModuleCompilation {
    module: ModuleInfo,
    table_unwind: bool,
    functions: Slots<CompiledFunction>,
    frame_entries: Vec<Option<UnwindInfo>>,
    unwind_section: Option<CustomSection>,
    call_trampolines: Slots<FunctionBody>,
    dynamic_trampolines: Slots<FunctionBody>,
    failure: Option<CompileError>,
}

impl View for ModuleCompilation {
    type V = CompilationState;

    closed spec fn view(&self) -> CompilationState {
        CompilationState {
            module: self.module,
            table_unwind: self.table_unwind,
            functions: function_views(self.functions@),
            frame_entries: self.frame_entries@,
            unwind_section: self.unwind_section,
            call_trampolines: self.call_trampolines@,
            dynamic_trampolines: self.dynamic_trampolines@,
            failure: self.failure,
        }
    }
}

impl ModuleCompilation {
    /// The compilation is in a state that a compilation can be in.
    pub closed spec fn wf(&self) -> bool {
        &&& self.functions.wf()
        &&& self.call_trampolines.wf()
        &&& self.dynamic_trampolines.wf()
        &&& self@.wf()
    }

    /// Whether the compilation has failed.
    pub fn has_failed(&self) -> (failed: bool)
        ensures
            failed == (self@.failure is Some),
    {
        self.failure.is_some()
    }

    /// The first piece of work that is still outstanding.
    pub fn next_work(&self) -> (work: Work)
        requires
            self.wf(),
        ensures
            work == self@.next_work(),
    {
        proof {
            lemma_function_views(self.functions@);
        }
        if self.failure.is_some() {
            Work::Finished
        } else if !self.functions.is_complete() {
            let local: usize = self.functions.first_empty();
            proof {
                lemma_first_empty(self.functions@);
            }
            let function: u32 = self.module.func_index(local as u32);
            Work::Function {
                local: local as u32,
                function,
                signature: self.module.signature_of(function),
            }
        } else if self.table_unwind && self.unwind_section.is_none() {
            Work::UnwindSection
        } else if !self.call_trampolines.is_complete() {
            proof {
                lemma_first_empty(self.call_trampolines@);
            }
            Work::CallTrampoline { signature: self.call_trampolines.first_empty() as u32 }
        } else if !self.dynamic_trampolines.is_complete() {
            proof {
                lemma_first_empty(self.dynamic_trampolines@);
            }
            let function: u32 = self.dynamic_trampolines.first_empty() as u32;
            Work::DynamicTrampoline { function, signature: self.module.signature_of(function) }
        } else {
            Work::Finished
        }
    }

    /// The frame table of the module's functions, for the unwind section.
    pub fn frame_table(&self, cie: &CommonInformationEntry) -> (table: FrameTable)
        requires
            self.wf(),
        ensures
            frame_table_addresses(table) == spec_frame_addresses(self@.frame_entries),
    {
        assemble_frame_table(cie, &self.frame_entries)
    }

    /// Records the failure `error`, which ends the compilation.
    fn fail(&mut self, error: CompileError)
        ensures
            final(self)@ == (CompilationState { failure: Some(error), ..old(self)@ }),
            final(self).functions == old(self).functions,
            final(self).call_trampolines == old(self).call_trampolines,
            final(self).dynamic_trampolines == old(self).dynamic_trampolines,
    {
        self.failure = Some(error);
    }

    /// Takes in the local function `local`.
    fn function_completed(&mut self, local: u32, outcome: Result<MachFunction, BackendError>)
        requires
            old(self).wf(),
            old(self)@.failure is None,
        ensures
            final(self)@ == old(self)@.function_step(local, outcome),
            final(self).functions.wf(),
            final(self).call_trampolines.wf(),
            final(self).dynamic_trampolines.wf(),
    {
        let origin = Origin::Function(local);
        let index: usize = local as usize;
        if index >= self.functions.len() || self.functions.is_filled(index) {
            self.fail(ConsistencyError::UnexpectedCompletion.at(origin));
            return ;
        }
        match outcome {
            Err(error) => {
                self.fail(error.at(origin));
            },
            Ok(function) => match normalize_function(&self.module, self.table_unwind, function) {
                Err(error) => {
                    self.fail(error.at(origin));
                },
                Ok(output) => {
                    let ghost before = self.functions@;
                    let FunctionOutput { compiled, frame_entry } = output;
                    self.functions.put(index, compiled);
                    self.frame_entries.set(index, frame_entry);
                    proof {
                        assert(function_views(self.functions@) =~= function_views(before).update(
                            index as int,
                            Some(compiled@),
                        ));
                    }
                },
            },
        }
    }

    /// Takes in the serialized unwind section.
    fn section_completed(&mut self, section: CustomSection)
        requires
            old(self).wf(),
            old(self)@.failure is None,
        ensures
            final(self)@ == old(self)@.section_step(section),
            final(self).functions.wf(),
            final(self).call_trampolines.wf(),
            final(self).dynamic_trampolines.wf(),
    {
        proof {
            lemma_function_views(self.functions@);
        }
        if !self.table_unwind || !self.functions.is_complete() || self.unwind_section.is_some() {
            self.fail(ConsistencyError::UnexpectedCompletion.at(Origin::Module));
        } else {
            self.unwind_section = Some(section);
        }
    }

    /// Takes in the call trampoline of `signature`.
    fn call_trampoline_completed(&mut self, signature: u32, outcome: Result<FunctionBody, BackendError>)
        requires
            old(self).wf(),
            old(self)@.failure is None,
        ensures
            final(self)@ == old(self)@.call_trampoline_step(signature, outcome),
            final(self).functions.wf(),
            final(self).call_trampolines.wf(),
            final(self).dynamic_trampolines.wf(),
    {
        let origin = Origin::CallTrampoline(signature);
        let index: usize = signature as usize;
        if index >= self.call_trampolines.len() || self.call_trampolines.is_filled(index) {
            self.fail(ConsistencyError::UnexpectedCompletion.at(origin));
            return ;
        }
        match outcome {
            Err(error) => {
                self.fail(error.at(origin));
            },
            Ok(body) => {
                self.call_trampolines.put(index, body);
            },
        }
    }

    /// Takes in the dynamic trampoline of the imported function `function`.
    fn dynamic_trampoline_completed(
        &mut self,
        function: u32,
        outcome: Result<FunctionBody, BackendError>,
    )
        requires
            old(self).wf(),
            old(self)@.failure is None,
        ensures
            final(self)@ == old(self)@.dynamic_trampoline_step(function, outcome),
            final(self).functions.wf(),
            final(self).call_trampolines.wf(),
            final(self).dynamic_trampolines.wf(),
    {
        let origin = Origin::DynamicTrampoline(function);
        let index: usize = function as usize;
        if index >= self.dynamic_trampolines.len() || self.dynamic_trampolines.is_filled(index) {
            self.fail(ConsistencyError::UnexpectedCompletion.at(origin));
            return ;
        }
        match outcome {
            Err(error) => {
                self.fail(error.at(origin));
            },
            Ok(body) => {
                self.dynamic_trampolines.put(index, body);
            },
        }
    }

    /// Takes in a completed piece of work and says what to do next.
    ///
    /// Completions may arrive in any order, except that the unwind section
    /// is due only when every local function has arrived. The first failure
    /// ends the compilation: what arrives after it is discarded.
    pub fn step(&mut self, completion: Completion) -> (work: Work)
        requires
            old(self).wf(),
        ensures
            final(self).wf(),
            final(self)@ == old(self)@.step(completion),
            work == final(self)@.next_work(),
    {
        proof {
            lemma_step_wf(self@, completion);
        }
        if self.failure.is_none() {
            match completion {
                Completion::Function { local, outcome } => {
                    self.function_completed(local, outcome);
                },
                Completion::UnwindSection { section } => {
                    self.section_completed(section);
                },
                Completion::CallTrampoline { signature, trampoline } => {
                    self.call_trampoline_completed(signature, trampoline);
                },
                Completion::DynamicTrampoline { function, trampoline } => {
                    self.dynamic_trampoline_completed(function, trampoline);
                },
            }
        }
        self.next_work()
    }

    /// Ends the compilation: the first failure, or the compiled module once
    /// every piece of work has been completed. There is no partial result.
    pub fn finish(self) -> (result: Result<Compilation, CompileError>)
        requires
            self.wf(),
        ensures
            match result {
                Ok(compilation) => self@.result() == Ok::<_, CompileError>(compilation@),
                Err(error) => self@.result() == Err::<crate::artifacts::CompilationView, _>(error),
            },
    {
        proof {
            lemma_function_views(self.functions@);
        }
        let ModuleCompilation {
            module,
            table_unwind,
            functions,
            frame_entries,
            unwind_section,
            call_trampolines,
            dynamic_trampolines,
            failure,
        } = self;
        if let Some(error) = failure {
            return Err(error);
        }
        if !functions.is_complete() || (table_unwind && unwind_section.is_none())
            || !call_trampolines.is_complete() || !dynamic_trampolines.is_complete() {
            return Err(ConsistencyError::Incomplete.at(Origin::Module));
        }
        let mut custom_sections = CustomSections::new();
        let debug = match unwind_section {
            Some(section) => match custom_sections.push(section) {
                Ok(index) => Some(Dwarf { eh_frame: index }),
                Err(_) => unreached(),
            },
            None => None,
        };
        let compilation = Compilation {
            functions: functions.into_dense(),
            custom_sections,
            function_call_trampolines: call_trampolines.into_dense(),
            dynamic_function_trampolines: dynamic_trampolines.into_dense(),
            debug,
        };
        proof {
            let expected = self@.result()->Ok_0;
            assert(compilation@.functions =~= expected.functions);
            assert(compilation@.custom_sections =~= expected.custom_sections);
        }
        Ok(compilation)
    }
}

} // verus!
