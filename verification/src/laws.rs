//! What holds of every compilation.

use crate::artifacts::{
    relocations_local, CompilationView, CompiledFunctionUnwindInfo, Relocation, RelocationTarget,
    TrapInformation,
};
use crate::backend::{ExternalName, MachFunction, MachReloc, MachTrap};
use crate::error::{BackendError, CompileError, ConsistencyError, ErrorKind, Origin};
use crate::module::{ModuleInfo, Target};
use crate::normalize::{
    spec_function_name, spec_mach_reloc_to_reloc, spec_mach_trap_to_trap, spec_normalize_function,
    spec_normalize_relocs, spec_normalize_traps, spec_relocation_target, spec_translate_ir_trapcode,
    FUNCTION_NAMESPACE,
};
use crate::state::{CompilationState, Completion, Cranelift, Work};
use crate::slots::lemma_first_empty;
use crate::unwind::{spec_frame_addresses, FUNCTION_SYMBOL};
use cranelift_codegen::isa::unwind::systemv::UnwindInfo;
use vstd::prelude::*;

verus! {

/// A relocation to the name of a local function resolves to that function;
/// one to the name of an imported function is refused.
pub proof fn lemma_function_names_resolve(module: ModuleInfo, function: u32)
    requires
        module.valid(),
        function < module.functions@.len(),
    ensures
        function >= module.imported_functions ==> spec_relocation_target(
            module,
            spec_function_name(function),
        ) == Ok::<_, ConsistencyError>(
            RelocationTarget::LocalFunc((function - module.imported_functions) as u32),
        ),
        function < module.imported_functions ==> spec_relocation_target(
            module,
            spec_function_name(function),
        ) == Err::<RelocationTarget, _>(ConsistencyError::RelocationToImport { function }),
{
}

/// A relocation record is normalized exactly when it names a local function
/// of the module or a library routine; the local function it then refers to
/// is one of the module's.
pub proof fn lemma_relocation_is_local(module: ModuleInfo, reloc: MachReloc)
    ensures
        spec_mach_reloc_to_reloc(module, reloc) is Ok <==> (reloc.name is LibCall || (reloc.name matches ExternalName::User {
            namespace,
            index,
        } && namespace == FUNCTION_NAMESPACE && module.imported_functions <= index
            < module.imported_functions + module.local_functions)),
        spec_mach_reloc_to_reloc(module, reloc) matches Ok(relocation) ==> {
            &&& relocation.reloc_target.is_local_to(module.local_functions)
            &&& relocation.kind == reloc.kind
            &&& relocation.offset == reloc.offset
            &&& relocation.addend == reloc.addend
        },
{
}

/// Normalized relocation records correspond one to one to the records of
/// the code generator, and refer to no function outside the module's local
/// functions.
pub proof fn lemma_relocations_are_local(module: ModuleInfo, relocs: Seq<MachReloc>)
    ensures
        spec_normalize_relocs(module, relocs) matches Ok(list) ==> {
            &&& list.len() == relocs.len()
            &&& relocations_local(list, module.local_functions)
            &&& forall|j: int|
                0 <= j < relocs.len() ==> spec_mach_reloc_to_reloc(module, #[trigger] relocs[j]) == Ok::<
                    Relocation,
                    ConsistencyError,
                >(list[j])
        },
    decreases relocs.len(),
{
    if relocs.len() > 0 {
        lemma_relocations_are_local(module, relocs.drop_last());
        lemma_relocation_is_local(module, relocs.last());
        if let Ok(list) = spec_normalize_relocs(module, relocs) {
            let done = spec_normalize_relocs(module, relocs.drop_last())->Ok_0;
            assert forall|j: int| 0 <= j < relocs.len() implies spec_mach_reloc_to_reloc(
                module,
                #[trigger] relocs[j],
            ) == Ok::<Relocation, ConsistencyError>(list[j]) by {
                if j < relocs.len() - 1 {
                    assert(relocs.drop_last()[j] == relocs[j]);
                    assert(list[j] == done[j]);
                }
            }
            assert forall|j: int| 0 <= j < list.len() implies (#[trigger] list[j]).reloc_target.is_local_to(
                module.local_functions,
            ) by {
                if j < relocs.len() - 1 {
                    assert(list[j] == done[j]);
                }
            }
        }
    }
}

/// A trap record has a portable form exactly when its code is neither an
/// interrupt nor user-defined; the portable record then has the same offset.
pub proof fn lemma_trap_kind_closure(trap: MachTrap)
    ensures
        spec_mach_trap_to_trap(trap) is Err <==> (trap.code is Interrupt || trap.code is User),
        spec_mach_trap_to_trap(trap) matches Ok(information) ==> {
            &&& information.code_offset == trap.offset
            &&& Ok::<_, ConsistencyError>(information.trap_code) == spec_translate_ir_trapcode(trap.code)
        },
{
}

/// Normalized trap records correspond one to one to the records of the
/// code generator, each at its offset.
pub proof fn lemma_traps_keep_offsets(traps: Seq<MachTrap>)
    ensures
        spec_normalize_traps(traps) matches Ok(list) ==> {
            &&& list.len() == traps.len()
            &&& forall|j: int|
                0 <= j < traps.len() ==> spec_mach_trap_to_trap(#[trigger] traps[j]) == Ok::<
                    TrapInformation,
                    ConsistencyError,
                >(list[j])
        },
        spec_normalize_traps(traps) is Err <==> exists|j: int|
            0 <= j < traps.len() && ((#[trigger] traps[j]).code is Interrupt || traps[j].code is User),
    decreases traps.len(),
{
    if traps.len() > 0 {
        let front = traps.drop_last();
        lemma_traps_keep_offsets(front);
        lemma_trap_kind_closure(traps.last());
        if let Ok(list) = spec_normalize_traps(traps) {
            let done = spec_normalize_traps(front)->Ok_0;
            assert forall|j: int| 0 <= j < traps.len() implies spec_mach_trap_to_trap(
                #[trigger] traps[j],
            ) == Ok::<TrapInformation, ConsistencyError>(list[j]) by {
                if j < traps.len() - 1 {
                    assert(front[j] == traps[j]);
                    assert(list[j] == done[j]);
                }
            }
            assert forall|j: int| 0 <= j < traps.len() implies !((#[trigger] traps[j]).code is Interrupt
                || traps[j].code is User) by {
                lemma_trap_kind_closure(traps[j]);
            }
        } else {
            if spec_normalize_traps(front) is Err {
                let j = choose|j: int|
                    0 <= j < front.len() && ((#[trigger] front[j]).code is Interrupt || front[j].code is User);
                assert(traps[j] == front[j]);
            } else {
                assert(traps[traps.len() - 1] == traps.last());
            }
        }
    }
}

/// A compilation starts in a well-formed state.
pub proof fn lemma_start_wf(config: Cranelift, target: Target, module: ModuleInfo)
    ensures
        CompilationState::start(config, target, module).wf(),
{
}

/// Every completion leads from a well-formed state to a well-formed state.
pub proof fn lemma_step_wf(state: CompilationState, completion: Completion)
    requires
        state.wf(),
    ensures
        state.step(completion).wf(),
{
    let after = state.step(completion);
    if state.failure is None {
        match completion {
            Completion::Function { local, outcome } => {
                if local < state.functions.len() && state.functions[local as int] is None {
                    if let Ok(function) = outcome {
                        lemma_relocations_are_local(state.module, function.relocs@);
                    }
                }
                assert(after.wf());
            },
            Completion::UnwindSection { section } => {},
            Completion::CallTrampoline { signature, trampoline } => {},
            Completion::DynamicTrampoline { function, trampoline } => {},
        }
    }
}

/// A compiled module has exactly one compiled function for each local
/// function, one call trampoline for each signature and one dynamic
/// trampoline for each imported function.
pub proof fn lemma_density(state: CompilationState)
    requires
        state.wf(),
    ensures
        state.result() matches Ok(compilation) ==> {
            &&& compilation.functions.len() == state.module.local_functions
            &&& compilation.function_call_trampolines.len() == state.module.signatures
            &&& compilation.dynamic_function_trampolines.len() == state.module.imported_functions
        },
{
}

/// A module without local functions gets no frame table, whatever the
/// configuration and the target: its compilation never asks for an unwind
/// section, and its result has no custom section and no pointer to one.
pub proof fn lemma_empty_module_has_no_unwind_section(
    config: Cranelift,
    target: Target,
    module: ModuleInfo,
    state: CompilationState,
)
    requires
        module.local_functions == 0,
        state.wf(),
        state.module == module,
    ensures
        !CompilationState::start(config, target, module).table_unwind,
        !state.table_unwind,
        state.next_work() != Work::UnwindSection,
        state.result() matches Ok(compilation) ==> compilation.custom_sections.len() == 0
            && compilation.debug is None,
{
}

/// The unwind section of a compiled module is its only custom section, and
/// the result points at it exactly when there is one.
pub proof fn lemma_unwind_section_pointer(state: CompilationState)
    requires
        state.wf(),
    ensures
        state.result() matches Ok(compilation) ==> {
            &&& compilation.custom_sections.len() == (if state.table_unwind {
                1nat
            } else {
                0nat
            })
            &&& compilation.debug is Some <==> state.table_unwind
            &&& compilation.debug matches Some(dwarf) ==> dwarf.eh_frame < compilation.custom_sections.len()
                && Some(compilation.custom_sections[dwarf.eh_frame as int]) == state.unwind_section
        },
{
}

/// No relocation of a compiled module refers to a function outside the
/// module's local functions.
pub proof fn lemma_relocation_locality(state: CompilationState)
    requires
        state.wf(),
    ensures
        state.result() matches Ok(compilation) ==> forall|i: int|
            0 <= i < compilation.functions.len() ==> relocations_local(
                (#[trigger] compilation.functions[i]).relocations,
                state.module.local_functions,
            ),
{
    if let Ok(compilation) = state.result() {
        assert forall|i: int| 0 <= i < compilation.functions.len() implies relocations_local(
            (#[trigger] compilation.functions[i]).relocations,
            state.module.local_functions,
        ) by {
            assert(state.functions[i] is Some);
        }
    }
}

/// A relocation record that cannot be normalized makes the normalization of
/// all the records fail.
pub proof fn lemma_bad_relocation_fails(module: ModuleInfo, relocs: Seq<MachReloc>, j: int)
    requires
        0 <= j < relocs.len(),
        spec_mach_reloc_to_reloc(module, relocs[j]) is Err,
    ensures
        spec_normalize_relocs(module, relocs) is Err,
{
    lemma_relocations_are_local(module, relocs);
}

/// A function whose machine code refers to a function outside the module's
/// local functions fails the compilation with an internal-consistency
/// error that names the function.
pub proof fn lemma_foreign_relocation_fails(
    state: CompilationState,
    local: u32,
    function: MachFunction,
    j: int,
)
    requires
        state.wf(),
        state.failure is None,
        local < state.module.local_functions,
        state.functions[local as int] is None,
        0 <= j < function.relocs@.len(),
        function.relocs@[j].name matches ExternalName::User { namespace, index }
            && !(state.module.imported_functions <= index < state.module.imported_functions
            + state.module.local_functions),
    ensures
        state.step(Completion::Function { local, outcome: Ok(function) }).failure matches Some(error)
            && error.origin == Origin::Function(local)
            && error.kind is InternalConsistency,
        state.step(Completion::Function { local, outcome: Ok(function) }).result() is Err,
{
    lemma_bad_relocation_fails(state.module, function.relocs@, j);
}

/// A function with a trap that has no portable kind fails the compilation
/// with an internal-consistency error that names the function, unless one
/// of its relocations has failed it already.
pub proof fn lemma_unsupported_trap_fails(
    state: CompilationState,
    local: u32,
    function: MachFunction,
    j: int,
)
    requires
        state.wf(),
        state.failure is None,
        local < state.module.local_functions,
        state.functions[local as int] is None,
        0 <= j < function.traps@.len(),
        function.traps@[j].code is Interrupt || function.traps@[j].code is User,
    ensures
        state.step(Completion::Function { local, outcome: Ok(function) }).failure matches Some(error)
            && error.origin == Origin::Function(local)
            && error.kind is InternalConsistency,
{
    lemma_traps_keep_offsets(function.traps@);
}

/// The work that a compilation hands out names functions, signatures and
/// imports of the module.
pub proof fn lemma_work_is_in_range(state: CompilationState)
    requires
        state.wf(),
    ensures
        match state.next_work() {
            Work::Function { local, function, signature } => {
                &&& local < state.module.local_functions
                &&& function == state.module.imported_functions + local
                &&& signature == state.module.functions@[function as int]
                &&& signature < state.module.signatures
            },
            Work::UnwindSection => state.table_unwind && state.module.local_functions > 0,
            Work::CallTrampoline { signature } => signature < state.module.signatures,
            Work::DynamicTrampoline { function, signature } => {
                &&& function < state.module.imported_functions
                &&& signature == state.module.functions@[function as int]
                &&& signature < state.module.signatures
            },
            Work::Finished => state.failure is Some || state.complete(),
        },
{
    lemma_first_empty(state.functions);
    lemma_first_empty(state.call_trampolines);
    lemma_first_empty(state.dynamic_trampolines);
}

/// The violation is one of a relocation or trap record.
pub open spec fn of_a_record(error: ConsistencyError) -> bool {
    ||| error is RelocationToImport
    ||| error is RelocationOutOfRange
    ||| error is RelocationNamespace
    ||| error is RelocationName
    ||| error is TrapInterrupt
    ||| error is TrapUser
}

/// Normalization fails only for a relocation record without target or a
/// trap record without portable kind.
pub proof fn lemma_normalization_errors(module: ModuleInfo, table_unwind: bool, function: MachFunction)
    ensures
        spec_normalize_function(module, table_unwind, function) matches Err(error) ==> of_a_record(
            error,
        ),
{
    lemma_relocs_errors(module, function.relocs@);
    lemma_traps_errors(function.traps@);
}

proof fn lemma_relocs_errors(module: ModuleInfo, relocs: Seq<MachReloc>)
    ensures
        spec_normalize_relocs(module, relocs) matches Err(error) ==> of_a_record(error),
    decreases relocs.len(),
{
    if relocs.len() > 0 {
        lemma_relocs_errors(module, relocs.drop_last());
    }
}

proof fn lemma_traps_errors(traps: Seq<MachTrap>)
    ensures
        spec_normalize_traps(traps) matches Err(error) ==> of_a_record(error),
    decreases traps.len(),
{
    if traps.len() > 0 {
        lemma_traps_errors(traps.drop_last());
    }
}

/// The work that a compilation hands out is due: its completion is never
/// refused as unexpected, and where it is taken in, the work is done.
pub proof fn lemma_work_is_due(state: CompilationState, completion: Completion)
    requires
        state.wf(),
        state.next_work().done_by(completion),
    ensures
        state.step(completion).failure matches Some(error) ==> error.kind
            != ErrorKind::InternalConsistency(ConsistencyError::UnexpectedCompletion),
        state.step(completion).failure is None ==> !state.step(completion).next_work().done_by(
            completion,
        ),
{
    lemma_work_is_in_range(state);
    lemma_first_empty(state.functions);
    lemma_first_empty(state.call_trampolines);
    lemma_first_empty(state.dynamic_trampolines);
    if let Completion::Function { local, outcome: Ok(function) } = completion {
        lemma_normalization_errors(state.module, state.table_unwind, function);
    }
    let after = state.step(completion);
    lemma_step_wf(state, completion);
    lemma_first_empty(after.functions);
    lemma_first_empty(after.call_trampolines);
    lemma_first_empty(after.dynamic_trampolines);
}

/// The first failure is final: every later completion is discarded, no
/// work is handed out any more, and the result is that failure.
pub proof fn lemma_failure_is_final(state: CompilationState, completion: Completion)
    requires
        state.failure is Some,
    ensures
        state.step(completion) == state,
        state.next_work() == Work::Finished,
        state.result() == Err::<CompilationView, CompileError>(state.failure->0),
{
}

/// A failure that the code generator reports for a piece of work that is
/// outstanding becomes the failure of the compilation, with the work it
/// belongs to.
pub proof fn lemma_backend_failure_is_reported(
    state: CompilationState,
    local: u32,
    error: BackendError,
)
    requires
        state.wf(),
        state.failure is None,
        local < state.module.local_functions,
        state.functions[local as int] is None,
    ensures
        state.step(Completion::Function { local, outcome: Err(error) }).result() == Err::<
            CompilationView,
            CompileError,
        >(CompileError { origin: Origin::Function(local), kind: error.kind() }),
{
}

/// There is a result only when nothing has failed and every artifact has
/// arrived; it then holds, for every index, exactly the artifact that
/// arrived for that index.
pub proof fn lemma_result_by_index(state: CompilationState)
    requires
        state.wf(),
    ensures
        state.result() is Ok <==> state.failure is None && state.complete(),
        state.result() matches Ok(compilation) ==> {
            &&& forall|i: int|
                0 <= i < state.module.local_functions ==> state.functions[i] == Some(
                    #[trigger] compilation.functions[i],
                )
            &&& forall|i: int|
                0 <= i < state.module.signatures ==> state.call_trampolines[i] == Some(
                    #[trigger] compilation.function_call_trampolines[i],
                )
            &&& forall|i: int|
                0 <= i < state.module.imported_functions ==> state.dynamic_trampolines[i] == Some(
                    #[trigger] compilation.dynamic_function_trampolines[i],
                )
        },
{
    if let Ok(compilation) = state.result() {
        assert forall|i: int| 0 <= i < state.module.local_functions implies state.functions[i]
            == Some(#[trigger] compilation.functions[i]) by {
            assert(state.functions[i] is Some);
        }
        assert forall|i: int| 0 <= i < state.module.signatures implies state.call_trampolines[i]
            == Some(#[trigger] compilation.function_call_trampolines[i]) by {
            assert(state.call_trampolines[i] is Some);
        }
        assert forall|i: int|
            0 <= i < state.module.imported_functions implies state.dynamic_trampolines[i] == Some(
            #[trigger] compilation.dynamic_function_trampolines[i],
        ) by {
            assert(state.dynamic_trampolines[i] is Some);
        }
    }
}

/// The order in which two workers complete does not show: where two
/// completions of functions or trampolines are both taken in, the state
/// after them is the same whichever came first.
pub proof fn lemma_completion_order(state: CompilationState, first: Completion, second: Completion)
    requires
        state.wf(),
        !(first is UnwindSection),
        !(second is UnwindSection),
        state.step(first).step(second).failure is None,
    ensures
        state.step(second).step(first) == state.step(first).step(second),
{
    let a = state.step(first).step(second);
    let b = state.step(second).step(first);
    assert(state.failure is None);
    assert(state.step(first).failure is None);
    assert(a.functions =~= b.functions);
    assert(a.frame_entries =~= b.frame_entries);
    assert(a.call_trampolines =~= b.call_trampolines);
    assert(a.dynamic_trampolines =~= b.dynamic_trampolines);
}

/// Completions that arrive one after the other have the effect of those
/// that arrive first, then those that arrive after them.
pub proof fn lemma_run_concat(state: CompilationState, first: Seq<Completion>, then: Seq<Completion>)
    ensures
        state.run(first + then) == state.run(first).run(then),
    decreases then.len(),
{
    if then.len() == 0 {
        assert(first + then =~= first);
    } else {
        assert((first + then).drop_last() =~= first + then.drop_last());
        assert((first + then).last() == then.last());
        lemma_run_concat(state, first, then.drop_last());
    }
}

/// Completions lead from a well-formed state to a well-formed state, and
/// never out of a failure.
pub proof fn lemma_run_wf(state: CompilationState, completions: Seq<Completion>)
    requires
        state.wf(),
    ensures
        state.run(completions).wf(),
        state.failure is Some ==> state.run(completions) == state,
    decreases completions.len(),
{
    if completions.len() > 0 {
        lemma_run_wf(state, completions.drop_last());
        lemma_step_wf(state.run(completions.drop_last()), completions.last());
    }
}

/// `order` names positions below `n`, each at most once.
pub open spec fn is_reordering(order: Seq<int>, n: nat) -> bool {
    &&& order.len() == n
    &&& forall|k: int| 0 <= k < n ==> 0 <= #[trigger] order[k] < n
    &&& forall|j: int, k: int| 0 <= j < k < n ==> #[trigger] order[j] != #[trigger] order[k]
}

/// The completions in the order in which `order` names their positions.
pub open spec fn reordered(completions: Seq<Completion>, order: Seq<int>) -> Seq<Completion> {
    Seq::new(order.len(), |k: int| completions[order[k]])
}

/// None of the completions is that of the unwind section.
pub open spec fn from_workers(completions: Seq<Completion>) -> bool {
    forall|k: int| 0 <= k < completions.len() ==> !((#[trigger] completions[k]) is UnwindSection)
}

/// One more completion at the end is one more step.
pub proof fn lemma_run_push(state: CompilationState, completions: Seq<Completion>, last: Completion)
    ensures
        state.run(completions.push(last)) == state.run(completions).step(last),
{
    assert(completions.push(last).drop_last() =~= completions);
}

/// Where all the completions are taken in, two neighbours among them may
/// change places.
proof fn lemma_swap_neighbours(state: CompilationState, completions: Seq<Completion>, p: int)
    requires
        state.wf(),
        from_workers(completions),
        0 <= p < completions.len() - 1,
        state.run(completions).failure is None,
    ensures
        state.run(completions.update(p, completions[p + 1]).update(p + 1, completions[p]))
            == state.run(completions),
{
    let x = completions[p];
    let y = completions[p + 1];
    let swapped = completions.update(p, y).update(p + 1, x);
    let front = completions.take(p);
    let back = completions.skip(p + 2);
    let before = state.run(front);
    assert(completions =~= front.push(x).push(y) + back);
    assert(swapped =~= front.push(y).push(x) + back);
    lemma_run_push(state, front, x);
    lemma_run_push(state, front.push(x), y);
    lemma_run_push(state, front, y);
    lemma_run_push(state, front.push(y), x);
    lemma_run_concat(state, front.push(x).push(y), back);
    lemma_run_concat(state, front.push(y).push(x), back);
    lemma_run_wf(state, front);
    lemma_run_wf(state, front.push(x).push(y));
    lemma_run_wf(before.step(x).step(y), back);
    assert(before.step(x).step(y).failure is None);
    lemma_completion_order(before, x, y);
}

/// Where all the completions are taken in, the one at position `p` may as
/// well arrive last.
proof fn lemma_move_to_end(state: CompilationState, completions: Seq<Completion>, p: int)
    requires
        state.wf(),
        from_workers(completions),
        0 <= p < completions.len(),
        state.run(completions).failure is None,
    ensures
        state.run(completions) == state.run(completions.remove(p)).step(completions[p]),
    decreases completions.len() - p,
{
    if p == completions.len() - 1 {
        assert(completions.remove(p) =~= completions.drop_last());
    } else {
        let swapped = completions.update(p, completions[p + 1]).update(p + 1, completions[p]);
        lemma_swap_neighbours(state, completions, p);
        assert(from_workers(swapped));
        lemma_move_to_end(state, swapped, p + 1);
        assert(swapped.remove(p + 1) =~= completions.remove(p));
    }
}

/// An order of `n` positions without its last, as an order of the `n - 1`
/// positions that are left when the position it names last is removed.
pub open spec fn rest_of(order: Seq<int>) -> Seq<int> {
    Seq::new(
        (order.len() - 1) as nat,
        |k: int|
            if order[k] < order.last() {
                order[k]
            } else {
                order[k] - 1
            },
    )
}

/// The rest of an order is an order, and names the same completions.
proof fn lemma_rest_of(completions: Seq<Completion>, order: Seq<int>)
    requires
        completions.len() > 0,
        is_reordering(order, completions.len()),
    ensures
        is_reordering(rest_of(order), (completions.len() - 1) as nat),
        reordered(completions.remove(order.last()), rest_of(order)) == reordered(
            completions,
            order,
        ).drop_last(),
        reordered(completions, order).last() == completions[order.last()],
{
    let n = completions.len() as int;
    let p = order.last();
    let rest = rest_of(order);
    assert(p == order[n - 1]);
    assert forall|k: int| 0 <= k < n - 1 implies 0 <= #[trigger] rest[k] < n - 1 by {
        assert(order[k] != order[n - 1]);
    }
    assert forall|j: int, k: int| 0 <= j < k < n - 1 implies #[trigger] rest[j] != #[trigger] rest[k] by {
        assert(order[j] != order[k]);
        assert(order[j] != order[n - 1]);
        assert(order[k] != order[n - 1]);
    }
    assert forall|k: int| 0 <= k < n - 1 implies reordered(completions.remove(p), rest)[k]
        == reordered(completions, order)[k] by {
        assert(order[k] != order[n - 1]);
    }
    assert(reordered(completions.remove(p), rest) =~= reordered(completions, order).drop_last());
}

/// The order in which the workers complete does not show in the result:
/// where a compilation takes in all the completions of its functions and
/// trampolines, it ends in the same state for every order of their arrival.
pub proof fn lemma_index_stability(state: CompilationState, completions: Seq<Completion>, order: Seq<int>)
    requires
        state.wf(),
        from_workers(completions),
        is_reordering(order, completions.len()),
        state.run(completions).failure is None,
    ensures
        state.run(reordered(completions, order)) == state.run(completions),
        state.run(reordered(completions, order)).result() == state.run(completions).result(),
    decreases completions.len(),
{
    let other = reordered(completions, order);
    if completions.len() > 0 {
        let p = order.last();
        let rest = completions.remove(p);
        lemma_move_to_end(state, completions, p);
        lemma_rest_of(completions, order);
        assert(from_workers(rest));
        lemma_run_wf(state, rest);
        lemma_index_stability(state, rest, rest_of(order));
    } else {
        assert(other =~= completions);
    }
}

/// What arrives after the workers' completions, such as the unwind section,
/// meets the same state whatever the order of their arrival was.
pub proof fn lemma_index_stability_then(
    state: CompilationState,
    completions: Seq<Completion>,
    order: Seq<int>,
    then: Seq<Completion>,
)
    requires
        state.wf(),
        from_workers(completions),
        is_reordering(order, completions.len()),
        state.run(completions).failure is None,
    ensures
        state.run(reordered(completions, order) + then) == state.run(completions + then),
{
    lemma_index_stability(state, completions, order);
    lemma_run_concat(state, reordered(completions, order), then);
    lemma_run_concat(state, completions, then);
}

/// The frame table has an entry for exactly the functions with table-based
/// unwind information, each addressed by the function symbol and the
/// function's local index, in index order.
pub proof fn lemma_frame_addresses(entries: Seq<Option<UnwindInfo>>)
    requires
        entries.len() <= u32::MAX,
    ensures
        forall|j: int|
            0 <= j < spec_frame_addresses(entries).len() ==> {
                let address = #[trigger] spec_frame_addresses(entries)[j];
                &&& address.0 == FUNCTION_SYMBOL
                &&& 0 <= address.1 < entries.len()
                &&& entries[address.1 as int] is Some
            },
        forall|j: int, k: int|
            0 <= j < k < spec_frame_addresses(entries).len() ==> (#[trigger] spec_frame_addresses(
                entries,
            )[j]).1 < (#[trigger] spec_frame_addresses(entries)[k]).1,
        forall|i: int|
            0 <= i < entries.len() && (#[trigger] entries[i]) is Some ==> spec_frame_addresses(
                entries,
            ).contains((FUNCTION_SYMBOL, i as i64)),
    decreases entries.len(),
{
    if entries.len() > 0 {
        let front = entries.drop_last();
        let addresses = spec_frame_addresses(entries);
        let before = spec_frame_addresses(front);
        lemma_frame_addresses(front);
        assert forall|j: int| 0 <= j < addresses.len() implies {
            let address = #[trigger] addresses[j];
            &&& address.0 == FUNCTION_SYMBOL
            &&& 0 <= address.1 < entries.len()
            &&& entries[address.1 as int] is Some
        } by {
            if j < before.len() {
                assert(addresses[j] == before[j]);
                assert(front[before[j].1 as int] == entries[before[j].1 as int]);
            }
        }
        assert forall|j: int, k: int| 0 <= j < k < addresses.len() implies (#[trigger] addresses[j]).1 < (
        #[trigger] addresses[k]).1 by {
            assert(addresses[j] == before[j]);
            if k < before.len() {
                assert(addresses[k] == before[k]);
            }
        }
        assert forall|i: int| 0 <= i < entries.len() && (#[trigger] entries[i]) is Some implies addresses.contains(
            (FUNCTION_SYMBOL, i as i64),
        ) by {
            if i < front.len() {
                assert(front[i] is Some);
                let j = choose|j: int| 0 <= j < before.len() && before[j] == (FUNCTION_SYMBOL, i as i64);
                assert(addresses[j] == before[j]);
            } else {
                assert(addresses[addresses.len() - 1] == (FUNCTION_SYMBOL, i as i64));
            }
        }
    }
}

/// A compiled function says that its unwind information is in the frame
/// table exactly when the frame table has an entry for it.
pub proof fn lemma_frame_table_matches_functions(state: CompilationState, local: int)
    requires
        state.wf(),
        0 <= local < state.functions.len(),
        state.functions[local] is Some,
    ensures
        state.functions[local]->0.body.unwind_info == Some(CompiledFunctionUnwindInfo::Dwarf)
            <==> spec_frame_addresses(state.frame_entries).contains((FUNCTION_SYMBOL, local as i64)),
        !state.table_unwind ==> spec_frame_addresses(state.frame_entries).len() == 0,
{
    let addresses = spec_frame_addresses(state.frame_entries);
    lemma_frame_addresses(state.frame_entries);
    if addresses.contains((FUNCTION_SYMBOL, local as i64)) {
        let j = choose|j: int| 0 <= j < addresses.len() && addresses[j] == (FUNCTION_SYMBOL, local as i64);
        assert(state.frame_entries[addresses[j].1 as int] is Some);
    }
    if !state.table_unwind && addresses.len() > 0 {
        assert(state.frame_entries[addresses[0].1 as int] is Some);
    }
}

} // verus!
