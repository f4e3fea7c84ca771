//! Maps what the code generator emits to the portable representation.

use crate::artifacts::{
    relocations_local, CompiledFunction, CompiledFunctionFrameInfo, CompiledFunctionUnwindInfo,
    CompiledFunctionView, FunctionBody, Relocation, RelocationTarget, TrapCode, TrapInformation,
};
use crate::backend::{CraneliftUnwindInfo, ExternalName, IrTrapCode, MachFunction, MachReloc, MachTrap};
use crate::error::ConsistencyError;
use crate::module::ModuleInfo;
use cranelift_codegen::isa::unwind::systemv::UnwindInfo;
use vstd::prelude::*;

verus! {

/// The namespace in which the module's functions are named for the code
/// generator: function `f` is the user symbol `(FUNCTION_NAMESPACE, f)`.
pub const FUNCTION_NAMESPACE: u32 = 0;

/// The name under which the code generator knows function `function` of
/// the module.
pub open spec fn spec_function_name(function: u32) -> ExternalName {
    ExternalName::User { namespace: FUNCTION_NAMESPACE, index: function }
}

/// Names function `function` of the module for the code generator.
pub fn get_function_name(function: u32) -> (name: ExternalName)
    ensures
        name == spec_function_name(function),
{
    ExternalName::User { namespace: FUNCTION_NAMESPACE, index: function }
}

/// The portable kind of a trap code of the code generator. Interrupts and
/// user-defined codes have none.
pub open spec fn spec_translate_ir_trapcode(trap: IrTrapCode) -> Result<TrapCode, ConsistencyError> {
    match trap {
        IrTrapCode::StackOverflow => Ok(TrapCode::StackOverflow),
        IrTrapCode::HeapOutOfBounds => Ok(TrapCode::HeapAccessOutOfBounds),
        IrTrapCode::HeapMisaligned => Ok(TrapCode::HeapMisaligned),
        IrTrapCode::TableOutOfBounds => Ok(TrapCode::TableAccessOutOfBounds),
        IrTrapCode::IndirectCallToNull => Ok(TrapCode::IndirectCallToNull),
        IrTrapCode::BadSignature => Ok(TrapCode::BadSignature),
        IrTrapCode::IntegerOverflow => Ok(TrapCode::IntegerOverflow),
        IrTrapCode::IntegerDivisionByZero => Ok(TrapCode::IntegerDivisionByZero),
        IrTrapCode::BadConversionToInteger => Ok(TrapCode::BadConversionToInteger),
        IrTrapCode::UnreachableCodeReached => Ok(TrapCode::UnreachableCodeReached),
        IrTrapCode::Interrupt => Err(ConsistencyError::TrapInterrupt),
        IrTrapCode::User(code) => Err(ConsistencyError::TrapUser { code }),
    }
}

/// Translates a trap code of the code generator into the portable trap code.
pub fn translate_ir_trapcode(trap: IrTrapCode) -> (code: Result<TrapCode, ConsistencyError>)
    ensures
        code == spec_translate_ir_trapcode(trap),
{
    match trap {
        IrTrapCode::StackOverflow => Ok(TrapCode::StackOverflow),
        IrTrapCode::HeapOutOfBounds => Ok(TrapCode::HeapAccessOutOfBounds),
        IrTrapCode::HeapMisaligned => Ok(TrapCode::HeapMisaligned),
        IrTrapCode::TableOutOfBounds => Ok(TrapCode::TableAccessOutOfBounds),
        IrTrapCode::IndirectCallToNull => Ok(TrapCode::IndirectCallToNull),
        IrTrapCode::BadSignature => Ok(TrapCode::BadSignature),
        IrTrapCode::IntegerOverflow => Ok(TrapCode::IntegerOverflow),
        IrTrapCode::IntegerDivisionByZero => Ok(TrapCode::IntegerDivisionByZero),
        IrTrapCode::BadConversionToInteger => Ok(TrapCode::BadConversionToInteger),
        IrTrapCode::UnreachableCodeReached => Ok(TrapCode::UnreachableCodeReached),
        IrTrapCode::Interrupt => Err(ConsistencyError::TrapInterrupt),
        IrTrapCode::User(code) => Err(ConsistencyError::TrapUser { code }),
    }
}

/// The portable record of a trap record of the code generator: the same
/// offset, with the portable kind of its code.
pub open spec fn spec_mach_trap_to_trap(trap: MachTrap) -> Result<TrapInformation, ConsistencyError> {
    match spec_translate_ir_trapcode(trap.code) {
        Ok(trap_code) => Ok(TrapInformation { code_offset: trap.offset, trap_code }),
        Err(error) => Err(error),
    }
}

/// Normalizes one trap record.
pub fn mach_trap_to_trap(trap: &MachTrap) -> (information: Result<TrapInformation, ConsistencyError>)
    ensures
        information == spec_mach_trap_to_trap(*trap),
{
    match translate_ir_trapcode(trap.code) {
        Ok(trap_code) => Ok(TrapInformation { code_offset: trap.offset, trap_code }),
        Err(error) => Err(error),
    }
}

/// What a symbol of the code generator refers to in `module`.
///
/// A user symbol in the function namespace is the local function it names;
/// it is an error for it to name an import or no function at all. A library
/// routine is itself. Nothing else is a relocation target.
pub open spec fn spec_relocation_target(module: ModuleInfo, name: ExternalName) -> Result<
    RelocationTarget,
    ConsistencyError,
> {
    match name {
        ExternalName::User { namespace, index } => {
            if namespace != FUNCTION_NAMESPACE {
                Err(ConsistencyError::RelocationNamespace { namespace })
            } else if index < module.imported_functions {
                Err(ConsistencyError::RelocationToImport { function: index })
            } else if index - module.imported_functions >= module.local_functions {
                Err(ConsistencyError::RelocationOutOfRange { function: index })
            } else {
                Ok(RelocationTarget::LocalFunc((index - module.imported_functions) as u32))
            }
        },
        ExternalName::LibCall(libcall) => Ok(RelocationTarget::LibCall(libcall)),
        ExternalName::Other => Err(ConsistencyError::RelocationName),
    }
}

/// The portable record of a relocation record of the code generator: the
/// same kind, offset and addend, with the target resolved in `module`.
pub open spec fn spec_mach_reloc_to_reloc(module: ModuleInfo, reloc: MachReloc) -> Result<
    Relocation,
    ConsistencyError,
> {
    match spec_relocation_target(module, reloc.name) {
        Ok(reloc_target) => Ok(
            Relocation { kind: reloc.kind, reloc_target, offset: reloc.offset, addend: reloc.addend },
        ),
        Err(error) => Err(error),
    }
}

/// Normalizes one relocation record.
pub fn mach_reloc_to_reloc(module: &ModuleInfo, reloc: &MachReloc) -> (relocation: Result<
    Relocation,
    ConsistencyError,
>)
    ensures
        relocation == spec_mach_reloc_to_reloc(*module, *reloc),
        relocation matches Ok(r) ==> r.reloc_target.is_local_to(module.local_functions),
{
    let reloc_target = match reloc.name {
        ExternalName::User { namespace, index } => {
            if namespace != FUNCTION_NAMESPACE {
                return Err(ConsistencyError::RelocationNamespace { namespace });
            }
            match module.local_func_index(index) {
                None => {
                    return Err(ConsistencyError::RelocationToImport { function: index });
                },
                Some(local) => {
                    if local >= module.local_functions {
                        return Err(ConsistencyError::RelocationOutOfRange { function: index });
                    }
                    RelocationTarget::LocalFunc(local)
                },
            }
        },
        ExternalName::LibCall(libcall) => RelocationTarget::LibCall(libcall),
        ExternalName::Other => {
            return Err(ConsistencyError::RelocationName);
        },
    };
    Ok(Relocation { kind: reloc.kind, reloc_target, offset: reloc.offset, addend: reloc.addend })
}

/// The portable records of a function's relocation records, in the same
/// order; the error of the first record that has none.
pub open spec fn spec_normalize_relocs(module: ModuleInfo, relocs: Seq<MachReloc>) -> Result<
    Seq<Relocation>,
    ConsistencyError,
>
    decreases relocs.len(),
{
    if relocs.len() == 0 {
        Ok(Seq::empty())
    } else {
        match spec_normalize_relocs(module, relocs.drop_last()) {
            Err(error) => Err(error),
            Ok(done) => match spec_mach_reloc_to_reloc(module, relocs.last()) {
                Ok(relocation) => Ok(done.push(relocation)),
                Err(error) => Err(error),
            },
        }
    }
}

/// The portable records of a function's trap records, in the same order;
/// the error of the first record that has none.
pub open spec fn spec_normalize_traps(traps: Seq<MachTrap>) -> Result<
    Seq<TrapInformation>,
    ConsistencyError,
>
    decreases traps.len(),
{
    if traps.len() == 0 {
        Ok(Seq::empty())
    } else {
        match spec_normalize_traps(traps.drop_last()) {
            Err(error) => Err(error),
            Ok(done) => match spec_mach_trap_to_trap(traps.last()) {
                Ok(information) => Ok(done.push(information)),
                Err(error) => Err(error),
            },
        }
    }
}

/// Normalizes the relocation records of one function.
pub fn normalize_relocs(module: &ModuleInfo, relocs: &Vec<MachReloc>) -> (relocations: Result<
    Vec<Relocation>,
    ConsistencyError,
>)
    ensures
        match relocations {
            Ok(list) => spec_normalize_relocs(*module, relocs@) == Ok::<_, ConsistencyError>(list@),
            Err(error) => spec_normalize_relocs(*module, relocs@) == Err::<Seq<Relocation>, _>(
                error,
            ),
        },
        relocations matches Ok(list) ==> relocations_local(list@, module.local_functions),
{
    let mut list: Vec<Relocation> = Vec::new();
    let mut i: usize = 0;
    while i < relocs.len()
        invariant
            i <= relocs.len(),
            spec_normalize_relocs(*module, relocs@.take(i as int)) == Ok::<_, ConsistencyError>(
                list@,
            ),
            relocations_local(list@, module.local_functions),
        decreases relocs.len() - i,
    {
        proof {
            assert(relocs@.take(i + 1).drop_last() == relocs@.take(i as int));
            assert(relocs@.take(i + 1).last() == relocs@[i as int]);
        }
        match mach_reloc_to_reloc(module, &relocs[i]) {
            Ok(relocation) => {
                list.push(relocation);
            },
            Err(error) => {
                proof {
                    lemma_relocs_error_persists(*module, relocs@, i + 1);
                }
                return Err(error);
            },
        }
        i += 1;
    }
    proof {
        assert(relocs@.take(i as int) == relocs@);
    }
    Ok(list)
}

/// Normalizes the trap records of one function.
pub fn normalize_traps(traps: &Vec<MachTrap>) -> (informations: Result<
    Vec<TrapInformation>,
    ConsistencyError,
>)
    ensures
        match informations {
            Ok(list) => spec_normalize_traps(traps@) == Ok::<_, ConsistencyError>(list@),
            Err(error) => spec_normalize_traps(traps@) == Err::<Seq<TrapInformation>, _>(error),
        },
{
    let mut list: Vec<TrapInformation> = Vec::new();
    let mut i: usize = 0;
    while i < traps.len()
        invariant
            i <= traps.len(),
            spec_normalize_traps(traps@.take(i as int)) == Ok::<_, ConsistencyError>(list@),
        decreases traps.len() - i,
    {
        proof {
            assert(traps@.take(i + 1).drop_last() == traps@.take(i as int));
            assert(traps@.take(i + 1).last() == traps@[i as int]);
        }
        match mach_trap_to_trap(&traps[i]) {
            Ok(information) => {
                list.push(information);
            },
            Err(error) => {
                proof {
                    lemma_traps_error_persists(traps@, i + 1);
                }
                return Err(error);
            },
        }
        i += 1;
    }
    proof {
        assert(traps@.take(i as int) == traps@);
    }
    Ok(list)
}

/// Once a prefix of the relocation records has failed, every longer prefix
/// fails with the same error.
pub proof fn lemma_relocs_error_persists(module: ModuleInfo, relocs: Seq<MachReloc>, n: int)
    requires
        0 <= n <= relocs.len(),
        spec_normalize_relocs(module, relocs.take(n)) is Err,
    ensures
        spec_normalize_relocs(module, relocs) == spec_normalize_relocs(module, relocs.take(n)),
    decreases relocs.len() - n,
{
    if n == relocs.len() {
        assert(relocs.take(n) == relocs);
    } else {
        assert(relocs.take(n + 1).drop_last() == relocs.take(n));
        lemma_relocs_error_persists(module, relocs, n + 1);
    }
}

/// Once a prefix of the trap records has failed, every longer prefix fails
/// with the same error.
pub proof fn lemma_traps_error_persists(traps: Seq<MachTrap>, n: int)
    requires
        0 <= n <= traps.len(),
        spec_normalize_traps(traps.take(n)) is Err,
    ensures
        spec_normalize_traps(traps) == spec_normalize_traps(traps.take(n)),
    decreases traps.len() - n,
{
    if n == traps.len() {
        assert(traps.take(n) == traps);
    } else {
        assert(traps.take(n + 1).drop_last() == traps.take(n));
        lemma_traps_error_persists(traps, n + 1);
    }
}

/// One local function after normalization: the compiled function, and the
/// table-based unwind information that becomes its frame table entry.
#[derive(Debug, PartialEq, Eq)]
pub struct FunctionOutput {
    pub compiled: CompiledFunction,
    pub frame_entry: Option<UnwindInfo>,
}

/// The mathematical content of a [`FunctionOutput`].
pub struct FunctionOutputView {
    pub compiled: CompiledFunctionView,
    pub frame_entry: Option<UnwindInfo>,
}

impl View for FunctionOutput {
    type V = FunctionOutputView;

    open spec fn view(&self) -> FunctionOutputView {
        FunctionOutputView { compiled: self.compiled@, frame_entry: self.frame_entry }
    }
}

/// The unwind information that a compiled function carries: self-contained
/// data as it is, "in the frame table" for table-based information if the
/// module has a frame table, and nothing otherwise.
pub open spec fn spec_unwind_info(unwind: CraneliftUnwindInfo, table_unwind: bool) -> Option<
    CompiledFunctionUnwindInfo,
> {
    match unwind {
        CraneliftUnwindInfo::WindowsX64(data) => Some(CompiledFunctionUnwindInfo::WindowsX64(data)),
        CraneliftUnwindInfo::Fde(_) => if table_unwind {
            Some(CompiledFunctionUnwindInfo::Dwarf)
        } else {
            None
        },
        CraneliftUnwindInfo::Absent => None,
    }
}

/// The table-based unwind information that goes to the module's frame table.
pub open spec fn spec_frame_entry(unwind: CraneliftUnwindInfo, table_unwind: bool) -> Option<
    UnwindInfo,
> {
    match unwind {
        CraneliftUnwindInfo::Fde(info) => if table_unwind {
            Some(info)
        } else {
            None
        },
        _ => None,
    }
}

/// Normalizes the unwind information of one function.
pub fn normalize_unwind(unwind: CraneliftUnwindInfo, table_unwind: bool) -> (normalized: (
    Option<CompiledFunctionUnwindInfo>,
    Option<UnwindInfo>,
))
    ensures
        normalized.0 == spec_unwind_info(unwind, table_unwind),
        normalized.1 == spec_frame_entry(unwind, table_unwind),
{
    match unwind {
        CraneliftUnwindInfo::WindowsX64(data) => (
            Some(CompiledFunctionUnwindInfo::WindowsX64(data)),
            None,
        ),
        CraneliftUnwindInfo::Fde(info) => {
            if table_unwind {
                (Some(CompiledFunctionUnwindInfo::Dwarf), Some(info))
            } else {
                (None, None)
            }
        },
        CraneliftUnwindInfo::Absent => (None, None),
    }
}

/// What one function's output of the code generator normalizes to: the
/// machine code and the address map as they are, the relocation and trap
/// records in portable form, the unwind information in its portable shape.
/// A relocation that cannot be normalized precedes a trap that cannot.
pub open spec fn spec_normalize_function(
    module: ModuleInfo,
    table_unwind: bool,
    function: MachFunction,
) -> Result<FunctionOutputView, ConsistencyError> {
    match spec_normalize_relocs(module, function.relocs@) {
        Err(error) => Err(error),
        Ok(relocations) => match spec_normalize_traps(function.traps@) {
            Err(error) => Err(error),
            Ok(traps) => Ok(
                FunctionOutputView {
                    compiled: CompiledFunctionView {
                        body: FunctionBody {
                            body: function.code,
                            unwind_info: spec_unwind_info(function.unwind, table_unwind),
                        },
                        relocations,
                        traps,
                        address_map: function.address_map,
                    },
                    frame_entry: spec_frame_entry(function.unwind, table_unwind),
                },
            ),
        },
    }
}

/// Normalizes everything the code generator emitted for one function.
pub fn normalize_function(module: &ModuleInfo, table_unwind: bool, function: MachFunction) -> (output:
    Result<FunctionOutput, ConsistencyError>)
    ensures
        match output {
            Ok(out) => spec_normalize_function(*module, table_unwind, function) == Ok::<
                _,
                ConsistencyError,
            >(out@),
            Err(error) => spec_normalize_function(*module, table_unwind, function) == Err::<
                FunctionOutputView,
                _,
            >(error),
        },
        output matches Ok(out) ==> relocations_local(out@.compiled.relocations, module.local_functions),
{
    let MachFunction { code, relocs, traps, unwind, address_map } = function;
    let relocations = match normalize_relocs(module, &relocs) {
        Ok(list) => list,
        Err(error) => {
            return Err(error);
        },
    };
    let traps = match normalize_traps(&traps) {
        Ok(list) => list,
        Err(error) => {
            return Err(error);
        },
    };
    let (unwind_info, frame_entry) = normalize_unwind(unwind, table_unwind);
    Ok(
        FunctionOutput {
            compiled: CompiledFunction {
                body: FunctionBody { body: code, unwind_info },
                relocations,
                frame_info: CompiledFunctionFrameInfo { traps, address_map },
            },
            frame_entry,
        },
    )
}

} // verus!
