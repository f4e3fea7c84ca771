//! The portable artifacts that the pipeline produces for the loader.

use crate::sections::{sections_of, CustomSections};
use vstd::prelude::*;

verus! {

/// Why an instruction may fault.
#[derive(Debug, Clone, Copy, PartialEq, Eq)]
pub enum TrapCode {
    StackOverflow,
    HeapAccessOutOfBounds,
    HeapMisaligned,
    TableAccessOutOfBounds,
    IndirectCallToNull,
    BadSignature,
    IntegerOverflow,
    IntegerDivisionByZero,
    BadConversionToInteger,
    UnreachableCodeReached,
}

/// One instruction that may fault, and why.
#[derive(Debug, Clone, Copy, PartialEq, Eq)]
pub struct TrapInformation {
    /// Offset of the instruction in the function's machine code.
    pub code_offset: u32,
    pub trap_code: TrapCode,
}

/// How a patch site is patched.
#[derive(Debug, Clone, Copy, PartialEq, Eq)]
pub enum RelocationKind {
    Abs4,
    Abs8,
    X86PCRel4,
    X86PCRel8,
    X86CallPCRel4,
    X86CallPLTRel4,
    X86GOTPCRel4,
    Arm32Call,
    Arm64Call,
    Arm64Movw0,
    Arm64Movw1,
    Arm64Movw2,
    Arm64Movw3,
    RiscvPCRelHi20,
    RiscvPCRelLo12I,
    RiscvCall,
    ElfX86_64TlsGd,
}

/// A routine of the runtime library that generated code may call.
#[derive(Debug, Clone, Copy, PartialEq, Eq)]
pub enum LibCall {
    CeilF32,
    CeilF64,
    FloorF32,
    FloorF64,
    NearestF32,
    NearestF64,
    TruncF32,
    TruncF64,
    Memory32Size,
    ImportedMemory32Size,
    TableCopy,
    TableInit,
    TableFill,
    TableSize,
    ImportedTableSize,
    TableGet,
    ImportedTableGet,
    TableSet,
    ImportedTableSet,
    TableGrow,
    ImportedTableGrow,
    FuncRef,
    ElemDrop,
    Memory32Copy,
    ImportedMemory32Copy,
    Memory32Fill,
    ImportedMemory32Fill,
    Memory32Init,
    DataDrop,
    RaiseTrap,
    Probestack,
    Memory32AtomicWait32,
    ImportedMemory32AtomicWait32,
    Memory32AtomicWait64,
    ImportedMemory32AtomicWait64,
    Memory32AtomicNotify,
    ImportedMemory32AtomicNotify,
}

/// What a patch site refers to.
#[derive(Debug, Clone, Copy, PartialEq, Eq)]
pub enum RelocationTarget {
    /// A function defined in the module, by its local index.
    LocalFunc(u32),
    /// A routine of the runtime library.
    LibCall(LibCall),
}

/// A position in machine code that is patched at link or load time.
#[derive(Debug, Clone, Copy, PartialEq, Eq)]
pub struct Relocation {
    pub kind: RelocationKind,
    pub reloc_target: RelocationTarget,
    pub offset: u32,
    pub addend: i64,
}

/// How the stack is unwound through a compiled function.
#[derive(Debug, Clone, PartialEq, Eq)]
pub enum CompiledFunctionUnwindInfo {
    /// Self-contained unwind data in the windows convention.
    WindowsX64(Vec<u8>),
    /// The function has an entry in the module's shared frame table.
    Dwarf,
}

/// Machine code of one function or trampoline.
#[derive(Debug, Clone, PartialEq, Eq)]
pub struct FunctionBody {
    pub body: Vec<u8>,
    pub unwind_info: Option<CompiledFunctionUnwindInfo>,
}

/// Where one source instruction went in the machine code.
#[derive(Debug, Clone, Copy, PartialEq, Eq)]
pub struct InstructionAddressMap {
    pub srcloc: u32,
    pub code_offset: usize,
    pub code_len: usize,
}

/// Where a function's source instructions went in its machine code.
#[derive(Debug, Clone, PartialEq, Eq)]
pub struct FunctionAddressMap {
    pub instructions: Vec<InstructionAddressMap>,
    pub start_srcloc: u32,
    pub end_srcloc: u32,
    pub body_offset: usize,
    pub body_len: usize,
}

/// What the runtime needs to explain a fault inside a function.
#[derive(Debug, Clone, PartialEq, Eq)]
pub struct CompiledFunctionFrameInfo {
    pub traps: Vec<TrapInformation>,
    pub address_map: FunctionAddressMap,
}

/// One compiled local function.
#[derive(Debug, Clone, PartialEq, Eq)]
pub struct CompiledFunction {
    pub body: FunctionBody,
    pub relocations: Vec<Relocation>,
    pub frame_info: CompiledFunctionFrameInfo,
}

/// The mathematical content of a [`CompiledFunction`].
pub struct CompiledFunctionView {
    pub body: FunctionBody,
    pub relocations: Seq<Relocation>,
    pub traps: Seq<TrapInformation>,
    pub address_map: FunctionAddressMap,
}

impl View for CompiledFunction {
    type V = CompiledFunctionView;

    open spec fn view(&self) -> CompiledFunctionView {
        CompiledFunctionView {
            body: self.body,
            relocations: self.relocations@,
            traps: self.frame_info.traps@,
            address_map: self.frame_info.address_map,
        }
    }
}

/// How a custom section is mapped.
#[derive(Debug, Clone, Copy, PartialEq, Eq)]
pub enum CustomSectionProtection {
    Read,
    ReadExecute,
}

/// A binary section that accompanies the compiled functions.
#[derive(Debug, Clone, PartialEq, Eq)]
pub struct CustomSection {
    pub protection: CustomSectionProtection,
    pub bytes: Vec<u8>,
    pub relocations: Vec<Relocation>,
}

/// Which custom section holds the unwind frame table.
#[derive(Debug, Clone, Copy, PartialEq, Eq)]
pub struct Dwarf {
    pub eh_frame: u32,
}

/// Everything the loader needs of one compiled module.
pub struct Compilation {
    /// The compiled local functions, by local function index.
    pub functions: Vec<CompiledFunction>,
    /// The custom sections, among them the unwind section if there is one.
    pub custom_sections: CustomSections,
    /// The call trampolines, by signature index.
    pub function_call_trampolines: Vec<FunctionBody>,
    /// The dynamic trampolines, by imported function index.
    pub dynamic_function_trampolines: Vec<FunctionBody>,
    /// Which custom section holds the unwind frame table, if any does.
    pub debug: Option<Dwarf>,
}

/// The mathematical content of a [`Compilation`].
pub struct CompilationView {
    pub functions: Seq<CompiledFunctionView>,
    pub custom_sections: Seq<CustomSection>,
    pub function_call_trampolines: Seq<FunctionBody>,
    pub dynamic_function_trampolines: Seq<FunctionBody>,
    pub debug: Option<Dwarf>,
}

impl View for Compilation {
    type V = CompilationView;

    open spec fn view(&self) -> CompilationView {
        CompilationView {
            functions: Seq::new(self.functions@.len(), |i: int| self.functions@[i]@),
            custom_sections: sections_of(self.custom_sections),
            function_call_trampolines: self.function_call_trampolines@,
            dynamic_function_trampolines: self.dynamic_function_trampolines@,
            debug: self.debug,
        }
    }
}

impl RelocationTarget {
    /// The target is a local function below `local_functions`, or no function.
    pub open spec fn is_local_to(self, local_functions: u32) -> bool {
        self matches RelocationTarget::LocalFunc(index) ==> index < local_functions
    }
}

/// Every function that `relocations` refers to is a local function below
/// `local_functions`.
pub open spec fn relocations_local(relocations: Seq<Relocation>, local_functions: u32) -> bool {
    forall|j: int|
        0 <= j < relocations.len() ==> (#[trigger] relocations[j]).reloc_target.is_local_to(
            local_functions,
        )
}

} // verus!
