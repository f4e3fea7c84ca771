//! What the code generator hands back for one function, before normalization.

use crate::artifacts::{FunctionAddressMap, LibCall, RelocationKind};
use cranelift_codegen::isa::unwind::systemv::UnwindInfo;
use vstd::prelude::*;

verus! {

/// Table-based unwind information of one function, as `cranelift_codegen`
/// produces it. The pipeline carries it to the frame table unread.
#[verifier::external_type_specification]
#[verifier::external_body]
pub struct ExUnwindInfo(UnwindInfo);

/// The code generator's reasons for a trap.
#[derive(Debug, Clone, Copy, PartialEq, Eq)]
pub enum IrTrapCode {
    StackOverflow,
    HeapOutOfBounds,
    HeapMisaligned,
    TableOutOfBounds,
    IndirectCallToNull,
    BadSignature,
    IntegerOverflow,
    IntegerDivisionByZero,
    BadConversionToInteger,
    UnreachableCodeReached,
    /// Execution may be interrupted here and resumed.
    Interrupt,
    /// A trap code chosen by the code generator's user.
    User(u16),
}

/// A trap record of the code generator.
#[derive(Debug, Clone, Copy, PartialEq, Eq)]
pub struct MachTrap {
    pub offset: u32,
    pub code: IrTrapCode,
}

/// The symbol that a relocation of the code generator refers to.
#[derive(Debug, Clone, Copy, PartialEq, Eq)]
pub enum ExternalName {
    /// A name in a user-defined symbol table.
    User { namespace: u32, index: u32 },
    /// A routine of the runtime library.
    LibCall(LibCall),
    /// Any other name.
    Other,
}

/// A relocation record of the code generator.
#[derive(Debug, Clone, Copy, PartialEq, Eq)]
pub struct MachReloc {
    pub offset: u32,
    pub kind: RelocationKind,
    pub name: ExternalName,
    pub addend: i64,
}

/// The shapes in which the code generator describes how to unwind a function.
#[derive(Debug, PartialEq, Eq)]
pub enum CraneliftUnwindInfo {
    /// Self-contained unwind data in the windows convention, already encoded.
    WindowsX64(Vec<u8>),
    /// Table-based unwind information, to become an entry of the frame table.
    Fde(UnwindInfo),
    /// No unwind information.
    Absent,
}

/// Everything the code generator emits for one function.
#[derive(Debug, PartialEq, Eq)]
pub struct MachFunction {
    pub code: Vec<u8>,
    pub relocs: Vec<MachReloc>,
    pub traps: Vec<MachTrap>,
    pub unwind: CraneliftUnwindInfo,
    pub address_map: FunctionAddressMap,
}

} // verus!
