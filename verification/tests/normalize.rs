use compiler_cranelift::artifacts::{
    CompiledFunctionUnwindInfo, FunctionAddressMap, InstructionAddressMap, LibCall, Relocation,
    RelocationKind, RelocationTarget, TrapCode, TrapInformation,
};
use compiler_cranelift::backend::{
    CraneliftUnwindInfo, ExternalName, IrTrapCode, MachFunction, MachReloc, MachTrap,
};
use compiler_cranelift::error::ConsistencyError;
use compiler_cranelift::module::{CallingConvention, ModuleInfo, Target};
use compiler_cranelift::normalize::{
    get_function_name, mach_reloc_to_reloc, mach_trap_to_trap, normalize_function,
    normalize_relocs, normalize_traps, normalize_unwind, translate_ir_trapcode, FUNCTION_NAMESPACE,
};

fn module() -> ModuleInfo {
    ModuleInfo { signatures: 4, imported_functions: 2, local_functions: 3, functions: vec![0, 3, 1, 1, 2] }
}

fn reloc(name: ExternalName) -> MachReloc {
    MachReloc { offset: 17, kind: RelocationKind::X86CallPCRel4, name, addend: -4 }
}

fn address_map() -> FunctionAddressMap {
    FunctionAddressMap {
        instructions: vec![InstructionAddressMap { srcloc: 9, code_offset: 0, code_len: 3 }],
        start_srcloc: 8,
        end_srcloc: 12,
        body_offset: 0,
        body_len: 3,
    }
}

#[test]
fn every_supported_trap_code_has_its_portable_code() {
    let table = [
        (IrTrapCode::StackOverflow, TrapCode::StackOverflow),
        (IrTrapCode::HeapOutOfBounds, TrapCode::HeapAccessOutOfBounds),
        (IrTrapCode::HeapMisaligned, TrapCode::HeapMisaligned),
        (IrTrapCode::TableOutOfBounds, TrapCode::TableAccessOutOfBounds),
        (IrTrapCode::IndirectCallToNull, TrapCode::IndirectCallToNull),
        (IrTrapCode::BadSignature, TrapCode::BadSignature),
        (IrTrapCode::IntegerOverflow, TrapCode::IntegerOverflow),
        (IrTrapCode::IntegerDivisionByZero, TrapCode::IntegerDivisionByZero),
        (IrTrapCode::BadConversionToInteger, TrapCode::BadConversionToInteger),
        (IrTrapCode::UnreachableCodeReached, TrapCode::UnreachableCodeReached),
    ];
    for (ir, portable) in table {
        assert_eq!(translate_ir_trapcode(ir), Ok(portable));
    }
}

#[test]
fn trap_records_keep_their_offset() {
    let trap = MachTrap { offset: 0x2a, code: IrTrapCode::IntegerDivisionByZero };
    assert_eq!(
        mach_trap_to_trap(&trap),
        Ok(TrapInformation { code_offset: 0x2a, trap_code: TrapCode::IntegerDivisionByZero })
    );
    let last = MachTrap { offset: u32::MAX, code: IrTrapCode::StackOverflow };
    assert_eq!(
        mach_trap_to_trap(&last),
        Ok(TrapInformation { code_offset: u32::MAX, trap_code: TrapCode::StackOverflow })
    );
}

#[test]
fn interrupt_trap_is_refused() {
    assert_eq!(translate_ir_trapcode(IrTrapCode::Interrupt), Err(ConsistencyError::TrapInterrupt));
    let trap = MachTrap { offset: 3, code: IrTrapCode::Interrupt };
    assert_eq!(mach_trap_to_trap(&trap), Err(ConsistencyError::TrapInterrupt));
}

#[test]
fn user_trap_is_refused() {
    assert_eq!(
        translate_ir_trapcode(IrTrapCode::User(7)),
        Err(ConsistencyError::TrapUser { code: 7 })
    );
    let trap = MachTrap { offset: 3, code: IrTrapCode::User(0) };
    assert_eq!(mach_trap_to_trap(&trap), Err(ConsistencyError::TrapUser { code: 0 }));
}

#[test]
fn function_indices_put_imports_first() {
    let module = module();
    assert_eq!(module.func_index(0), 2);
    assert_eq!(module.func_index(2), 4);
    assert_eq!(module.local_func_index(2), Some(0));
    assert_eq!(module.local_func_index(4), Some(2));
    assert_eq!(module.local_func_index(1), None);
    assert_eq!(module.local_func_index(0), None);
    assert_eq!(module.signature_of(0), 0);
    assert_eq!(module.signature_of(1), 3);
    assert_eq!(module.signature_of(4), 2);
}

#[test]
fn a_module_is_valid_when_its_function_table_fits_its_counts() {
    assert!(module().is_valid());
    let empty = ModuleInfo { signatures: 0, imported_functions: 0, local_functions: 0, functions: Vec::new() };
    assert!(empty.is_valid());
    let full = ModuleInfo { signatures: 1, imported_functions: u32::MAX, local_functions: 1, functions: Vec::new() };
    assert!(!full.is_valid());
    let short = ModuleInfo { signatures: 4, imported_functions: 2, local_functions: 3, functions: vec![0, 3, 1, 1] };
    assert!(!short.is_valid());
    let long = ModuleInfo { signatures: 4, imported_functions: 2, local_functions: 1, functions: vec![0, 3, 1, 1] };
    assert!(!long.is_valid());
    let unknown_signature =
        ModuleInfo { signatures: 3, imported_functions: 2, local_functions: 3, functions: vec![0, 3, 1, 1, 2] };
    assert!(!unknown_signature.is_valid());
    let no_signatures = ModuleInfo { signatures: 0, imported_functions: 0, local_functions: 1, functions: vec![0] };
    assert!(!no_signatures.is_valid());
}

#[test]
fn relocation_to_a_local_function_gets_its_local_index() {
    let name = ExternalName::User { namespace: FUNCTION_NAMESPACE, index: 3 };
    assert_eq!(
        mach_reloc_to_reloc(&module(), &reloc(name)),
        Ok(Relocation {
            kind: RelocationKind::X86CallPCRel4,
            reloc_target: RelocationTarget::LocalFunc(1),
            offset: 17,
            addend: -4,
        })
    );
    let first = ExternalName::User { namespace: 0, index: 2 };
    assert_eq!(
        mach_reloc_to_reloc(&module(), &reloc(first)).map(|r| r.reloc_target),
        Ok(RelocationTarget::LocalFunc(0))
    );
    let last = ExternalName::User { namespace: 0, index: 4 };
    assert_eq!(
        mach_reloc_to_reloc(&module(), &reloc(last)).map(|r| r.reloc_target),
        Ok(RelocationTarget::LocalFunc(2))
    );
}

#[test]
fn the_name_of_a_local_function_resolves_to_it() {
    let module = module();
    assert_eq!(get_function_name(7), ExternalName::User { namespace: 0, index: 7 });
    for local in 0..module.local_functions {
        let name = get_function_name(module.func_index(local));
        assert_eq!(
            mach_reloc_to_reloc(&module, &reloc(name)).map(|r| r.reloc_target),
            Ok(RelocationTarget::LocalFunc(local))
        );
    }
    for import in 0..module.imported_functions {
        assert_eq!(
            mach_reloc_to_reloc(&module, &reloc(get_function_name(import))),
            Err(ConsistencyError::RelocationToImport { function: import })
        );
    }
}

#[test]
fn relocation_to_an_import_is_refused() {
    let name = ExternalName::User { namespace: 0, index: 1 };
    assert_eq!(
        mach_reloc_to_reloc(&module(), &reloc(name)),
        Err(ConsistencyError::RelocationToImport { function: 1 })
    );
}

#[test]
fn relocation_past_the_last_function_is_refused() {
    let name = ExternalName::User { namespace: 0, index: 5 };
    assert_eq!(
        mach_reloc_to_reloc(&module(), &reloc(name)),
        Err(ConsistencyError::RelocationOutOfRange { function: 5 })
    );
    let far = ExternalName::User { namespace: 0, index: u32::MAX };
    assert_eq!(
        mach_reloc_to_reloc(&module(), &reloc(far)),
        Err(ConsistencyError::RelocationOutOfRange { function: u32::MAX })
    );
}

#[test]
fn relocation_in_another_namespace_is_refused() {
    let name = ExternalName::User { namespace: 1, index: 3 };
    assert_eq!(
        mach_reloc_to_reloc(&module(), &reloc(name)),
        Err(ConsistencyError::RelocationNamespace { namespace: 1 })
    );
}

#[test]
fn relocation_to_a_library_routine_keeps_the_routine() {
    let name = ExternalName::LibCall(LibCall::Probestack);
    assert_eq!(
        mach_reloc_to_reloc(&module(), &reloc(name)),
        Ok(Relocation {
            kind: RelocationKind::X86CallPCRel4,
            reloc_target: RelocationTarget::LibCall(LibCall::Probestack),
            offset: 17,
            addend: -4,
        })
    );
}

#[test]
fn relocation_to_any_other_name_is_refused() {
    assert_eq!(
        mach_reloc_to_reloc(&module(), &reloc(ExternalName::Other)),
        Err(ConsistencyError::RelocationName)
    );
}

#[test]
fn relocation_lists_keep_their_order_and_stop_at_the_first_error() {
    let good = vec![
        reloc(ExternalName::User { namespace: 0, index: 4 }),
        reloc(ExternalName::LibCall(LibCall::CeilF32)),
        reloc(ExternalName::User { namespace: 0, index: 2 }),
    ];
    let targets: Vec<RelocationTarget> =
        normalize_relocs(&module(), &good).unwrap().iter().map(|r| r.reloc_target).collect();
    assert_eq!(
        targets,
        vec![
            RelocationTarget::LocalFunc(2),
            RelocationTarget::LibCall(LibCall::CeilF32),
            RelocationTarget::LocalFunc(0),
        ]
    );
    let bad = vec![
        reloc(ExternalName::User { namespace: 0, index: 4 }),
        reloc(ExternalName::User { namespace: 0, index: 0 }),
        reloc(ExternalName::Other),
    ];
    assert_eq!(
        normalize_relocs(&module(), &bad),
        Err(ConsistencyError::RelocationToImport { function: 0 })
    );
    assert_eq!(normalize_relocs(&module(), &Vec::new()), Ok(Vec::new()));
}

#[test]
fn trap_lists_keep_their_order_and_stop_at_the_first_error() {
    let good = vec![
        MachTrap { offset: 1, code: IrTrapCode::HeapOutOfBounds },
        MachTrap { offset: 5, code: IrTrapCode::BadSignature },
    ];
    assert_eq!(
        normalize_traps(&good),
        Ok(vec![
            TrapInformation { code_offset: 1, trap_code: TrapCode::HeapAccessOutOfBounds },
            TrapInformation { code_offset: 5, trap_code: TrapCode::BadSignature },
        ])
    );
    let bad = vec![
        MachTrap { offset: 1, code: IrTrapCode::HeapOutOfBounds },
        MachTrap { offset: 2, code: IrTrapCode::User(3) },
        MachTrap { offset: 3, code: IrTrapCode::Interrupt },
    ];
    assert_eq!(normalize_traps(&bad), Err(ConsistencyError::TrapUser { code: 3 }));
    assert_eq!(normalize_traps(&Vec::new()), Ok(Vec::new()));
}

#[test]
fn self_contained_unwind_data_is_kept() {
    let (info, entry) = normalize_unwind(CraneliftUnwindInfo::WindowsX64(vec![1, 2, 3]), true);
    assert_eq!(info, Some(CompiledFunctionUnwindInfo::WindowsX64(vec![1, 2, 3])));
    assert!(entry.is_none());
    let (info, entry) = normalize_unwind(CraneliftUnwindInfo::WindowsX64(vec![4]), false);
    assert_eq!(info, Some(CompiledFunctionUnwindInfo::WindowsX64(vec![4])));
    assert!(entry.is_none());
}

#[test]
fn absent_unwind_information_stays_absent() {
    assert_eq!(normalize_unwind(CraneliftUnwindInfo::Absent, true), (None, None));
    assert_eq!(normalize_unwind(CraneliftUnwindInfo::Absent, false), (None, None));
}

#[test]
fn a_function_keeps_its_code_and_address_map() {
    let function = MachFunction {
        code: vec![0x55, 0x5d, 0xc3],
        relocs: vec![reloc(ExternalName::User { namespace: 0, index: 2 })],
        traps: vec![MachTrap { offset: 1, code: IrTrapCode::UnreachableCodeReached }],
        unwind: CraneliftUnwindInfo::Absent,
        address_map: address_map(),
    };
    let output = normalize_function(&module(), true, function).unwrap();
    assert_eq!(output.compiled.body.body, vec![0x55, 0x5d, 0xc3]);
    assert_eq!(output.compiled.body.unwind_info, None);
    assert_eq!(
        output.compiled.relocations,
        vec![Relocation {
            kind: RelocationKind::X86CallPCRel4,
            reloc_target: RelocationTarget::LocalFunc(0),
            offset: 17,
            addend: -4,
        }]
    );
    assert_eq!(
        output.compiled.frame_info.traps,
        vec![TrapInformation { code_offset: 1, trap_code: TrapCode::UnreachableCodeReached }]
    );
    assert_eq!(output.compiled.frame_info.address_map, address_map());
    assert!(output.frame_entry.is_none());
}

#[test]
fn a_bad_relocation_is_reported_before_a_bad_trap() {
    let function = MachFunction {
        code: vec![0xc3],
        relocs: vec![reloc(ExternalName::Other)],
        traps: vec![MachTrap { offset: 0, code: IrTrapCode::Interrupt }],
        unwind: CraneliftUnwindInfo::Absent,
        address_map: address_map(),
    };
    assert_eq!(
        normalize_function(&module(), false, function),
        Err(ConsistencyError::RelocationName)
    );
    let function = MachFunction {
        code: vec![0xc3],
        relocs: Vec::new(),
        traps: vec![MachTrap { offset: 0, code: IrTrapCode::Interrupt }],
        unwind: CraneliftUnwindInfo::Absent,
        address_map: address_map(),
    };
    assert_eq!(
        normalize_function(&module(), false, function),
        Err(ConsistencyError::TrapInterrupt)
    );
}

#[test]
fn only_the_table_based_convention_unwinds_by_table() {
    let systemv = Target {
        default_calling_convention: Some(CallingConvention::SystemV),
        systemv_cie: true,
    };
    assert!(systemv.table_unwind());
    let unsupported = Target {
        default_calling_convention: Some(CallingConvention::SystemV),
        systemv_cie: false,
    };
    assert!(!unsupported.table_unwind());
    let windows = Target {
        default_calling_convention: Some(CallingConvention::WindowsFastcall),
        systemv_cie: true,
    };
    assert!(!windows.table_unwind());
    let unknown = Target { default_calling_convention: None, systemv_cie: true };
    assert!(!unknown.table_unwind());
}
