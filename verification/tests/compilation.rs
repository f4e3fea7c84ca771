use compiler_cranelift::artifacts::{
    Compilation, CompiledFunctionUnwindInfo, CustomSection, CustomSectionProtection, Dwarf,
    FunctionAddressMap, FunctionBody, Relocation, RelocationKind, RelocationTarget,
};
use compiler_cranelift::backend::{
    CraneliftUnwindInfo, ExternalName, IrTrapCode, MachFunction, MachReloc, MachTrap,
};
use compiler_cranelift::compiler::{unwind_table_applicable, CraneliftCompiler, ModuleCompilation};
use compiler_cranelift::error::{BackendError, CompileError, ConsistencyError, ErrorKind, Origin};
use compiler_cranelift::module::{CallingConvention, ModuleInfo, Target};
use compiler_cranelift::sections::CustomSections;
use compiler_cranelift::slots::Slots;
use compiler_cranelift::state::{Completion, Cranelift, Work};

fn config() -> Cranelift {
    Cranelift { table_unwind: true, worker_pool: None }
}

fn systemv() -> Target {
    Target { default_calling_convention: Some(CallingConvention::SystemV), systemv_cie: true }
}

fn windows() -> Target {
    Target { default_calling_convention: Some(CallingConvention::WindowsFastcall), systemv_cie: false }
}

fn mach_function(tag: u8) -> MachFunction {
    MachFunction {
        code: vec![0x55, tag, 0xc3],
        relocs: Vec::new(),
        traps: vec![MachTrap { offset: tag as u32, code: IrTrapCode::IntegerOverflow }],
        unwind: CraneliftUnwindInfo::WindowsX64(vec![tag, tag]),
        address_map: FunctionAddressMap {
            instructions: Vec::new(),
            start_srcloc: tag as u32,
            end_srcloc: tag as u32 + 1,
            body_offset: 0,
            body_len: 3,
        },
    }
}

fn trampoline(tag: u8) -> FunctionBody {
    FunctionBody { body: vec![0x90, tag], unwind_info: None }
}

fn function_done(local: u32) -> Completion {
    Completion::Function { local, outcome: Ok(mach_function(local as u8)) }
}

fn call_done(signature: u32) -> Completion {
    Completion::CallTrampoline { signature, trampoline: Ok(trampoline(0x10 + signature as u8)) }
}

fn dynamic_done(function: u32) -> Completion {
    Completion::DynamicTrampoline { function, trampoline: Ok(trampoline(0x20 + function as u8)) }
}

fn module_info(signatures: u32, imported_functions: u32, local_functions: u32) -> ModuleInfo {
    let functions = (0..imported_functions + local_functions).map(|f| f % signatures.max(1)).collect();
    ModuleInfo { signatures, imported_functions, local_functions, functions }
}

fn start(target: Target, module: ModuleInfo) -> ModuleCompilation {
    CraneliftCompiler::new(config()).compile_module(&target, module)
}

fn run(target: Target, module: &ModuleInfo, completions: Vec<Completion>) -> Result<Compilation, CompileError> {
    let mut compilation = start(target, module.clone());
    for completion in completions {
        compilation.step(completion);
    }
    compilation.finish()
}

#[test]
fn the_compiler_keeps_its_configuration() {
    let config = Cranelift { table_unwind: false, worker_pool: Some(4) };
    let compiler = CraneliftCompiler::new(config);
    assert_eq!(*compiler.config(), config);
    assert_eq!(*CraneliftCompiler::new(self::config()).config(), self::config());
}

#[test]
fn work_is_handed_out_in_index_order() {
    let module = module_info(2, 1, 2);
    let mut compilation = start(windows(), module);
    assert_eq!(compilation.next_work(), Work::Function { local: 0, function: 1, signature: 1 });
    assert_eq!(
        compilation.step(function_done(0)),
        Work::Function { local: 1, function: 2, signature: 0 }
    );
    assert_eq!(compilation.step(function_done(1)), Work::CallTrampoline { signature: 0 });
    assert_eq!(compilation.step(call_done(0)), Work::CallTrampoline { signature: 1 });
    assert_eq!(
        compilation.step(call_done(1)),
        Work::DynamicTrampoline { function: 0, signature: 0 }
    );
    assert_eq!(compilation.step(dynamic_done(0)), Work::Finished);
    assert!(!compilation.has_failed());
    let result = compilation.finish().unwrap();
    assert_eq!(result.functions.len(), 2);
    assert_eq!(result.functions[0].body.body, vec![0x55, 0, 0xc3]);
    assert_eq!(result.functions[1].body.body, vec![0x55, 1, 0xc3]);
    assert_eq!(
        result.functions[1].body.unwind_info,
        Some(CompiledFunctionUnwindInfo::WindowsX64(vec![1, 1]))
    );
    assert_eq!(result.function_call_trampolines, vec![trampoline(0x10), trampoline(0x11)]);
    assert_eq!(result.dynamic_function_trampolines, vec![trampoline(0x20)]);
    assert_eq!(result.custom_sections.len(), 0);
    assert_eq!(result.debug, None);
}

#[test]
fn the_result_has_one_entry_per_function_signature_and_import() {
    for (n, m, k) in [(0u32, 0u32, 0u32), (1, 1, 0), (0, 3, 0), (0, 1, 2), (3, 2, 1), (5, 4, 6)] {
        let module = module_info(m, k, n);
        let mut completions = Vec::new();
        for i in 0..n {
            completions.push(function_done(i));
        }
        for j in 0..m {
            completions.push(call_done(j));
        }
        for j in 0..k {
            completions.push(dynamic_done(j));
        }
        assert!(module.is_valid());
        let result = run(windows(), &module, completions).unwrap();
        assert_eq!(result.functions.len(), n as usize);
        assert_eq!(result.function_call_trampolines.len(), m as usize);
        assert_eq!(result.dynamic_function_trampolines.len(), k as usize);
    }
}

#[test]
fn an_empty_module_has_no_unwind_section() {
    let module = module_info(1, 1, 0);
    assert!(!unwind_table_applicable(&config(), &systemv(), 0));
    assert!(unwind_table_applicable(&config(), &systemv(), 1));
    let mut compilation = start(systemv(), module);
    assert_eq!(compilation.next_work(), Work::CallTrampoline { signature: 0 });
    assert_eq!(
        compilation.step(call_done(0)),
        Work::DynamicTrampoline { function: 0, signature: 0 }
    );
    assert_eq!(compilation.step(dynamic_done(0)), Work::Finished);
    let result = compilation.finish().unwrap();
    assert_eq!(result.custom_sections.len(), 0);
    assert!(result.custom_sections.get(0).is_none());
    assert_eq!(result.debug, None);
    assert!(result.functions.is_empty());
}

#[test]
fn an_unwind_section_sent_to_an_empty_module_is_refused() {
    let module = module_info(0, 0, 0);
    let section = CustomSection {
        protection: CustomSectionProtection::Read,
        bytes: Vec::new(),
        relocations: Vec::new(),
    };
    let result = run(systemv(), &module, vec![Completion::UnwindSection { section }]);
    assert_eq!(
        result.err(),
        Some(CompileError {
            origin: Origin::Module,
            kind: ErrorKind::InternalConsistency(ConsistencyError::UnexpectedCompletion),
        })
    );
}

#[test]
fn the_frame_table_needs_configuration_target_and_functions() {
    let off = Cranelift { table_unwind: false, worker_pool: None };
    assert!(!unwind_table_applicable(&off, &systemv(), 3));
    assert!(!unwind_table_applicable(&config(), &windows(), 3));
    let no_cie = Target { default_calling_convention: Some(CallingConvention::SystemV), systemv_cie: false };
    assert!(!unwind_table_applicable(&config(), &no_cie, 3));
    assert!(unwind_table_applicable(&config(), &systemv(), 3));
}

#[test]
fn a_malformed_function_fails_the_whole_module() {
    let module = module_info(1, 0, 5);
    let mut compilation = start(windows(), module);
    assert_eq!(
        compilation.step(function_done(0)),
        Work::Function { local: 1, function: 1, signature: 0 }
    );
    assert_eq!(
        compilation.step(function_done(1)),
        Work::Function { local: 2, function: 2, signature: 0 }
    );
    let failed = Completion::Function {
        local: 2,
        outcome: Err(BackendError::Translation(String::from("unexpected end of body"))),
    };
    assert_eq!(compilation.step(failed), Work::Finished);
    assert!(compilation.has_failed());
    assert_eq!(compilation.step(function_done(3)), Work::Finished);
    assert_eq!(compilation.step(function_done(4)), Work::Finished);
    assert_eq!(compilation.step(call_done(0)), Work::Finished);
    assert_eq!(
        compilation.finish().err(),
        Some(CompileError {
            origin: Origin::Function(2),
            kind: ErrorKind::Translation(String::from("unexpected end of body")),
        })
    );
}

#[test]
fn a_code_generator_failure_is_reported_with_its_function() {
    let module = module_info(1, 0, 2);
    let failed = Completion::Function {
        local: 1,
        outcome: Err(BackendError::Codegen(String::from("register allocation failed"))),
    };
    let result = run(windows(), &module, vec![failed, function_done(0)]);
    assert_eq!(
        result.err(),
        Some(CompileError {
            origin: Origin::Function(1),
            kind: ErrorKind::Codegen(String::from("register allocation failed")),
        })
    );
}

#[test]
fn only_the_first_failure_is_reported() {
    let module = module_info(2, 1, 1);
    let first = Completion::CallTrampoline {
        signature: 1,
        trampoline: Err(BackendError::Codegen(String::from("first"))),
    };
    let second = Completion::DynamicTrampoline {
        function: 0,
        trampoline: Err(BackendError::Codegen(String::from("second"))),
    };
    let result = run(windows(), &module, vec![function_done(0), first, second]);
    assert_eq!(
        result.err(),
        Some(CompileError {
            origin: Origin::CallTrampoline(1),
            kind: ErrorKind::Codegen(String::from("first")),
        })
    );
    let first = Completion::DynamicTrampoline {
        function: 0,
        trampoline: Err(BackendError::Translation(String::from("second"))),
    };
    let result = run(windows(), &module, vec![first]);
    assert_eq!(
        result.err(),
        Some(CompileError {
            origin: Origin::DynamicTrampoline(0),
            kind: ErrorKind::Translation(String::from("second")),
        })
    );
}

#[test]
fn completion_order_does_not_show_in_the_result() {
    let module = module_info(2, 2, 3);
    let in_order = run(
        windows(),
        &module,
        vec![
            function_done(0),
            function_done(1),
            function_done(2),
            call_done(0),
            call_done(1),
            dynamic_done(0),
            dynamic_done(1),
        ],
    )
    .unwrap();
    let shuffled = run(
        windows(),
        &module,
        vec![
            dynamic_done(1),
            function_done(2),
            call_done(1),
            function_done(0),
            dynamic_done(0),
            function_done(1),
            call_done(0),
        ],
    )
    .unwrap();
    assert_eq!(in_order.functions, shuffled.functions);
    assert_eq!(in_order.function_call_trampolines, shuffled.function_call_trampolines);
    assert_eq!(in_order.dynamic_function_trampolines, shuffled.dynamic_function_trampolines);
    assert_eq!(in_order.debug, shuffled.debug);
    assert_eq!(shuffled.functions[2].body.body, vec![0x55, 2, 0xc3]);
    assert_eq!(shuffled.function_call_trampolines[1], trampoline(0x11));
    assert_eq!(shuffled.dynamic_function_trampolines[0], trampoline(0x20));
}

#[test]
fn out_of_order_completions_leave_the_lowest_gap_as_next_work() {
    let module = module_info(2, 3, 4);
    let mut compilation = start(windows(), module);
    let first = Work::Function { local: 0, function: 3, signature: 1 };
    assert_eq!(compilation.step(function_done(1)), first);
    assert_eq!(compilation.step(function_done(3)), first);
    assert_eq!(
        compilation.step(function_done(0)),
        Work::Function { local: 2, function: 5, signature: 1 }
    );
    assert_eq!(compilation.step(function_done(2)), Work::CallTrampoline { signature: 0 });
    assert_eq!(compilation.step(call_done(1)), Work::CallTrampoline { signature: 0 });
    assert_eq!(
        compilation.step(call_done(0)),
        Work::DynamicTrampoline { function: 0, signature: 0 }
    );
    assert_eq!(
        compilation.step(dynamic_done(0)),
        Work::DynamicTrampoline { function: 1, signature: 1 }
    );
    assert_eq!(
        compilation.step(dynamic_done(2)),
        Work::DynamicTrampoline { function: 1, signature: 1 }
    );
    assert_eq!(compilation.step(dynamic_done(1)), Work::Finished);
}

#[test]
fn trampolines_come_out_as_they_went_in() {
    let module = module_info(1, 1, 0);
    let body = FunctionBody {
        body: vec![0x48, 0x89, 0xe5, 0xc3],
        unwind_info: Some(CompiledFunctionUnwindInfo::WindowsX64(vec![9])),
    };
    let once = run(
        windows(),
        &module,
        vec![
            Completion::CallTrampoline { signature: 0, trampoline: Ok(body.clone()) },
            Completion::DynamicTrampoline { function: 0, trampoline: Ok(body.clone()) },
        ],
    )
    .unwrap();
    let twice = run(
        windows(),
        &module,
        vec![
            Completion::CallTrampoline { signature: 0, trampoline: Ok(body.clone()) },
            Completion::DynamicTrampoline { function: 0, trampoline: Ok(body.clone()) },
        ],
    )
    .unwrap();
    assert_eq!(once.function_call_trampolines, vec![body.clone()]);
    assert_eq!(once.dynamic_function_trampolines, vec![body]);
    assert_eq!(once.function_call_trampolines, twice.function_call_trampolines);
    assert_eq!(once.dynamic_function_trampolines, twice.dynamic_function_trampolines);
}

#[test]
fn a_completion_for_unknown_work_is_refused() {
    let module = module_info(1, 1, 1);
    let unexpected = |origin| CompileError {
        origin,
        kind: ErrorKind::InternalConsistency(ConsistencyError::UnexpectedCompletion),
    };
    assert_eq!(
        run(windows(), &module, vec![function_done(1)]).err(),
        Some(unexpected(Origin::Function(1)))
    );
    assert_eq!(
        run(windows(), &module, vec![call_done(1)]).err(),
        Some(unexpected(Origin::CallTrampoline(1)))
    );
    assert_eq!(
        run(windows(), &module, vec![dynamic_done(7)]).err(),
        Some(unexpected(Origin::DynamicTrampoline(7)))
    );
}

#[test]
fn a_second_completion_for_the_same_work_is_refused() {
    let module = module_info(1, 1, 1);
    let unexpected = |origin| CompileError {
        origin,
        kind: ErrorKind::InternalConsistency(ConsistencyError::UnexpectedCompletion),
    };
    assert_eq!(
        run(windows(), &module, vec![function_done(0), function_done(0)]).err(),
        Some(unexpected(Origin::Function(0)))
    );
    assert_eq!(
        run(windows(), &module, vec![call_done(0), call_done(0)]).err(),
        Some(unexpected(Origin::CallTrampoline(0)))
    );
    assert_eq!(
        run(windows(), &module, vec![dynamic_done(0), dynamic_done(0)]).err(),
        Some(unexpected(Origin::DynamicTrampoline(0)))
    );
}

#[test]
fn there_is_no_partial_result() {
    let module = module_info(1, 0, 2);
    let incomplete = CompileError {
        origin: Origin::Module,
        kind: ErrorKind::InternalConsistency(ConsistencyError::Incomplete),
    };
    assert_eq!(run(windows(), &module, Vec::new()).err(), Some(incomplete.clone()));
    assert_eq!(
        run(windows(), &module, vec![function_done(0), function_done(1)]).err(),
        Some(incomplete.clone())
    );
    assert_eq!(
        run(windows(), &module, vec![function_done(1), call_done(0)]).err(),
        Some(incomplete)
    );
    assert!(run(windows(), &module, vec![function_done(1), call_done(0), function_done(0)]).is_ok());
}

#[test]
fn a_function_index_space_beyond_32_bits_is_refused() {
    let module = ModuleInfo {
        signatures: 1,
        imported_functions: u32::MAX,
        local_functions: 1,
        functions: Vec::new(),
    };
    assert!(!module.is_valid());
    let mut compilation = start(systemv(), module);
    assert!(compilation.has_failed());
    assert_eq!(compilation.next_work(), Work::Finished);
    assert_eq!(compilation.step(function_done(0)), Work::Finished);
    assert_eq!(
        compilation.finish().err(),
        Some(CompileError {
            origin: Origin::Module,
            kind: ErrorKind::InternalConsistency(ConsistencyError::IndexSpace),
        })
    );
}

#[test]
fn a_module_with_an_inconsistent_function_table_is_refused() {
    let module =
        ModuleInfo { signatures: 1, imported_functions: 1, local_functions: 1, functions: vec![0, 1] };
    let compilation = start(windows(), module);
    assert!(compilation.has_failed());
    assert_eq!(
        compilation.finish().err(),
        Some(CompileError {
            origin: Origin::Module,
            kind: ErrorKind::InternalConsistency(ConsistencyError::IndexSpace),
        })
    );
}

#[test]
fn a_relocation_out_of_the_module_fails_the_function() {
    let module = module_info(1, 1, 2);
    let mut function = mach_function(0);
    function.relocs.push(MachReloc {
        offset: 1,
        kind: RelocationKind::Abs8,
        name: ExternalName::User { namespace: 0, index: 3 },
        addend: 0,
    });
    let result = run(
        windows(),
        &module,
        vec![function_done(1), Completion::Function { local: 0, outcome: Ok(function) }],
    );
    assert_eq!(
        result.err(),
        Some(CompileError {
            origin: Origin::Function(0),
            kind: ErrorKind::InternalConsistency(ConsistencyError::RelocationOutOfRange {
                function: 3
            }),
        })
    );
}

#[test]
fn relocations_of_a_compiled_module_are_local() {
    let module = module_info(1, 1, 2);
    let mut function = mach_function(0);
    function.relocs.push(MachReloc {
        offset: 1,
        kind: RelocationKind::Abs8,
        name: ExternalName::User { namespace: 0, index: 2 },
        addend: 8,
    });
    let result = run(
        windows(),
        &module,
        vec![
            function_done(1),
            Completion::Function { local: 0, outcome: Ok(function) },
            dynamic_done(0),
            call_done(0),
        ],
    )
    .unwrap();
    assert_eq!(
        result.functions[0].relocations,
        vec![Relocation {
            kind: RelocationKind::Abs8,
            reloc_target: RelocationTarget::LocalFunc(1),
            offset: 1,
            addend: 8,
        }]
    );
    for function in &result.functions {
        for relocation in &function.relocations {
            if let RelocationTarget::LocalFunc(index) = relocation.reloc_target {
                assert!(index < module.local_functions);
            }
        }
    }
}

#[test]
fn an_unsupported_trap_fails_the_function() {
    let module = module_info(1, 0, 1);
    let mut function = mach_function(0);
    function.traps.push(MachTrap { offset: 2, code: IrTrapCode::User(11) });
    let result = run(windows(), &module, vec![Completion::Function { local: 0, outcome: Ok(function) }]);
    assert_eq!(
        result.err(),
        Some(CompileError {
            origin: Origin::Function(0),
            kind: ErrorKind::InternalConsistency(ConsistencyError::TrapUser { code: 11 }),
        })
    );
}

#[test]
fn custom_sections_are_kept_by_index() {
    let section = |tag: u8| CustomSection {
        protection: CustomSectionProtection::Read,
        bytes: vec![tag; 3],
        relocations: Vec::new(),
    };
    let mut sections = CustomSections::new();
    assert_eq!(sections.len(), 0);
    assert!(sections.get(0).is_none());
    assert_eq!(sections.push(section(1)), Ok(0));
    assert_eq!(sections.push(section(2)), Ok(1));
    assert_eq!(sections.len(), 2);
    assert_eq!(sections.get(0), Some(&section(1)));
    assert_eq!(sections.get(1), Some(&section(2)));
    assert!(sections.get(2).is_none());
    assert!(sections.get(u32::MAX).is_none());
}

#[test]
fn slots_fill_in_any_order() {
    let mut slots: Slots<u8> = Slots::new(3);
    assert_eq!(slots.len(), 3);
    assert_eq!(slots.first_empty(), 0);
    assert!(!slots.is_complete());
    slots.put(2, 30);
    assert_eq!(slots.first_empty(), 0);
    assert!(slots.is_filled(2));
    assert!(!slots.is_filled(1));
    assert!(!slots.is_filled(3));
    slots.put(0, 10);
    assert_eq!(slots.first_empty(), 1);
    assert!(slots.is_filled(0));
    slots.put(1, 20);
    assert_eq!(slots.first_empty(), 3);
    assert!(slots.is_complete());
    assert_eq!(slots.into_dense(), vec![10, 20, 30]);
    let none: Slots<u8> = Slots::new(0);
    assert!(none.is_complete());
    assert_eq!(none.into_dense(), Vec::<u8>::new());
}

#[test]
fn the_unwind_section_pointer_names_the_unwind_section() {
    let dwarf = Dwarf { eh_frame: 0 };
    assert_eq!(dwarf.eh_frame, 0);
}
