use cairo_lang_casm::assembler::AssembledCairoProgram;
use cairo_lang_casm::hints::{CoreHint, Hint};
use cairo_lang_casm::operand::{CellRef, Register};
use cairo_vm::types::builtin_name::BuiltinName;
use cairo_vm::Felt252;
use num_bigint::BigInt;
use stwo_web_stark::executable::{
    Arg, EntryPointKind, Executable, ExecutableEntryPoint,
};
use stwo_web_stark::program::{
    bytecode_data, check_runnable, execute, first_standalone_entrypoint,
    program_and_hints_from_executable, program_bounds, stwo_run_settings, trace_gen, PlanError,
    ProgramBounds, RunSettings, try_execute, try_trace_gen,
};

fn entry(offset: usize, kind: EntryPointKind) -> ExecutableEntryPoint {
    ExecutableEntryPoint { builtins: vec![], offset, kind }
}

fn alloc_hint(offset: i16) -> Hint {
    Hint::from(CoreHint::AllocSegment { dst: CellRef { register: Register::AP, offset } })
}

/// `ap += 0; call rel 4; jmp rel 0; ret`: a standalone entrypoint at 0
/// calling a `main` at 6 that returns at once.
fn tiny_bytecode() -> Vec<BigInt> {
    [0x40780017fff7fffu64, 0, 0x1104800180018000, 4, 0x10780017fff7fff, 0, 0x208b7fff7fff7ffe]
        .into_iter()
        .map(BigInt::from)
        .collect()
}

fn assembled(bytecode: Vec<BigInt>, hints: Vec<(usize, Vec<Hint>)>) -> AssembledCairoProgram {
    AssembledCairoProgram { bytecode, hints }
}

fn tiny_executable() -> Executable {
    Executable {
        program: assembled(tiny_bytecode(), vec![]),
        entrypoints: vec![entry(0, EntryPointKind::Standalone)],
    }
}

#[test]
fn first_standalone_is_found() {
    let eps = vec![
        entry(10, EntryPointKind::Bootloader),
        entry(20, EntryPointKind::Standalone),
        entry(30, EntryPointKind::Standalone),
    ];
    assert_eq!(first_standalone_entrypoint(&eps), Some(1));
    assert_eq!(first_standalone_entrypoint(&vec![entry(0, EntryPointKind::Bootloader)]), None);
    assert_eq!(first_standalone_entrypoint(&vec![]), None);
}

#[test]
fn bounds_of_first_standalone() {
    let exe = Executable {
        program: assembled(vec![], vec![]),
        entrypoints: vec![
            entry(10, EntryPointKind::Bootloader),
            entry(20, EntryPointKind::Standalone),
            entry(30, EntryPointKind::Standalone),
        ],
    };
    assert_eq!(program_bounds(&exe), Ok(ProgramBounds { entrypoint: 1, start: 20, end: 24 }));
}

#[test]
fn bounds_without_standalone() {
    let exe = Executable {
        program: assembled(vec![], vec![]),
        entrypoints: vec![entry(10, EntryPointKind::Bootloader)],
    };
    assert_eq!(program_bounds(&exe), Err(PlanError::NoStandaloneEntrypoint));
    assert_eq!(check_runnable(&exe), Err(PlanError::NoStandaloneEntrypoint));
}

#[test]
fn bounds_overflow() {
    let exe = Executable {
        program: assembled(vec![], vec![]),
        entrypoints: vec![entry(usize::MAX - 3, EntryPointKind::Standalone)],
    };
    assert_eq!(program_bounds(&exe), Err(PlanError::EntrypointOffsetOverflow));
    assert_eq!(check_runnable(&exe), Err(PlanError::EntrypointOffsetOverflow));
    let exe = Executable {
        program: assembled(vec![], vec![]),
        entrypoints: vec![entry(usize::MAX - 4, EntryPointKind::Standalone)],
    };
    assert_eq!(
        program_bounds(&exe),
        Ok(ProgramBounds { entrypoint: 0, start: usize::MAX - 4, end: usize::MAX })
    );
}

#[test]
fn hint_past_bytecode_is_refused() {
    let mut exe = tiny_executable();
    exe.program.hints = vec![(7, vec![alloc_hint(0)])];
    assert_eq!(check_runnable(&exe), Err(PlanError::HintPastBytecode));
    exe.program.hints = vec![(6, vec![alloc_hint(0)])];
    assert_eq!(check_runnable(&exe), Ok(()));
}

#[test]
fn tiny_executable_is_runnable() {
    assert_eq!(check_runnable(&tiny_executable()), Ok(()));
}

#[test]
fn bytecode_cells() {
    let data = bytecode_data(&tiny_bytecode());
    assert_eq!(data.len(), 7);
    assert_eq!(data[3], cairo_vm::types::relocatable::MaybeRelocatable::from(Felt252::from(4)));
}

#[test]
fn bytecode_integers_are_reduced_into_the_field() {
    let data = bytecode_data(&vec![BigInt::from(-1), BigInt::from(5)]);
    assert_eq!(data.len(), 2);
    assert_eq!(data[0], cairo_vm::types::relocatable::MaybeRelocatable::from(Felt252::from(-1)));
    assert_eq!(data[0], cairo_vm::types::relocatable::MaybeRelocatable::from(Felt252::MAX));
    assert_eq!(data[1], cairo_vm::types::relocatable::MaybeRelocatable::from(Felt252::from(5)));
}

#[test]
fn stwo_settings() {
    assert_eq!(
        stwo_run_settings(),
        RunSettings {
            trace_enabled: true,
            relocate_mem: true,
            layout: cairo_vm::types::layout_name::LayoutName::all_cairo_stwo,
            secure_run: None,
            allow_missing_builtins: None,
            disable_trace_padding: true,
            proof_mode: true,
        }
    );
}

#[test]
fn program_of_tiny_executable() {
    let mut exe = tiny_executable();
    exe.program.hints = vec![(6, vec![alloc_hint(0)])];
    exe.entrypoints[0].builtins = vec![BuiltinName::output];
    let (program, table) = program_and_hints_from_executable(&exe);
    assert_eq!(program.data_len(), 7);
    assert_eq!(program.builtins_len(), 1);
    assert_eq!(table.len(), 1);
    assert!(table.get(&alloc_hint(0).representing_string()).is_some());
}

#[test]
fn execute_tiny_executable() {
    let runner = execute(tiny_executable(), vec![Arg::Value(Felt252::from(100))]);
    assert!(runner.get_relocatable_trace().is_ok());
    assert!(runner.relocated_trace.as_ref().map_or(false, |t| !t.is_empty()));
    assert!(!runner.relocated_memory.is_empty());
}

#[test]
fn execute_ignores_the_arguments() {
    let a = execute(tiny_executable(), vec![]);
    let b = execute(tiny_executable(), vec![Arg::Value(Felt252::from(7))]);
    assert_eq!(a.relocated_memory, b.relocated_memory);
    assert_eq!(a.relocated_trace, b.relocated_trace);
}

#[test]
fn trace_gen_tiny_executable() {
    let input = trace_gen(tiny_executable(), vec![]);
    assert!(input.pc_count > 0);
    assert!(try_trace_gen(tiny_executable(), vec![]).is_ok());
}

fn broken_executable() -> Executable {
    let mut bytecode = tiny_bytecode();
    bytecode[2] = BigInt::from(u64::MAX);
    Executable {
        program: assembled(bytecode, vec![]),
        entrypoints: vec![entry(0, EntryPointKind::Standalone)],
    }
}

#[test]
fn execute_fails_on_an_invalid_instruction() {
    assert_eq!(check_runnable(&broken_executable()), Ok(()));
    assert!(try_execute(broken_executable(), vec![]).is_err());
}

#[test]
fn trace_gen_reports_a_failed_run() {
    assert!(try_trace_gen(broken_executable(), vec![]).is_err());
}

#[test]
fn trace_gen_agrees_across_calls_up_to_address_order() {
    let a = trace_gen(tiny_executable(), vec![]);
    let b = trace_gen(tiny_executable(), vec![Arg::Value(Felt252::from(3))]);
    assert_eq!(a.pc_count, b.pc_count);
    let mut pa = a.public_memory_addresses.clone();
    let mut pb = b.public_memory_addresses.clone();
    pa.sort();
    pb.sort();
    assert_eq!(pa, pb);
    assert!(!pa.is_empty());
}
