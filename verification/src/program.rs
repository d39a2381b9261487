//! From an executable to a Cairo VM program, a run of it, and the input of
//! the Stwo prover.
use vstd::prelude::*;

use crate::executable::{Arg, EntryPointKind, Executable, ExecutableEntryPoint};
use crate::hints::{build_hints_dict, is_hint_table_of, is_hints_dict_of, HintTable};
use cairo_vm::types::builtin_name::BuiltinName;
use cairo_vm::types::errors::program_errors::ProgramError;
use cairo_vm::types::program::Program;
use cairo_vm::types::relocatable::{MaybeRelocatable, Relocatable};
use cairo_vm::vm::errors::cairo_run_errors::CairoRunError;
use cairo_vm::types::layout_name::LayoutName;
use cairo_vm::serde::deserialize_program::HintParams;
use cairo_vm::vm::runners::cairo_runner::CairoRunner;
use cairo_vm::vm::trace::trace_entry::RelocatedTraceEntry;
use cairo_vm::Felt252;
use num_bigint::BigInt;
use std::collections::HashMap;
use stwo_cairo_adapter::ProverInput;

verus! {

broadcast use vstd::std_specs::hash::group_hash_axioms;

/// An address of the Cairo VM: a segment and an offset in it.
#[verifier::external_type_specification]
#[verifier::external_body]
pub struct ExRelocatable(Relocatable);

/// The error of address arithmetic of the Cairo VM.
#[verifier::external_type_specification]
#[verifier::external_body]
pub struct ExMathError(cairo_vm::types::errors::math_errors::MathError);

/// A value of a memory cell of the Cairo VM: an address or a field element.
#[verifier::external_type_specification]
pub struct ExMaybeRelocatable(MaybeRelocatable);

/// A layout of the Cairo VM: which builtins it has and in what ratios.
#[verifier::external_type_specification]
pub struct ExLayoutName(LayoutName);

/// A program the Cairo VM runs.
#[verifier::external_type_specification]
#[verifier::external_body]
pub struct ExProgram(Program);

/// The error of building a Cairo VM program.
#[verifier::external_type_specification]
#[verifier::external_body]
pub struct ExProgramError(ProgramError);

/// A finished (or failed) run of the Cairo VM.
#[verifier::external_type_specification]
#[verifier::external_body]
pub struct ExCairoRunner(CairoRunner);

/// The error of a run of the Cairo VM.
#[verifier::external_type_specification]
#[verifier::external_body]
pub struct ExCairoRunError(CairoRunError);

/// An entry of a relocated trace of the Cairo VM: its pc, ap and fp.
#[verifier::external_type_specification]
#[verifier::external_body]
pub struct ExRelocatedTraceEntry(RelocatedTraceEntry);

/// The state transitions of a Cairo run, grouped by opcode.
#[verifier::external_type_specification]
#[verifier::external_body]
pub struct ExStateTransitions(stwo_cairo_adapter::opcodes::StateTransitions);

/// The memory of a Cairo run as the Stwo prover takes it.
#[verifier::external_type_specification]
#[verifier::external_body]
pub struct ExAdapterMemory(stwo_cairo_adapter::memory::Memory);

/// The address ranges of the builtin segments of a Cairo run.
#[verifier::external_type_specification]
#[verifier::external_body]
pub struct ExBuiltinSegments(stwo_cairo_adapter::builtins::BuiltinSegments);

/// Which public segments a Cairo run's `main` takes.
#[verifier::external_type_specification]
#[verifier::external_body]
pub struct ExPublicSegmentContext(stwo_cairo_adapter::PublicSegmentContext);

/// The input of the Stwo prover for a Cairo run: its state transitions, its
/// memory, the number of distinct pcs, the public memory addresses, the
/// builtin segments and the public segment context.
#[verifier::external_type_specification]
pub struct ExProverInput(ProverInput);

/// The error type of the `anyhow` crate.
#[verifier::external_type_specification]
#[verifier::external_body]
pub struct ExAnyhowError(anyhow::Error);

/// Entrypoint `i` is the first standalone one.
pub open spec fn is_first_standalone(eps: Seq<ExecutableEntryPoint>, i: int) -> bool {
    &&& 0 <= i < eps.len()
    &&& eps[i].kind == EntryPointKind::Standalone
    &&& forall|k: int| 0 <= k < i ==> #[trigger] eps[k].kind != EntryPointKind::Standalone
}

/// Some entrypoint is standalone.
pub open spec fn has_standalone(eps: Seq<ExecutableEntryPoint>) -> bool {
    exists|i: int| 0 <= i < eps.len() && #[trigger] eps[i].kind == EntryPointKind::Standalone
}

/// The index of the first standalone entrypoint, if there is one.
pub fn first_standalone_entrypoint(entrypoints: &Vec<ExecutableEntryPoint>) -> (r: Option<usize>)
    ensures
        r matches Some(i) ==> is_first_standalone(entrypoints@, i as int),
        r is None <==> !has_standalone(entrypoints@),
{
    let n = entrypoints.len();
    let mut i: usize = 0;
    while i < n
        invariant
            n == entrypoints@.len(),
            i <= n,
            forall|k: int| 0 <= k < i ==> #[trigger] entrypoints@[k].kind != EntryPointKind::Standalone,
        decreases n - i,
    {
        if entrypoints[i].kind == EntryPointKind::Standalone {
            return Some(i);
        }
        i = i + 1;
    }
    None
}

/// Where a standalone run of a program starts and ends in its bytecode: at
/// the first standalone entrypoint, and four cells further (the `ap += n`
/// prologue and the final infinite loop of a standalone entrypoint).
#[derive(Debug, Clone, Copy, PartialEq, Eq, Structural)]
pub struct ProgramBounds {
    pub entrypoint: usize,
    pub start: usize,
    pub end: usize,
}

/// The bounds of a standalone run: entrypoint `i`, from its offset to four
/// cells further.
pub open spec fn is_bounds_of(b: ProgramBounds, eps: Seq<ExecutableEntryPoint>) -> bool {
    &&& is_first_standalone(eps, b.entrypoint as int)
    &&& b.start == eps[b.entrypoint as int].offset
    &&& b.end == eps[b.entrypoint as int].offset + 4
}

/// Why an executable cannot be run as a standalone program.
#[derive(Debug, Clone, Copy, PartialEq, Eq, Structural)]
pub enum PlanError {
    /// No entrypoint is standalone.
    NoStandaloneEntrypoint,
    /// The end of the run (four cells past the entrypoint) does not fit in
    /// an offset.
    EntrypointOffsetOverflow,
    /// A hint belongs to an instruction past the end of the bytecode.
    HintPastBytecode,
}

/// Every hint group of the program belongs to an instruction of its
/// bytecode.
pub open spec fn hints_within_bytecode(executable: Executable) -> bool {
    forall|j: int|
        0 <= j < executable.program.hints@.len() ==> #[trigger] executable.program.hints@[j].0
            < executable.program.bytecode@.len()
}

/// The executable can be run as a standalone program: it has a standalone
/// entrypoint, the end of the run fits in an offset, and its hints belong to
/// instructions of its bytecode.
pub open spec fn is_runnable(executable: Executable) -> bool {
    &&& has_standalone(executable.entrypoints@)
    &&& standalone_end_fits(executable.entrypoints@)
    &&& hints_within_bytecode(executable)
}

/// The end of a run from the first standalone entrypoint, four cells past
/// its offset, fits in an offset.
pub open spec fn standalone_end_fits(eps: Seq<ExecutableEntryPoint>) -> bool {
    forall|i: int| #[trigger] is_first_standalone(eps, i) ==> eps[i].offset + 4 <= usize::MAX
}

/// The bounds of a standalone run of the executable, or why there is none.
pub fn program_bounds(executable: &Executable) -> (r: Result<ProgramBounds, PlanError>)
    ensures
        r is Ok <==> has_standalone(executable.entrypoints@) && standalone_end_fits(
            executable.entrypoints@,
        ),
        r matches Ok(b) ==> is_bounds_of(b, executable.entrypoints@),
        r == Err::<ProgramBounds, PlanError>(PlanError::NoStandaloneEntrypoint) <==> !has_standalone(
            executable.entrypoints@,
        ),
        r == Err::<ProgramBounds, PlanError>(PlanError::EntrypointOffsetOverflow) <==> (has_standalone(
            executable.entrypoints@,
        ) && !standalone_end_fits(executable.entrypoints@)),
        r != Err::<ProgramBounds, PlanError>(PlanError::HintPastBytecode),
{
    match first_standalone_entrypoint(&executable.entrypoints) {
        None => Err(PlanError::NoStandaloneEntrypoint),
        Some(i) => {
            let offset = executable.entrypoints[i].offset;
            proof {
                lemma_first_standalone_unique(executable.entrypoints@, i as int);
            }
            if offset > usize::MAX - 4 {
                Err(PlanError::EntrypointOffsetOverflow)
            } else {
                Ok(ProgramBounds { entrypoint: i, start: offset, end: offset + 4 })
            }
        },
    }
}

/// There is at most one first standalone entrypoint.
proof fn lemma_first_standalone_unique(eps: Seq<ExecutableEntryPoint>, i: int)
    requires
        is_first_standalone(eps, i),
    ensures
        forall|k: int| #[trigger] is_first_standalone(eps, k) ==> k == i,
{
    assert forall|k: int| #[trigger] is_first_standalone(eps, k) implies k == i by {
        if k < i {
            assert(eps[k].kind != EntryPointKind::Standalone);
        }
        if i < k {
            assert(eps[i].kind != EntryPointKind::Standalone);
        }
    }
}

/// Whether the executable can be run as a standalone program, and if not,
/// why: no standalone entrypoint, then an end past the largest offset, then
/// a hint past the bytecode.
pub fn check_runnable(executable: &Executable) -> (r: Result<(), PlanError>)
    ensures
        r is Ok <==> is_runnable(*executable),
        r == Err::<(), PlanError>(PlanError::NoStandaloneEntrypoint) <==> !has_standalone(
            executable.entrypoints@,
        ),
        r == Err::<(), PlanError>(PlanError::EntrypointOffsetOverflow) <==> (has_standalone(
            executable.entrypoints@,
        ) && !standalone_end_fits(executable.entrypoints@)),
        r == Err::<(), PlanError>(PlanError::HintPastBytecode) <==> (has_standalone(
            executable.entrypoints@,
        ) && standalone_end_fits(executable.entrypoints@) && !hints_within_bytecode(*executable)),
{
    match program_bounds(executable) {
        Err(e) => Err(e),
        Ok(b) => {
            assert(executable.entrypoints@[b.entrypoint as int].kind == EntryPointKind::Standalone);
            let len = executable.program.bytecode.len();
            let n = executable.program.hints.len();
            let mut j: usize = 0;
            while j < n
                invariant
                    n == executable.program.hints@.len(),
                    len == executable.program.bytecode@.len(),
                    has_standalone(executable.entrypoints@),
                    is_bounds_of(b, executable.entrypoints@),
                    j <= n,
                    forall|k: int|
                        0 <= k < j ==> #[trigger] executable.program.hints@[k].0 < len,
                decreases n - j,
            {
                if executable.program.hints[j].0 >= len {
                    proof {
                        lemma_first_standalone_unique(executable.entrypoints@, b.entrypoint as int);
                    }
                    return Err(PlanError::HintPastBytecode);
                }
                j = j + 1;
            }
            proof {
                lemma_first_standalone_unique(executable.entrypoints@, b.entrypoint as int);
            }
            Ok(())
        },
    }
}

/// The field element an integer stands for, `Felt252::from(&BigInt)`: the
/// integer reduced modulo the field's prime.
pub uninterp spec fn felt_of(value: BigInt) -> Felt252;

/// The field element an integer stands for (`Felt252::from(&BigInt)`). The
/// claim is only that the result is `felt_of` of the integer; the reduction
/// itself is not stated.
#[verifier::external_body]
fn felt_from_bigint(value: &BigInt) -> (r: Felt252)
    ensures
        r == felt_of(*value),
{
    Felt252::from(value)
}

/// The cells of a bytecode: each integer as the field element it stands
/// for, in an integer cell.
pub open spec fn bytecode_cells(bytecode: Seq<BigInt>) -> Seq<MaybeRelocatable> {
    bytecode.map_values(|b: BigInt| MaybeRelocatable::Int(felt_of(b)))
}

/// The memory cells of a program's bytecode: each integer as a field
/// element (`Felt252::from`) in an integer cell (`MaybeRelocatable::from`,
/// which cairo-vm defines as the `Int` variant), in order.
pub fn bytecode_data(bytecode: &Vec<BigInt>) -> (r: Vec<MaybeRelocatable>)
    ensures
        r@ == bytecode_cells(bytecode@),
{
    let n = bytecode.len();
    let mut data: Vec<MaybeRelocatable> = Vec::new();
    let mut i: usize = 0;
    while i < n
        invariant
            n == bytecode@.len(),
            i <= n,
            data@.len() == i,
            forall|k: int| 0 <= k < i ==> #[trigger] data@[k] == MaybeRelocatable::Int(felt_of(bytecode@[k])),
        decreases n - i,
    {
        let felt = felt_from_bigint(&bytecode[i]);
        data.push(MaybeRelocatable::Int(felt));
        i = i + 1;
    }
    assert(data@ =~= bytecode_cells(bytecode@));
    data
}

/// The program `Program::new_for_proof` builds from builtins, bytecode
/// cells, the start and end of the run and the hints by offset, with no
/// references, identifiers, error attributes or instruction locations.
pub uninterp spec fn proof_mode_program(
    builtins: Seq<BuiltinName>,
    data: Seq<MaybeRelocatable>,
    start: usize,
    end: usize,
    hints: Map<usize, Vec<HintParams>>,
) -> Program;

/// Builds a program for a run in proof mode (`Program::new_for_proof`) from
/// its builtins, its bytecode cells, where the run starts and ends, and its
/// hints by offset; the program has no references, identifiers, error
/// attributes or instruction locations. The claims: the construction fails
/// exactly when some hint offset is not the offset of a bytecode cell (the
/// cairo-vm error `ProgramError::InvalidHintPc`), and the program it builds is
/// `proof_mode_program` of the arguments; what that program holds is not
/// stated.
#[verifier::external_body]
fn program_for_proof(
    builtins: Vec<BuiltinName>,
    data: Vec<MaybeRelocatable>,
    start: usize,
    end: usize,
    hints: HashMap<usize, Vec<HintParams>>,
) -> (r: Result<Program, ProgramError>)
    ensures
        r is Err <==> (exists|k: usize| hints@.contains_key(k) && k >= data@.len()),
        r matches Ok(p) ==> p == proof_mode_program(builtins@, data@, start, end, hints@),
{
    Program::new_for_proof(builtins, data, start, end, hints, Default::default(), Default::default(), vec![], None)
}

/// The program of a standalone run of the executable: the builtins of its
/// first standalone entrypoint, its bytecode as cells, the run from that
/// entrypoint's offset to four cells further, and a hints dictionary of its
/// hints.
pub open spec fn is_standalone_program_of(program: Program, executable: Executable) -> bool {
    exists|i: int, dict: Map<usize, Vec<HintParams>>|
        #[trigger] is_first_standalone(executable.entrypoints@, i) && #[trigger] is_hints_dict_of(
            dict,
            executable.program.hints@,
        ) && program == proof_mode_program(
            executable.entrypoints@[i].builtins@,
            bytecode_cells(executable.program.bytecode@),
            executable.entrypoints@[i].offset,
            (executable.entrypoints@[i].offset + 4) as usize,
            dict,
        )
}

/// Builds the Cairo VM program of a standalone run of the executable
/// (builtins of the first standalone entrypoint, the bytecode as memory
/// cells, the bounds of `program_bounds`, and the hints dictionary of
/// `build_hints_dict`), and returns it with the table from representing
/// strings to hints.
pub fn program_and_hints_from_executable(executable: &Executable) -> (r: (Program, HintTable))
    requires
        is_runnable(*executable),
    ensures
        is_standalone_program_of(r.0, *executable),
        forall|b: ProgramBounds| #[trigger]
            is_bounds_of(b, executable.entrypoints@) ==> runs_over_bounds(r.0, *executable, b),
        r.1.wf(),
        is_hint_table_of(r.1.spec_map(), executable.program.hints@),
{
    let data = bytecode_data(&executable.program.bytecode);
    let (hints, string_to_hint) = build_hints_dict(&executable.program.hints);
    let planned = program_bounds(executable);
    let bounds = planned.unwrap();
    let builtins = executable.entrypoints[bounds.entrypoint].builtins.clone();
    proof {
        assert forall|k: usize| hints@.contains_key(k) implies k < data@.len() by {
            let j = choose|j: int|
                0 <= j < executable.program.hints@.len() && #[trigger] executable.program.hints@[j].0 == k;
        }
        assert(builtins@ =~= executable.entrypoints@[bounds.entrypoint as int].builtins@);
        assert(data@ =~= bytecode_cells(executable.program.bytecode@));
    }
    let ghost dict = hints@;
    let program = program_for_proof(builtins, data, bounds.start, bounds.end, hints).unwrap();
    proof {
        assert(is_first_standalone(executable.entrypoints@, bounds.entrypoint as int));
        assert(is_hints_dict_of(dict, executable.program.hints@));
        lemma_first_standalone_unique(executable.entrypoints@, bounds.entrypoint as int);
        assert(runs_over_bounds(program, *executable, bounds));
    }
    (program, string_to_hint)
}

/// The program runs over the bounds `b`: from `b.start` to `b.end`, with the
/// builtins of entrypoint `b.entrypoint`, the bytecode as cells and a hints
/// dictionary of the executable's hints.
pub open spec fn runs_over_bounds(program: Program, executable: Executable, b: ProgramBounds) -> bool {
    exists|dict: Map<usize, Vec<HintParams>>|
        #[trigger] is_hints_dict_of(dict, executable.program.hints@) && program == proof_mode_program(
            executable.entrypoints@[b.entrypoint as int].builtins@,
            bytecode_cells(executable.program.bytecode@),
            b.start,
            b.end,
            dict,
        )
}

/// A program of a standalone run starts at the first standalone
/// entrypoint and ends four cells past it, at the infinite loop that closes
/// a standalone entrypoint: it runs over the bounds that `program_bounds`
/// gives, whose end is four past their start.
pub proof fn lemma_standalone_program_ends_at_final_loop(
    program: Program,
    executable: Executable,
    b: ProgramBounds,
)
    requires
        is_standalone_program_of(program, executable),
        is_bounds_of(b, executable.entrypoints@),
    ensures
        runs_over_bounds(program, executable, b),
        b.start == executable.entrypoints@[b.entrypoint as int].offset,
        b.end == b.start + 4,
{
    let eps = executable.entrypoints@;
    let (i, dict) = choose|i: int, dict: Map<usize, Vec<HintParams>>|
        #[trigger] is_first_standalone(eps, i) && #[trigger] is_hints_dict_of(
            dict,
            executable.program.hints@,
        ) && program == proof_mode_program(
            eps[i].builtins@,
            bytecode_cells(executable.program.bytecode@),
            eps[i].offset,
            (eps[i].offset + 4) as usize,
            dict,
        );
    lemma_first_standalone_unique(eps, i);
    assert(is_hints_dict_of(dict, executable.program.hints@));
}

/// The settings of a run of the Cairo VM that this library chooses; the
/// others keep the VM's defaults (entrypoint `main`, trace relocated, holes
/// not filled, no dynamic layout parameters).
#[derive(Debug, Clone, Copy, PartialEq, Eq)]
pub struct RunSettings {
    pub trace_enabled: bool,
    pub relocate_mem: bool,
    pub layout: LayoutName,
    pub secure_run: Option<bool>,
    pub allow_missing_builtins: Option<bool>,
    pub disable_trace_padding: bool,
    pub proof_mode: bool,
}

/// The settings of a run whose trace Stwo proves: trace recorded and memory
/// relocated, the `all_cairo_stwo` layout, proof mode without trace
/// padding, and the VM's defaults for secure runs and missing builtins.
pub open spec fn spec_stwo_run_settings() -> RunSettings {
    RunSettings {
        trace_enabled: true,
        relocate_mem: true,
        layout: LayoutName::all_cairo_stwo,
        secure_run: None,
        allow_missing_builtins: None,
        disable_trace_padding: true,
        proof_mode: true,
    }
}

/// The settings of a run whose trace Stwo proves.
pub fn stwo_run_settings() -> (r: RunSettings)
    ensures
        r == spec_stwo_run_settings(),
{
    RunSettings {
        trace_enabled: true,
        relocate_mem: true,
        layout: LayoutName::all_cairo_stwo,
        secure_run: None,
        allow_missing_builtins: None,
        disable_trace_padding: true,
        proof_mode: true,
    }
}

/// What a run of a program on the Cairo VM under the given settings, with a
/// fresh hint processor for the VM's builtin hints, comes to: whether the
/// run returns normally (it neither runs forever, as nothing limits its
/// steps, nor panics on the program), whether it succeeds, and the
/// relocated trace and relocated memory of the runner it ends with. A
/// function of the program and the settings: the VM walks no hash map to
/// make its trace or memory, and its one random choice, in square roots
/// modulo a prime, is seeded with a constant.
pub uninterp spec fn vm_run(program: Program, settings: RunSettings) -> (
    bool,
    bool,
    Option<Seq<RelocatedTraceEntry>>,
    Seq<Option<Felt252>>,
);

/// The run returns normally.
pub open spec fn run_returns(run: (bool, bool, Option<Seq<RelocatedTraceEntry>>, Seq<Option<Felt252>>)) -> bool {
    run.0
}

/// The run succeeds.
pub open spec fn run_succeeds(run: (bool, bool, Option<Seq<RelocatedTraceEntry>>, Seq<Option<Felt252>>)) -> bool {
    run.1
}

/// What a runner holds that this library speaks of: whether it kept the
/// VM's trace (`get_relocatable_trace` succeeds), its relocated trace
/// (`relocated_trace`) and its relocated memory (`relocated_memory`).
pub uninterp spec fn runner_record(runner: CairoRunner) -> (
    bool,
    Option<Seq<RelocatedTraceEntry>>,
    Seq<Option<Felt252>>,
);

/// Runs a program on the Cairo VM (`cairo_vm::cairo_run::cairo_run_program`)
/// with the given settings, converted field for field into a
/// `CairoRunConfig` whose other fields are the VM's defaults, and a fresh
/// hint processor for the VM's builtin hints
/// (`BuiltinHintProcessor::new_empty`, which sets no step limit). The run is
/// made only where it returns normally. The claims: it succeeds exactly when
/// the run `vm_run` of the program and settings does; the runner keeps the
/// VM's trace exactly when the settings enable it and holds that run's
/// relocated trace and memory; a kept trace is relocated (cairo-vm relocates
/// it after every successful run, `relocate_trace` being on by default);
/// relocated memory, when the settings ask for it, starts with the unused
/// address 0 and so is never empty. Which runs return or succeed, and what
/// their traces hold, is not stated.
#[verifier::external_body]
fn run_program(program: &Program, settings: &RunSettings) -> (r: Result<CairoRunner, CairoRunError>)
    requires
        run_returns(vm_run(*program, *settings)),
    ensures
        r is Ok <==> run_succeeds(vm_run(*program, *settings)),
        r matches Ok(runner) ==> runner_record(runner) == (
            settings.trace_enabled,
            vm_run(*program, *settings).2,
            vm_run(*program, *settings).3,
        ),
        r matches Ok(runner) ==> (settings.trace_enabled ==> runner_record(runner).1 is Some),
        r matches Ok(runner) ==> (settings.relocate_mem ==> runner_record(runner).2.len() > 0),
{
    let mut hint_processor = cairo_vm::hint_processor::builtin_hint_processor::builtin_hint_processor_definition::BuiltinHintProcessor::new_empty();
    let config = cairo_vm::cairo_run::CairoRunConfig {
        trace_enabled: settings.trace_enabled,
        relocate_mem: settings.relocate_mem,
        layout: settings.layout,
        secure_run: settings.secure_run,
        allow_missing_builtins: settings.allow_missing_builtins,
        disable_trace_padding: settings.disable_trace_padding,
        proof_mode: settings.proof_mode,
        ..Default::default()
    };
    cairo_vm::cairo_run::cairo_run_program(program, &config, &mut hint_processor)
}

/// `runner` is what a run of `program` with the settings of
/// `stwo_run_settings` ends with: it kept the trace, and holds that run's
/// relocated trace, which is present, and its relocated memory, which is
/// not empty.
pub open spec fn is_stwo_run_of(runner: CairoRunner, program: Program) -> bool {
    let run = vm_run(program, spec_stwo_run_settings());
    &&& runner_record(runner) == (true, run.2, run.3)
    &&& run.2 is Some
    &&& run.3.len() > 0
}

/// Every standalone program of the executable returns when run with the
/// settings of `stwo_run_settings`.
pub open spec fn standalone_runs_return(executable: Executable) -> bool {
    forall|program: Program| #[trigger]
        is_standalone_program_of(program, executable) ==> run_returns(
            vm_run(program, spec_stwo_run_settings()),
        )
}

/// Every standalone program of the executable runs successfully with the
/// settings of `stwo_run_settings`.
pub open spec fn standalone_runs_succeed(executable: Executable) -> bool {
    forall|program: Program| #[trigger]
        is_standalone_program_of(program, executable) ==> run_succeeds(
            vm_run(program, spec_stwo_run_settings()),
        )
}

/// Executes a Cairo program as a standalone program, with the settings of
/// `stwo_run_settings` and a hint processor for the VM's builtin hints:
/// the program of `program_and_hints_from_executable` is run, and the
/// result says whether that run failed or gives the runner it ended with.
/// The arguments are not passed to the program.
pub fn try_execute(executable: Executable, _args: Vec<Arg>) -> (r: Result<CairoRunner, CairoRunError>)
    requires
        is_runnable(executable),
        standalone_runs_return(executable),
    ensures
        exists|program: Program|
            #[trigger] is_standalone_program_of(program, executable) && (r is Ok <==> run_succeeds(
                vm_run(program, spec_stwo_run_settings()),
            )) && (r matches Ok(runner) ==> is_stwo_run_of(runner, program)),
{
    let (program, _string_to_hint) = program_and_hints_from_executable(&executable);
    let settings = stwo_run_settings();
    let r = run_program(&program, &settings);
    assert(is_standalone_program_of(program, executable));
    r
}

/// Executes a Cairo program as a standalone program and returns the runner
/// that holds what the prover needs: the runner of the run of the program
/// of `program_and_hints_from_executable` with the settings of
/// `stwo_run_settings`. The arguments are not passed to the program.
pub fn execute(executable: Executable, args: Vec<Arg>) -> (r: CairoRunner)
    requires
        is_runnable(executable),
        standalone_runs_return(executable),
        standalone_runs_succeed(executable),
    ensures
        exists|program: Program|
            #[trigger] is_standalone_program_of(program, executable) && is_stwo_run_of(r, program),
{
    let outcome = try_execute(executable, args);
    match outcome {
        Ok(runner) => runner,
        Err(_) => {
            proof {
                let program = choose|program: Program|
                    #[trigger] is_standalone_program_of(program, executable) && (outcome is Ok
                        <==> run_succeeds(vm_run(program, spec_stwo_run_settings())));
                assert(run_succeeds(vm_run(program, spec_stwo_run_settings())));
            }
            unreached()
        },
    }
}

/// Whether `stwo_cairo_adapter::adapter::adapt` returns on a runner, rather
/// than failing one of its assertions on it (ecdsa or keccak builtin
/// segments, builtin segments that are not a whole number of instances or
/// hold holes, public memory offsets outside their segments, states outside
/// the address space).
pub uninterp spec fn adapter_returns(runner: CairoRunner) -> bool;

/// What the adapter makes of a runner, in every part whose value does not
/// depend on the order of a hash-map walk: the state transitions, the
/// memory, the number of distinct pcs, the public memory addresses counted
/// as a multiset (the adapter lists them in the order in which it walks the
/// runner's hash map of public memory offsets), the builtin segments and the
/// public segment context. A function of the runner.
pub uninterp spec fn adapted_parts(runner: CairoRunner) -> (
    stwo_cairo_adapter::opcodes::StateTransitions,
    stwo_cairo_adapter::memory::Memory,
    usize,
    vstd::multiset::Multiset<u32>,
    stwo_cairo_adapter::builtins::BuiltinSegments,
    stwo_cairo_adapter::PublicSegmentContext,
);

/// The parts of a prover input that `adapted_parts` speaks of.
pub open spec fn input_parts(input: ProverInput) -> (
    stwo_cairo_adapter::opcodes::StateTransitions,
    stwo_cairo_adapter::memory::Memory,
    usize,
    vstd::multiset::Multiset<u32>,
    stwo_cairo_adapter::builtins::BuiltinSegments,
    stwo_cairo_adapter::PublicSegmentContext,
) {
    (
        input.state_transitions,
        input.memory,
        input.pc_count,
        input.public_memory_addresses@.to_multiset(),
        input.builtin_segments,
        input.public_segment_context,
    )
}

/// Adapts a finished run into the input of the Stwo prover
/// (`stwo_cairo_adapter::adapter::adapt`), on a runner on which the adapter
/// returns. The claims: it fails exactly when the runner did not keep the
/// VM's trace (the adapter's one error), and the input it makes agrees with
/// `adapted_parts` of the runner; the order of the public memory addresses
/// is not stated, nor what the parts hold, nor on which runners the adapter
/// returns.
#[verifier::external_body]
fn adapt_runner(runner: &CairoRunner) -> (r: Result<ProverInput, anyhow::Error>)
    requires
        adapter_returns(*runner),
    ensures
        r is Ok <==> runner_record(*runner).0,
        r is Ok ==> adapter_returns(*runner),
        r matches Ok(input) ==> input_parts(input) == adapted_parts(*runner),
{
    stwo_cairo_adapter::adapter::adapt(runner)
}

/// `input` is, up to the order of its public memory addresses, what the
/// adapter makes of the runner of a run of `program` with the settings of
/// `stwo_run_settings`.
pub open spec fn is_stwo_input_of(input: ProverInput, program: Program) -> bool {
    exists|runner: CairoRunner|
        #[trigger] is_stwo_run_of(runner, program) && input_parts(input) == adapted_parts(runner)
}

/// The adapter returns on every runner that a run of a standalone program
/// of the executable with the settings of `stwo_run_settings` ends with.
pub open spec fn standalone_runs_adapt(executable: Executable) -> bool {
    forall|program: Program, runner: CairoRunner|
        #[trigger] is_standalone_program_of(program, executable) && #[trigger] is_stwo_run_of(
            runner,
            program,
        ) ==> adapter_returns(runner)
}

/// Runs the executable and adapts the run into the input of the Stwo
/// prover; it fails exactly when the run of the program of
/// `program_and_hints_from_executable` fails. The adapter never fails here:
/// the run keeps its trace. The input is known up to the order of its
/// public memory addresses.
pub fn try_trace_gen(executable: Executable, args: Vec<Arg>) -> (r: Result<ProverInput, CairoRunError>)
    requires
        is_runnable(executable),
        standalone_runs_return(executable),
        standalone_runs_adapt(executable),
    ensures
        exists|program: Program|
            #[trigger] is_standalone_program_of(program, executable) && (r is Ok <==> run_succeeds(
                vm_run(program, spec_stwo_run_settings()),
            )) && (r matches Ok(input) ==> is_stwo_input_of(input, program)),
{
    let outcome = try_execute(executable, args);
    let ghost program = choose|program: Program|
        #[trigger] is_standalone_program_of(program, executable) && (outcome is Ok <==> run_succeeds(
            vm_run(program, spec_stwo_run_settings()),
        )) && (outcome matches Ok(runner) ==> is_stwo_run_of(runner, program));
    match outcome {
        Err(e) => Err(e),
        Ok(runner) => {
            assert(adapter_returns(runner));
            let adapted = adapt_runner(&runner);
            match adapted {
                Ok(input) => {
                    assert(is_stwo_input_of(input, program));
                    Ok(input)
                },
                Err(_) => {
                    unreached()
                },
            }
        },
    }
}

/// Runs the executable and adapts the run into the input of the Stwo
/// prover: the input the adapter makes of the runner of the run of the
/// program of `program_and_hints_from_executable` with the settings of
/// `stwo_run_settings`, up to the order of its public memory addresses.
pub fn trace_gen(executable: Executable, args: Vec<Arg>) -> (r: ProverInput)
    requires
        is_runnable(executable),
        standalone_runs_return(executable),
        standalone_runs_succeed(executable),
        standalone_runs_adapt(executable),
    ensures
        exists|program: Program|
            #[trigger] is_standalone_program_of(program, executable) && is_stwo_input_of(r, program),
{
    let outcome = try_trace_gen(executable, args);
    match outcome {
        Ok(input) => input,
        Err(_) => {
            proof {
                let program = choose|program: Program|
                    #[trigger] is_standalone_program_of(program, executable) && (outcome is Ok
                        <==> run_succeeds(vm_run(program, spec_stwo_run_settings())));
                assert(run_succeeds(vm_run(program, spec_stwo_run_settings())));
            }
            unreached()
        },
    }
}

} // verus!
