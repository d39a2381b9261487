//! The executable form of a compiled Cairo program, and the arguments of a
//! run.
use vstd::prelude::*;

use cairo_lang_casm::assembler::AssembledCairoProgram;
use cairo_lang_casm::hints::Hint;
use cairo_vm::types::builtin_name::BuiltinName;
use cairo_vm::Felt252;
use num_bigint::BigInt;

verus! {

/// An element of the field of Cairo.
#[verifier::external_type_specification]
#[verifier::external_body]
pub struct ExFelt252(Felt252);

/// A builtin of the Cairo VM (output, range check, Pedersen, ...).
#[verifier::external_type_specification]
#[verifier::external_body]
pub struct ExBuiltinName(BuiltinName);

/// Copies a builtin name. `BuiltinName` is a fieldless enum that derives
/// `Copy` and `Clone`, so the copy is claimed to equal the name copied.
pub assume_specification[ <BuiltinName as core::clone::Clone>::clone ](name: &BuiltinName) -> (r: BuiltinName)
    ensures
        r == *name,
;

/// A hint of compiled Cairo code.
#[verifier::external_type_specification]
#[verifier::external_body]
pub struct ExHint(Hint);

/// An integer of arbitrary size.
#[verifier::external_type_specification]
#[verifier::external_body]
pub struct ExBigInt(BigInt);

/// A program as the Cairo assembler emits it: its bytecode, as integers,
/// and its hints, grouped by the index of the instruction they belong to.
#[verifier::external_type_specification]
pub struct ExAssembledCairoProgram(AssembledCairoProgram);

/// The kind of an entrypoint.
#[derive(Debug, Clone, Copy, PartialEq, Eq, Structural)]
pub enum EntryPointKind {
    /// Entrypoint is for running it using a bootloader.
    ///
    /// The entrypoint is a function, ending with a `ret`, expecting the
    /// builtins as its parameters.
    Bootloader,
    /// Entrypoint is for running this executable as a standalone program.
    ///
    /// The entrypoint starts with `ap += <builtins.len()>` and expects the
    /// builtins to be injected there, and ends with an infinite loop.
    Standalone,
}

/// Information about an executable entrypoint.
#[derive(Debug)]
pub struct ExecutableEntryPoint {
    /// The used builtins of the function.
    pub builtins: Vec<BuiltinName>,
    /// The offset of the entrypoint in the bytecode.
    pub offset: usize,
    /// The kind of the entrypoint.
    pub kind: EntryPointKind,
}

/// The executable representation of a program.
#[derive(Debug)]
pub struct Executable {
    /// The bytecode of the program.
    pub program: AssembledCairoProgram,
    /// The available entrypoints for the program.
    pub entrypoints: Vec<ExecutableEntryPoint>,
}

/// Clones a hint. `Hint`'s `Clone` is derived, over enums and structs of
/// plain data (cells, operands, big integers), so the clone is claimed to
/// equal the hint cloned.
pub assume_specification[ <Hint as core::clone::Clone>::clone ](hint: &Hint) -> (r: Hint)
    ensures
        r == *hint,
;

/// The representing string of a hint: its `Debug` text, a function of the
/// hint alone.
pub uninterp spec fn representing_string(hint: Hint) -> Seq<char>;

/// The representing string of a hint (`Hint::representing_string`, which
/// formats the hint with its derived `Debug`). The claim is only that the
/// string is `representing_string` of the hint; its text is not stated.
#[verifier::external_body]
pub(crate) fn hint_representing_string(hint: &Hint) -> (r: String)
    ensures
        r@ == representing_string(*hint),
{
    hint.representing_string()
}

/// An argument to a Sierra function run.
#[derive(Debug)]
pub enum Arg {
    Value(Felt252),
    Array(Vec<Arg>),
}

/// The size of an argument in the VM: one cell for a value, two (start and
/// end pointers) for an array.
pub open spec fn spec_arg_size(arg: Arg) -> nat {
    match arg {
        Arg::Value(_) => 1,
        Arg::Array(_) => 2,
    }
}

impl Arg {
    /// Returns the size of the argument in the vm.
    pub fn size(&self) -> (r: usize)
        ensures
            r == spec_arg_size(*self),
            self is Value ==> r == 1,
            self is Array ==> r == 2,
    {
        match self {
            Arg::Value(_) => 1,
            Arg::Array(_) => 2,
        }
    }
}

impl From<Felt252> for Arg {
    fn from(value: Felt252) -> (r: Self) {
        Arg::Value(value)
    }
}

impl vstd::std_specs::convert::FromSpecImpl<Felt252> for Arg {
    open spec fn obeys_from_spec() -> bool {
        true
    }

    open spec fn from_spec(v: Felt252) -> Self {
        Arg::Value(v)
    }
}

/// An argument made from a single field element takes one cell.
pub proof fn lemma_value_arg_size(v: Felt252)
    ensures
        spec_arg_size(<Arg as vstd::std_specs::convert::FromSpec<Felt252>>::from_spec(v)) == 1,
{
}

/// A value takes one cell and an array two (its start and end pointers),
/// whatever its elements: the size of an array does not depend on how many
/// elements it has or what they are.
pub proof fn lemma_arg_sizes(value: Felt252, elements: Vec<Arg>, other: Vec<Arg>)
    ensures
        spec_arg_size(Arg::Value(value)) == 1,
        spec_arg_size(Arg::Array(elements)) == 2,
        spec_arg_size(Arg::Array(elements)) == spec_arg_size(Arg::Array(other)),
{
}

} // verus!
