//! Execution, proving and verification of Cairo programs with Stwo, in a
//! form that runs in a browser.
//!
//! - `executable`: the executable form of a compiled program and the
//!   arguments of a run;
//! - `hints`: the hints of a program in the form the Cairo VM runs them;
//! - `program`: from an executable to a VM program, a run of it and the
//!   input of the prover;
//! - `pcs`: the parameters of the commitment scheme proofs are checked
//!   against;
//! - `verdicts`: verification of proofs;
//! - `entropy`: the deterministic byte stream handed to `getrandom`.
pub mod entropy;
pub mod executable;
pub mod hints;
pub mod pcs;
pub mod program;
pub mod verdicts;

pub use executable::{Arg, EntryPointKind, Executable, ExecutableEntryPoint};
pub use hints::{build_hints_dict, hint_to_hint_params};
pub use pcs::secure_pcs_config;
pub use program::{execute, program_and_hints_from_executable, trace_gen};
pub use verdicts::verify;
