# stwo_web_stark

Execution and verification of Cairo programs with Stwo, in a form meant to
run in a browser, written in Verus: the library under `src/` carries
`requires` / `ensures` contracts that Verus proves.

- `src/executable.rs`: the executable form of a compiled program (bytecode,
  hints and entrypoints) and the arguments of a run.
- `src/hints.rs`: the hints dictionary the Cairo VM runs a program with, and
  the table from representing strings back to hints.
- `src/program.rs`: which executables can be run standalone, the Cairo VM
  program of such a run, the run itself and the prover's input.
- `src/pcs.rs`: the commitment-scheme configuration proofs are checked
  against.
- `src/verdicts.rs`: reading proofs and deciding whether they are accepted.
- `src/entropy.rs`: the deterministic byte stream handed to `getrandom`.
- `tests/`: tests of the library on concrete values.
- `app/`: the JSON surface, the wasm hooks, and the prover, which the
  library does not hold.
