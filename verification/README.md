# openhl

A perpetual-futures sandbox on Solana, written in Verus: account layouts, the
on-chain program, the client commands and a scenario runner, each function with
a contract that Verus proves.

## Layout

- `src/state/`: the accounts as bytes. Every type says which byte sequences lay
  it out, and a value and its bytes determine each other.
- `src/program/`: the program. `process_instruction` takes the accounts and the
  instruction data and answers with the steps that carry the instruction out,
  log lines among them, or with an error and the line that is logged before it.
  `laws.rs` holds what is true of every answer.
- `src/client/`: what the commands derive, build and print. `laws.rs` shows that
  the program accepts the instructions that the commands build.
- `src/scenario/`: the two demos, the checks, and the runner of scenario files.
- `src/bytes.rs`, `src/text.rs`, `src/split.rs`: little-endian integers and text.
- `tests/`: the library on concrete values.
- `app/`: the `openhl` binary and the program's entry point: arguments, files,
  child processes, RPC, JSON and amounts in SOL.

## What is not proved

Calls into other crates and into parts of the standard library stand in small
functions marked `#[verifier::external_body]`, and one `assume_specification`.
The comment above each says what is taken for granted: address derivation and
SHA-256, the System and Compute Budget instructions, base-58 keys, UTF-8
decoding and quoting. Nothing in `app/` is verified.
