//! The commands that measure compute units: a benchmark, simulated first.

use vstd::prelude::*;
use vstd::string::StringExecFns;

use crate::bytes;
use crate::client::common;
use crate::client::keys;
use crate::program::address;
use crate::program::dispatch;
use crate::program::system;
use crate::program::types;
use crate::program::types::{AccountMeta, Instruction};
use crate::text;

verus! {

/// `Bench`, which touches no account.
pub open spec fn bench_view(program: Seq<u8>, rounds: nat, heap_bytes: nat) -> types::InstructionView {
    types::InstructionView {
        program_id: program,
        accounts: seq![],
        data: seq![dispatch::TAG_BENCH] + bytes::le_bytes(rounds, 4) + bytes::le_bytes(
            heap_bytes,
            4,
        ),
    }
}

/// The instruction that runs the benchmark.
pub fn bench_instruction(program: &[u8; 32], rounds: u32, heap_bytes: u32) -> (r: Instruction)
    ensures
        r@ == bench_view(program@, rounds as nat, heap_bytes as nat),
{
    let accounts: Vec<AccountMeta> = Vec::new();
    let mut data: Vec<u8> = vec![dispatch::TAG_BENCH];
    bytes::push_u32(&mut data, rounds);
    bytes::push_u32(&mut data, heap_bytes);
    assert(types::metas(accounts@) =~= seq![]);
    common::instruction(program, accounts, data)
}

/// The mathematical values of a list of instructions.
pub open spec fn views(s: Seq<Instruction>) -> Seq<types::InstructionView> {
    Seq::new(s.len(), |i: int| s[i]@)
}

/// The instructions of a transaction: `ix`, and in front of it a limit on
/// compute units, if one is asked for.
pub open spec fn limited(limit: Option<u32>, ix: types::InstructionView) -> Seq<
    types::InstructionView,
> {
    match limit {
        Some(units) => seq![system::compute_unit_limit_view(units as nat), ix],
        None => seq![ix],
    }
}

/// The instructions of a transaction: `ix`, and in front of it a limit on
/// compute units, if one is asked for.
pub fn with_limit(limit: Option<u32>, ix: Instruction) -> (r: Vec<Instruction>)
    ensures
        views(r@) == limited(limit, ix@),
{
    let mut r: Vec<Instruction> = Vec::new();
    if let Some(units) = limit {
        r.push(system::set_compute_unit_limit(units));
    }
    r.push(ix);
    assert(views(r@) =~= limited(limit, ix@));
    r
}

/// What a simulation came to: compute units and the error, if there was one.
pub open spec fn simulation_text(units: Option<u64>, err: Option<Seq<char>>) -> Seq<char> {
    "simulation:\n  units_consumed: "@ + text::decimal(
        match units {
            Some(n) => n as nat,
            None => 0,
        },
    ) + "\n  err:            "@ + (match err {
        Some(e) => e,
        None => "(none)"@,
    }) + "\n\n"@
}

/// The first `n` lines of a program log.
pub open spec fn log_lines(logs: Seq<String>, n: nat) -> Seq<char>
    decreases n,
{
    if n == 0 {
        seq![]
    } else {
        log_lines(logs, (n - 1) as nat) + "  "@ + logs[n - 1]@ + "\n"@
    }
}

/// The program log of a simulation, if there is one.
pub open spec fn logs_text(logs: Option<Vec<String>>) -> Seq<char> {
    match logs {
        Some(v) => "program logs:\n"@ + log_lines(v@, v@.len()),
        None => seq![],
    }
}

/// What a simulation came to: compute units and the error, if there was one.
pub fn describe_simulation(units: Option<u64>, err: Option<&str>) -> (r: String)
    ensures
        r@ == simulation_text(units, keys::opt_text(err)),
{
    let n: u64 = match units {
        Some(n) => n,
        None => 0,
    };
    let mut r: String = "simulation:\n  units_consumed: ".to_owned();
    r.append(text::decimal_text(n as u128).as_str());
    r.append("\n  err:            ");
    match err {
        Some(e) => {
            r.append(e);
        },
        None => {
            r.append("(none)");
        },
    }
    r.append("\n\n");
    r
}

/// The program log of a simulation, if there is one.
pub fn describe_logs(logs: &Option<Vec<String>>) -> (r: String)
    ensures
        r@ == logs_text(*logs),
{
    match logs {
        Some(v) => {
            let mut lines: String = String::new();
            let mut i: usize = 0;
            while i < v.len()
                invariant
                    i <= v@.len(),
                    lines@ == log_lines(v@, i as nat),
                decreases v@.len() - i,
            {
                lines.append("  ");
                lines.append(v[i].as_str());
                lines.append("\n");
                i += 1;
            }
            let mut r: String = "program logs:\n".to_owned();
            r.append(lines.as_str());
            r
        },
        None => String::new(),
    }
}

/// What is printed about a simulation. A failed one is not sent. With `gap`,
/// an empty line stands in for a missing log.
pub open spec fn simulated_text(
    units: Option<u64>,
    err: Option<Seq<char>>,
    logs: Option<Vec<String>>,
    gap: bool,
) -> Seq<char> {
    simulation_text(units, err) + logs_text(logs) + (if gap || logs is Some {
        "\n"@
    } else {
        seq![]
    }) + (if err is Some {
        "(skipping on-chain send because simulation failed)\n"@
    } else {
        seq![]
    })
}

/// What to print about a simulation, and whether to send the transaction: only
/// if it passed.
pub fn after_simulation(
    units: Option<u64>,
    err: Option<&str>,
    logs: &Option<Vec<String>>,
    gap: bool,
) -> (r: (String, bool))
    ensures
        r.0@ == simulated_text(units, keys::opt_text(err), *logs, gap),
        r.1 == err is None,
{
    let mut rest: String = String::new();
    if err.is_some() {
        rest = "(skipping on-chain send because simulation failed)\n".to_owned();
    }
    let mut line: String = String::new();
    if gap || logs.is_some() {
        line = "\n".to_owned();
    }
    let mut r: String = describe_simulation(units, err);
    r.append(describe_logs(logs).as_str());
    r.append(line.as_str());
    r.append(rest.as_str());
    (r, err.is_none())
}

/// What is printed about a transaction that was sent: its signature, or why
/// it failed.
pub open spec fn sent_text(result: Result<Seq<char>, Seq<char>>) -> Seq<char> {
    match result {
        Ok(signature) => "on-chain signature: "@ + signature + "\n"@,
        Err(why) => "on-chain send failed (sim had passed): "@ + why + "\n"@,
    }
}

/// What is printed about a transaction that was sent.
pub fn after_send(result: Result<&str, &str>) -> (r: String)
    ensures
        r@ == sent_text(
            match result {
                Ok(signature) => Ok(signature@),
                Err(why) => Err(why@),
            },
        ),
{
    match result {
        Ok(signature) => {
            let mut r: String = "on-chain signature: ".to_owned();
            r.append(signature);
            r.append("\n");
            r
        },
        Err(why) => {
            let mut r: String = "on-chain send failed (sim had passed): ".to_owned();
            r.append(why);
            r.append("\n");
            r
        },
    }
}

/// What `bench` prints before it sends anything. `limit` is the limit on
/// compute units, in words.
pub open spec fn bench_header_text(
    rpc: Seq<char>,
    payer: Seq<u8>,
    program: Seq<u8>,
    rounds: nat,
    heap_bytes: nat,
    limit: Seq<char>,
) -> Seq<char> {
    "rpc:        "@ + rpc + "\npayer:      "@ + address::key_text(payer) + "\nprogram:    "@
        + address::key_text(program) + "\nrounds:     "@ + text::decimal(rounds) + "\nheap_bytes: "@
        + text::decimal(heap_bytes) + "\ncu_limit:   "@ + limit + "\n\n"@
}

/// What `bench` prints before it sends anything. `limit` is the limit on
/// compute units, in words.
pub fn bench_header(
    rpc: &str,
    payer: &[u8; 32],
    program: &[u8; 32],
    rounds: u32,
    heap_bytes: u32,
    limit: &str,
) -> (r: String)
    ensures
        r@ == bench_header_text(rpc@, payer@, program@, rounds as nat, heap_bytes as nat, limit@),
{
    let mut r: String = "rpc:        ".to_owned();
    r.append(rpc);
    r.append("\npayer:      ");
    r.append(address::show_key(payer).as_str());
    r.append("\nprogram:    ");
    r.append(address::show_key(program).as_str());
    r.append("\nrounds:     ");
    r.append(text::decimal_text(rounds as u128).as_str());
    r.append("\nheap_bytes: ");
    r.append(text::decimal_text(heap_bytes as u128).as_str());
    r.append("\ncu_limit:   ");
    r.append(limit);
    r.append("\n\n");
    r
}

} // verus!
