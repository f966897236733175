//! The command for the program-wide counter.

use vstd::prelude::*;
use vstd::string::StringExecFns;

use crate::client::common;
use crate::program::address;
use crate::program::dispatch;
use crate::program::types;
use crate::program::types::{AccountMeta, Instruction};
use crate::text;

verus! {

/// `CreateStats` or `BumpStats` for the derived address `stats`.
pub open spec fn stats_view(
    init: bool,
    program: Seq<u8>,
    payer: Seq<u8>,
    stats: Seq<u8>,
) -> types::InstructionView {
    if init {
        types::InstructionView {
            program_id: program,
            accounts: seq![
                types::writable(payer, true),
                types::writable(stats, false),
                types::readonly(address::SYSTEM_PROGRAM_ID@, false),
            ],
            data: seq![dispatch::TAG_CREATE_STATS],
        }
    } else {
        types::InstructionView {
            program_id: program,
            accounts: seq![types::writable(stats, false)],
            data: seq![dispatch::TAG_BUMP_STATS],
        }
    }
}

/// The instruction that creates the counter, or counts up.
pub fn stats_instruction(init: bool, program: &[u8; 32], payer: &[u8; 32], stats: &[u8; 32]) -> (r:
    Instruction)
    ensures
        r@ == stats_view(init, program@, payer@, stats@),
{
    if init {
        let accounts: Vec<AccountMeta> = vec![
            AccountMeta::new(*payer, true),
            AccountMeta::new(*stats, false),
            AccountMeta::new_readonly(address::SYSTEM_PROGRAM_ID, false),
        ];
        let data: Vec<u8> = vec![dispatch::TAG_CREATE_STATS];
        let r: Instruction = common::instruction(program, accounts, data);
        assert(r@ =~= stats_view(init, program@, payer@, stats@));
        r
    } else {
        let accounts: Vec<AccountMeta> = vec![AccountMeta::new(*stats, false)];
        let data: Vec<u8> = vec![dispatch::TAG_BUMP_STATS];
        let r: Instruction = common::instruction(program, accounts, data);
        assert(r@ =~= stats_view(init, program@, payer@, stats@));
        r
    }
}

/// The address of the counter of a program, and its bump.
pub fn stats_address(program: &[u8; 32]) -> (r: Option<([u8; 32], u8)>)
    ensures
        address::derived(r) == address::program_address(seq![address::STATS_SEED@], program@),
{
    address::derive_from_seed(&address::STATS_SEED, program)
}

/// What the command does, in words.
pub open spec fn stats_mode(init: bool) -> Seq<char> {
    if init {
        "CreateStats (init)"@
    } else {
        "BumpStats"@
    }
}

/// What the command does, in words.
pub fn stats_mode_words(init: bool) -> (r: String)
    ensures
        r@ == stats_mode(init),
{
    if init {
        "CreateStats (init)".to_owned()
    } else {
        "BumpStats".to_owned()
    }
}

/// What `stats` prints before it sends anything.
pub open spec fn stats_header_text(
    rpc: Seq<char>,
    payer: Seq<u8>,
    program: Seq<u8>,
    stats: Seq<u8>,
    bump: nat,
    mode: Seq<char>,
) -> Seq<char> {
    "rpc:        "@ + rpc + "\npayer:      "@ + address::key_text(payer) + "\nprogram:    "@
        + address::key_text(program) + "\nstats PDA:  "@ + address::key_text(stats) + "  (bump "@
        + text::decimal(bump) + ")\nmode:       "@ + mode + "\n\n"@
}

/// What `stats` prints before it sends anything.
pub fn stats_header(
    rpc: &str,
    payer: &[u8; 32],
    program: &[u8; 32],
    stats: &[u8; 32],
    bump: u8,
    mode: &str,
) -> (r: String)
    ensures
        r@ == stats_header_text(rpc@, payer@, program@, stats@, bump as nat, mode@),
{
    let mut r: String = "rpc:        ".to_owned();
    r.append(rpc);
    r.append("\npayer:      ");
    r.append(address::show_key(payer).as_str());
    r.append("\nprogram:    ");
    r.append(address::show_key(program).as_str());
    r.append("\nstats PDA:  ");
    r.append(address::show_key(stats).as_str());
    r.append("  (bump ");
    r.append(text::decimal_text(bump as u128).as_str());
    r.append(")\nmode:       ");
    r.append(mode);
    r.append("\n\n");
    r
}

/// The counter, as it stands.
pub open spec fn describe_stats_text(market_count: nat, bump: nat) -> Seq<char> {
    "\nstats post-state:\n  market_count: "@ + text::decimal(market_count) + "\n  bump:         "@
        + text::decimal(bump) + "\n"@
}

/// The counter, as it stands.
pub fn describe_stats(market_count: u64, bump: u8) -> (r: String)
    ensures
        r@ == describe_stats_text(market_count as nat, bump as nat),
{
    let mut r: String = "\nstats post-state:\n  market_count: ".to_owned();
    r.append(text::decimal_text(market_count as u128).as_str());
    r.append("\n  bump:         ");
    r.append(text::decimal_text(bump as u128).as_str());
    r.append("\n");
    r
}

} // verus!
