//! The command for funding accumulators.

use vstd::prelude::*;
use vstd::string::StringExecFns;

use crate::bytes;
use crate::client::book;
use crate::client::common;
use crate::client::keys;
use crate::client::keys::ClientError;
use crate::client::tags;
use crate::program::address;
use crate::program::types;
use crate::program::types::Instruction;
use crate::state::FundingState;
use crate::text;

verus! {

/// The options of `funding` that say what to do.
#[derive(Debug, Clone, Copy)]
pub struct FundingArgs {
    pub init: bool,
    pub window_seconds: u64,
    pub update: bool,
    pub rate: Option<i64>,
}

/// What `funding` asks of the program.
pub open spec fn funding_request(
    args: FundingArgs,
    program: Seq<u8>,
    payer: Seq<u8>,
    market: Seq<u8>,
    funding: Seq<u8>,
) -> keys::Request {
    if args.init && args.update {
        Err(keys::usage("--init and --update are mutually exclusive"@))
    } else if args.init {
        Ok(
            Some(
                types::InstructionView {
                    program_id: program,
                    accounts: book::creation_accounts(payer, market, funding),
                    data: book::amount_data(
                        tags::CREATE_FUNDING_STATE,
                        args.window_seconds as nat,
                    ),
                },
            ),
        )
    } else if args.update {
        match args.rate {
            None => Err(keys::usage("--rate required"@)),
            Some(rate) => Ok(
                Some(
                    types::InstructionView {
                        program_id: program,
                        accounts: book::signer_and_account(payer, funding),
                        data: book::amount_data(
                            tags::UPDATE_FUNDING,
                            bytes::twos_complement(rate as int, 8),
                        ),
                    },
                ),
            ),
        }
    } else {
        Ok(None)
    }
}

/// What `funding` asks of the program; nothing if it only shows the state.
pub fn funding_instruction(
    args: &FundingArgs,
    program: &[u8; 32],
    payer: &[u8; 32],
    market: &[u8; 32],
    funding: &[u8; 32],
) -> (r: Result<Option<Instruction>, ClientError>)
    ensures
        keys::request(r) == funding_request(*args, program@, payer@, market@, funding@),
{
    if args.init && args.update {
        return Err(keys::usage_error("--init and --update are mutually exclusive"));
    }
    if args.init {
        let data: Vec<u8> = book::amount_bytes(tags::CREATE_FUNDING_STATE, args.window_seconds);
        Ok(Some(common::instruction(program, book::creation_metas(payer, market, funding), data)))
    } else if args.update {
        let rate: i64 = match args.rate {
            Some(rate) => rate,
            None => return Err(keys::usage_error("--rate required")),
        };
        let mut data: Vec<u8> = vec![tags::UPDATE_FUNDING];
        bytes::push_i64(&mut data, rate);
        assert(data@ =~= book::amount_data(
            tags::UPDATE_FUNDING,
            bytes::twos_complement(rate as int, 8),
        ));
        Ok(
            Some(
                common::instruction(program, book::signer_and_account_metas(payer, funding), data),
            ),
        )
    } else {
        Ok(None)
    }
}

/// The address of the funding accumulator of a market, and its bump.
pub fn funding_address(program: &[u8; 32], market: &[u8; 32]) -> (r: Option<([u8; 32], u8)>)
    ensures
        address::derived(r) == address::program_address(
            seq![address::FUNDING_SEED@, market@],
            program@,
        ),
{
    address::derive_with_key(&address::FUNDING_SEED, market, program)
}

/// A funding accumulator, as it stands in the slot `current_slot`.
pub open spec fn funding_text(funding: FundingState, current_slot: u64) -> Seq<char> {
    "  market:                     "@ + address::key_text(funding.market@)
        + "\n  cumulative_funding_index:   "@ + text::decimal_int(
        funding.cumulative_funding_index as int,
    ) + " (scaled 1e9)\n  current_rate_per_sec:       "@ + text::decimal_int(
        funding.current_rate_per_sec as int,
    ) + " (scaled 1e9)\n  window_seconds:             "@ + text::decimal(
        funding.window_seconds as nat,
    ) + "\n  last_update_ts:             "@ + text::decimal_int(funding.last_update_ts as int)
        + "\n  last_update_slot:           "@ + text::decimal(funding.last_update_slot as nat)
        + "\n\n  current_slot:               "@ + text::decimal(current_slot as nat)
        + "\n  slots_since_update:         "@ + text::decimal(
        common::slots_since(current_slot, funding.last_update_slot),
    ) + "\n"@
}

/// A funding accumulator, as it stands in the slot `current_slot`.
pub fn describe_funding(funding: &FundingState, current_slot: u64) -> (r: String)
    ensures
        r@ == funding_text(*funding, current_slot),
{
    let age: u64 = common::age_in_slots(current_slot, funding.last_update_slot);
    let mut r: String = "  market:                     ".to_owned();
    r.append(address::show_key(&funding.market).as_str());
    r.append("\n  cumulative_funding_index:   ");
    r.append(text::decimal_int_text(funding.cumulative_funding_index as i128).as_str());
    r.append(" (scaled 1e9)\n  current_rate_per_sec:       ");
    r.append(text::decimal_int_text(funding.current_rate_per_sec as i128).as_str());
    r.append(" (scaled 1e9)\n  window_seconds:             ");
    r.append(text::decimal_text(funding.window_seconds as u128).as_str());
    r.append("\n  last_update_ts:             ");
    r.append(text::decimal_int_text(funding.last_update_ts as i128).as_str());
    r.append("\n  last_update_slot:           ");
    r.append(text::decimal_text(funding.last_update_slot as u128).as_str());
    r.append("\n\n  current_slot:               ");
    r.append(text::decimal_text(current_slot as u128).as_str());
    r.append("\n  slots_since_update:         ");
    r.append(text::decimal_text(age as u128).as_str());
    r.append("\n");
    r
}

/// What `funding` prints before it sends anything.
pub open spec fn funding_header_text(
    rpc: Seq<char>,
    payer: Seq<u8>,
    program: Seq<u8>,
    market: Seq<u8>,
    funding: Seq<u8>,
    bump: nat,
) -> Seq<char> {
    "rpc:         "@ + rpc + "\npayer:       "@ + address::key_text(payer) + "\nprogram:     "@
        + address::key_text(program) + "\nmarket:      "@ + address::key_text(market)
        + "\nfunding PDA: "@ + address::key_text(funding) + "  (bump "@ + text::decimal(bump)
        + ")\n\n"@
}

/// What `funding` prints before it sends anything.
pub fn funding_header(
    rpc: &str,
    payer: &[u8; 32],
    program: &[u8; 32],
    market: &[u8; 32],
    funding: &[u8; 32],
    bump: u8,
) -> (r: String)
    ensures
        r@ == funding_header_text(rpc@, payer@, program@, market@, funding@, bump as nat),
{
    let mut r: String = "rpc:         ".to_owned();
    r.append(rpc);
    r.append("\npayer:       ");
    r.append(address::show_key(payer).as_str());
    r.append("\nprogram:     ");
    r.append(address::show_key(program).as_str());
    r.append("\nmarket:      ");
    r.append(address::show_key(market).as_str());
    r.append("\nfunding PDA: ");
    r.append(address::show_key(funding).as_str());
    r.append("  (bump ");
    r.append(text::decimal_text(bump as u128).as_str());
    r.append(")\n\n");
    r
}

} // verus!
