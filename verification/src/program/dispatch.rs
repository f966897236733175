//! The entry of the program: the first byte of the data is the tag of the
//! instruction, the rest is its payload.

use vstd::prelude::*;

use crate::bytes;
use crate::program::address;
use crate::program::bench;
use crate::program::log;
use crate::program::market;
use crate::program::stats;
use crate::program::types;
use crate::program::types::{Account, ProgramError, Refusal, Step};
use crate::program::vault;

verus! {

pub const TAG_INITIALIZE: u8 = 0;

pub const TAG_CREATE_MARKET: u8 = 1;

pub const TAG_BENCH: u8 = 2;

pub const TAG_CREATE_STATS: u8 = 3;

pub const TAG_BUMP_STATS: u8 = 4;

pub const TAG_CREATE_VAULT: u8 = 5;

pub const TAG_DEPOSIT: u8 = 6;

/// What the program answers to an instruction.
pub open spec fn instruction_outcome(
    program_id: Seq<u8>,
    accounts: Seq<Account>,
    data: Seq<u8>,
) -> types::Outcome {
    if data.len() == 0 {
        Err(types::silent_refusal(ProgramError::InvalidInstructionData))
    } else {
        let payload = data.skip(1);
        if data[0] == TAG_INITIALIZE {
            market::initialize_outcome(program_id, accounts, payload)
        } else if data[0] == TAG_CREATE_MARKET {
            market::create_market_outcome(program_id, accounts, payload)
        } else if data[0] == TAG_BENCH {
            bench::bench_outcome(payload)
        } else if data[0] == TAG_CREATE_STATS {
            stats::create_stats_outcome(program_id, accounts, payload)
        } else if data[0] == TAG_BUMP_STATS {
            stats::bump_stats_outcome(program_id, accounts, payload)
        } else if data[0] == TAG_CREATE_VAULT {
            vault::create_vault_outcome(program_id, accounts, payload)
        } else if data[0] == TAG_DEPOSIT {
            vault::deposit_outcome(accounts, payload)
        } else {
            Err(
                types::refusal(
                    ProgramError::InvalidInstructionData,
                    log::number_line("unknown instruction tag: "@, data[0] as nat),
                ),
            )
        }
    }
}

/// Every derivation that the instruction gets to finds an address.
pub open spec fn addresses_exist(
    program_id: Seq<u8>,
    accounts: Seq<Account>,
    data: Seq<u8>,
) -> bool {
    if data.len() == 0 {
        true
    } else {
        let payload = data.skip(1);
        if data[0] == TAG_CREATE_MARKET {
            market::create_market_derives(accounts, payload) ==> address::program_address(
                market::market_seeds(payload),
                program_id,
            ) is Some
        } else if data[0] == TAG_CREATE_STATS {
            stats::create_stats_refusal(accounts, payload) is None ==> address::program_address(
                stats::stats_seeds(),
                program_id,
            ) is Some
        } else if data[0] == TAG_CREATE_VAULT {
            vault::create_vault_addresses_exist(program_id, accounts, payload)
        } else {
            true
        }
    }
}

/// Decides on an instruction: the steps that carry it out, or the refusal,
/// each with what it logs.
/// The derivation of an address has to succeed, as `find_program_address`
/// demands; see `try_process_instruction` where that is not known.
pub fn process_instruction(
    program_id: &[u8; 32],
    accounts: &[Account],
    instruction_data: &[u8],
) -> (r: Result<Vec<Step>, Refusal>)
    requires
        addresses_exist(program_id@, accounts@, instruction_data@),
    ensures
        types::outcome(r) == instruction_outcome(program_id@, accounts@, instruction_data@),
{
    if instruction_data.len() == 0 {
        return Err(Refusal::silent(ProgramError::InvalidInstructionData));
    }
    let tag: u8 = instruction_data[0];
    let payload: &[u8] = &instruction_data[1..instruction_data.len()];
    assert(payload@ =~= instruction_data@.skip(1));
    match tag {
        0 => market::process_initialize(program_id, accounts, payload),
        1 => market::process_create_market(program_id, accounts, payload),
        2 => bench::process_bench(payload),
        3 => stats::process_create_stats(program_id, accounts, payload),
        4 => stats::process_bump_stats(program_id, accounts, payload),
        5 => vault::process_create_vault(program_id, accounts, payload),
        6 => vault::process_deposit(accounts, payload),
        _ => Err(
            Refusal::logged(
                ProgramError::InvalidInstructionData,
                log::with_number("unknown instruction tag: ", tag as u64),
            ),
        ),
    }
}

/// Whether every derivation that the instruction gets to finds an address.
fn derivations_succeed(program_id: &[u8; 32], accounts: &[Account], instruction_data: &[u8]) -> (r:
    bool)
    ensures
        r == addresses_exist(program_id@, accounts@, instruction_data@),
{
    if instruction_data.len() == 0 {
        return true;
    }
    let tag: u8 = instruction_data[0];
    let payload: &[u8] = &instruction_data[1..instruction_data.len()];
    assert(payload@ =~= instruction_data@.skip(1));
    if tag == TAG_CREATE_MARKET {
        match market::check_create_market(accounts, payload) {
            Ok(params) => {
                let seeds: Vec<Vec<u8>> = market::market_seed_list(
                    &params.base_mint,
                    &params.quote_mint,
                );
                assert(types::seed_list(seeds@) =~= market::market_seeds(payload@));
                address::find_address(&seeds, program_id).is_some()
            },
            Err(_) => true,
        }
    } else if tag == TAG_CREATE_STATS {
        match stats::check_create_stats(accounts, payload) {
            Ok(_) => address::find_address(&stats::stats_seed_list(), program_id).is_some(),
            Err(_) => true,
        }
    } else if tag == TAG_CREATE_VAULT {
        match vault::check_create_vault(program_id, accounts, payload) {
            Ok(_) => {
                let seeds: Vec<Vec<u8>> = vault::vault_seed_list(
                    &accounts[1].key,
                    &accounts[2].key,
                );
                match address::find_address(&seeds, program_id) {
                    Some((expected, _)) => {
                        if bytes::same_bytes(&accounts[3].key, &expected) {
                            let auth: Vec<Vec<u8>> = vault::vault_auth_seed_list(&accounts[1].key);
                            address::find_address(&auth, program_id).is_some()
                        } else {
                            true
                        }
                    },
                    None => false,
                }
            },
            Err(_) => true,
        }
    } else {
        true
    }
}

/// As `process_instruction`, on any input: `None` where the instruction
/// depends on an address for which no bump seed can be found.
pub fn try_process_instruction(
    program_id: &[u8; 32],
    accounts: &[Account],
    instruction_data: &[u8],
) -> (r: Option<Result<Vec<Step>, Refusal>>)
    ensures
        if addresses_exist(program_id@, accounts@, instruction_data@) {
            r matches Some(answer) && types::outcome(answer) == instruction_outcome(
                program_id@,
                accounts@,
                instruction_data@,
            )
        } else {
            r is None
        },
{
    if derivations_succeed(program_id, accounts, instruction_data) {
        Some(process_instruction(program_id, accounts, instruction_data))
    } else {
        None
    }
}

} // verus!
