//! `CreateStats` and `BumpStats`: one counter for the whole program.

use vstd::prelude::*;
use vstd::string::StringExecFns;

use crate::bytes;
use crate::program::address;
use crate::program::log;
use crate::program::types;
use crate::program::types::{Account, ProgramError, Refusal, Step};
use crate::state::{Stats, STATS_DISCRIMINATOR};

verus! {

/// The data of a fresh `Stats` account: nothing counted yet.
pub open spec fn stats_data(bump: u8) -> Seq<u8> {
    STATS_DISCRIMINATOR@ + seq![bump] + types::zeros(47)
}

/// Seeds of the `Stats` address, without the bump.
pub open spec fn stats_seeds() -> Seq<Seq<u8>> {
    seq![address::STATS_SEED@]
}

/// What `CreateStats` refuses before it derives an address, if anything.
pub open spec fn create_stats_refusal(accounts: Seq<Account>, payload: Seq<u8>) -> Option<
    types::RefusalView,
> {
    if payload.len() != 0 {
        Some(
            types::refusal(
                ProgramError::InvalidInstructionData,
                "create_stats: payload must be empty"@,
            ),
        )
    } else if accounts.len() < 3 {
        Some(types::silent_refusal(ProgramError::NotEnoughAccountKeys))
    } else if !accounts[0].is_signer {
        Some(
            types::refusal(
                ProgramError::MissingRequiredSignature,
                "create_stats: payer must sign"@,
            ),
        )
    } else if accounts[2].key@ != address::SYSTEM_PROGRAM_ID@ {
        Some(
            types::refusal(
                ProgramError::IncorrectProgramId,
                "create_stats: account[2] is not the System program"@,
            ),
        )
    } else {
        None
    }
}

/// What `CreateStats` answers once the `Stats` address is known.
pub open spec fn create_stats_plan(
    program_id: Seq<u8>,
    accounts: Seq<Account>,
    expected: Seq<u8>,
    bump: u8,
) -> types::Outcome {
    if accounts[1].key@ != expected {
        Err(
            types::refusal(
                ProgramError::InvalidSeeds,
                log::keys_line(
                    "create_stats: passed stats "@,
                    accounts[1].key@,
                    " != derived PDA "@,
                    expected,
                ),
            ),
        )
    } else {
        Ok(
            seq![
                types::StepView::CreateAccount {
                    payer: 0,
                    account: 1,
                    system: 2,
                    space: Stats::LEN as int,
                    owner: program_id,
                    seeds: stats_seeds().push(seq![bump]),
                },
                types::StepView::Write { account: 1, data: stats_data(bump) },
                types::StepView::Log {
                    line: log::number_line("stats created at PDA (bump "@, bump as nat) + ")"@,
                },
            ],
        )
    }
}

/// What `CreateStats` answers.
pub open spec fn create_stats_outcome(
    program_id: Seq<u8>,
    accounts: Seq<Account>,
    payload: Seq<u8>,
) -> types::Outcome {
    match create_stats_refusal(accounts, payload) {
        Some(e) => Err(e),
        None => {
            let found = address::program_address(stats_seeds(), program_id)->Some_0;
            create_stats_plan(program_id, accounts, found.0, found.1)
        },
    }
}

/// Tests an instruction before any address is derived.
pub fn check_create_stats(accounts: &[Account], payload: &[u8]) -> (r: Result<(), Refusal>)
    ensures
        match create_stats_refusal(accounts@, payload@) {
            Some(e) => r matches Err(x) && x@ == e,
            None => r is Ok,
        },
{
    if payload.len() != 0 {
        return Err(
            Refusal::logged(
                ProgramError::InvalidInstructionData,
                "create_stats: payload must be empty".to_owned(),
            ),
        );
    }
    if accounts.len() < 3 {
        return Err(Refusal::silent(ProgramError::NotEnoughAccountKeys));
    }
    if !accounts[0].is_signer {
        return Err(
            Refusal::logged(
                ProgramError::MissingRequiredSignature,
                "create_stats: payer must sign".to_owned(),
            ),
        );
    }
    if !bytes::same_bytes(&accounts[2].key, &address::SYSTEM_PROGRAM_ID) {
        return Err(
            Refusal::logged(
                ProgramError::IncorrectProgramId,
                "create_stats: account[2] is not the System program".to_owned(),
            ),
        );
    }
    Ok(())
}

/// Seeds of the `Stats` address.
pub fn stats_seed_list() -> (r: Vec<Vec<u8>>)
    ensures
        types::seed_list(r@) == stats_seeds(),
{
    let r: Vec<Vec<u8>> = vec![bytes::copy_bytes(&address::STATS_SEED)];
    assert(types::seed_list(r@) =~= stats_seeds());
    r
}

/// Decides on an instruction that passed `check_create_stats`, given the
/// address of the `Stats` account.
pub fn plan_create_stats(
    program_id: &[u8; 32],
    accounts: &[Account],
    expected: &[u8; 32],
    bump: u8,
) -> (r: Result<Vec<Step>, Refusal>)
    requires
        accounts@.len() >= 3,
    ensures
        types::outcome(r) == create_stats_plan(program_id@, accounts@, expected@, bump),
{
    if !bytes::same_bytes(&accounts[1].key, expected) {
        let line: String = log::with_keys(
            "create_stats: passed stats ",
            &accounts[1].key,
            " != derived PDA ",
            expected,
        );
        return Err(Refusal::logged(ProgramError::InvalidSeeds, line));
    }
    let mut seeds: Vec<Vec<u8>> = stats_seed_list();
    let ghost unbumped = types::seed_list(seeds@);
    seeds.push(vec![bump]);
    let value: Stats = Stats {
        discriminator: STATS_DISCRIMINATOR,
        bump,
        _pad0: [0u8; 7],
        market_count: 0,
        _reserved: [0u8; 32],
    };
    let data: Vec<u8> = value.to_bytes();
    proof {
        let b = stats_data(bump);
        assert(bytes::part(b, 0, 8) =~= value.discriminator@);
        assert(bytes::part(b, 9, 7) =~= value._pad0@);
        bytes::lemma_zero_value(bytes::part(b, 16, 8));
        assert(bytes::part(b, 24, 32) =~= value._reserved@);
        value.bytes_are_unique(data@, b);
        assert(types::seed_list(seeds@) =~= stats_seeds().push(seq![bump])) by {
            assert(seeds@.last()@ =~= seq![bump]);
            assert(unbumped.len() == 1);
            assert(types::seed_list(seeds@)[0] == unbumped[0]);
        }
    }
    let mut line: String = log::with_number("stats created at PDA (bump ", bump as u64);
    line.append(")");
    let steps: Vec<Step> = vec![
        Step::CreateAccount {
            payer: 0,
            account: 1,
            system: 2,
            space: Stats::LEN as u64,
            owner: *program_id,
            seeds,
        },
        Step::Write { account: 1, data },
        Step::Log { line },
    ];
    assert(types::outcome(Ok(steps))->Ok_0 =~= create_stats_plan(
        program_id@,
        accounts@,
        expected@,
        bump,
    )->Ok_0);
    Ok(steps)
}

/// `CreateStats`: creates the one `Stats` account of the program.
///
/// Accounts:
///   0. `[WRITE, SIGNER]` payer
///   1. `[WRITE]`         stats: the derived address
///   2. `[]`              System program
pub fn process_create_stats(program_id: &[u8; 32], accounts: &[Account], payload: &[u8]) -> (r:
    Result<Vec<Step>, Refusal>)
    requires
        create_stats_refusal(accounts@, payload@) is None ==> address::program_address(
            stats_seeds(),
            program_id@,
        ) is Some,
    ensures
        types::outcome(r) == create_stats_outcome(program_id@, accounts@, payload@),
{
    match check_create_stats(accounts, payload) {
        Ok(_) => {},
        Err(e) => return Err(e),
    }
    let seeds: Vec<Vec<u8>> = stats_seed_list();
    match address::find_address(&seeds, program_id) {
        Some((expected, bump)) => plan_create_stats(program_id, accounts, &expected, bump),
        None => vstd::pervasive::unreached(),
    }
}

/// The counter of a `Stats` account after one more market: it goes up by one
/// unless it is at its limit.
pub open spec fn next_count(data: Seq<u8>) -> nat {
    let count = bytes::u64_at(data, 16);
    if count < u64::MAX {
        count + 1
    } else {
        count
    }
}

/// The data of a `Stats` account after one more market: no byte outside the
/// counter changes.
pub open spec fn bumped(data: Seq<u8>) -> Seq<u8> {
    data.take(16) + bytes::le_bytes(next_count(data), 8) + data.skip(24)
}

/// What `BumpStats` answers.
pub open spec fn bump_stats_outcome(
    program_id: Seq<u8>,
    accounts: Seq<Account>,
    payload: Seq<u8>,
) -> types::Outcome {
    if payload.len() != 0 {
        Err(
            types::refusal(
                ProgramError::InvalidInstructionData,
                "bump_stats: payload must be empty"@,
            ),
        )
    } else if accounts.len() < 1 {
        Err(types::silent_refusal(ProgramError::NotEnoughAccountKeys))
    } else if accounts[0].owner@ != program_id {
        Err(
            types::refusal(
                ProgramError::IncorrectProgramId,
                "bump_stats: stats owner mismatch"@,
            ),
        )
    } else if accounts[0].data@.len() != Stats::LEN {
        Err(
            types::refusal(
                ProgramError::InvalidAccountData,
                log::numbers_line(
                    "bump_stats: stats data_len "@,
                    accounts[0].data@.len(),
                    " != "@,
                    Stats::LEN as nat,
                ),
            ),
        )
    } else if bytes::part(accounts[0].data@, 0, 8) != STATS_DISCRIMINATOR@ {
        Err(
            types::refusal(
                ProgramError::UninitializedAccount,
                "bump_stats: stats account not initialized"@,
            ),
        )
    } else {
        Ok(
            seq![
                types::StepView::Write { account: 0, data: bumped(accounts[0].data@) },
                types::StepView::Log {
                    line: log::number_line(
                        "stats.market_count: "@,
                        next_count(accounts[0].data@),
                    ),
                },
            ],
        )
    }
}

/// `BumpStats`: counts one more market.
///
/// Accounts:
///   0. `[WRITE]` stats
pub fn process_bump_stats(program_id: &[u8; 32], accounts: &[Account], payload: &[u8]) -> (r: Result<
    Vec<Step>,
    Refusal,
>)
    ensures
        types::outcome(r) == bump_stats_outcome(program_id@, accounts@, payload@),
{
    if payload.len() != 0 {
        return Err(
            Refusal::logged(
                ProgramError::InvalidInstructionData,
                "bump_stats: payload must be empty".to_owned(),
            ),
        );
    }
    if accounts.len() < 1 {
        return Err(Refusal::silent(ProgramError::NotEnoughAccountKeys));
    }
    let account: &Account = &accounts[0];
    if !bytes::same_bytes(&account.owner, program_id) {
        return Err(
            Refusal::logged(
                ProgramError::IncorrectProgramId,
                "bump_stats: stats owner mismatch".to_owned(),
            ),
        );
    }
    let mut stats: Stats = match Stats::from_bytes(&account.data) {
        Some(stats) => stats,
        None => {
            let line: String = log::with_numbers(
                "bump_stats: stats data_len ",
                account.data.len() as u64,
                " != ",
                Stats::LEN as u64,
            );
            return Err(Refusal::logged(ProgramError::InvalidAccountData, line));
        },
    };
    if !bytes::same_bytes(&stats.discriminator, &STATS_DISCRIMINATOR) {
        return Err(
            Refusal::logged(
                ProgramError::UninitializedAccount,
                "bump_stats: stats account not initialized".to_owned(),
            ),
        );
    }
    stats.market_count = stats.market_count.saturating_add(1);
    let data: Vec<u8> = stats.to_bytes();
    proof {
        let old_data = account.data@;
        let b = bumped(old_data);
        bytes::lemma_pow256_values();
        bytes::lemma_le_round_trip(stats.market_count as nat, 8);
        assert(bytes::part(b, 0, 8) =~= bytes::part(old_data, 0, 8));
        assert(bytes::part(b, 9, 7) =~= bytes::part(old_data, 9, 7));
        assert(bytes::part(b, 16, 8) =~= bytes::le_bytes(stats.market_count as nat, 8));
        assert(bytes::part(b, 24, 32) =~= bytes::part(old_data, 24, 32));
        stats.bytes_are_unique(data@, b);
    }
    let line: String = log::with_number("stats.market_count: ", stats.market_count);
    let steps: Vec<Step> = vec![Step::Write { account: 0, data }, Step::Log { line }];
    assert(types::outcome(Ok(steps))->Ok_0 =~= bump_stats_outcome(
        program_id@,
        accounts@,
        payload@,
    )->Ok_0);
    Ok(steps)
}

} // verus!
