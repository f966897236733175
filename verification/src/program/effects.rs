//! What each instruction does, and when: the conditions under which it is
//! accepted, the reason for each refusal, and every byte and account of the
//! steps that carry it out.

use vstd::prelude::*;

use crate::bytes;
use crate::program::address;
use crate::program::bench;
use crate::program::dispatch;
use crate::program::laws;
use crate::program::laws::AddressKind;
use crate::program::market;
use crate::program::stats;
use crate::program::system;
use crate::program::types;
use crate::program::types::{Account, ProgramError};
use crate::program::vault;
use crate::text;

verus! {

/// The instruction is refused with this error and this line in the log.
pub open spec fn refuses(r: types::Outcome, error: ProgramError, line: Seq<char>) -> bool {
    r matches Err(x) && x.error == error && x.line == Some(line)
}

/// The instruction is refused with this error, and nothing is logged.
pub open spec fn refuses_silently(r: types::Outcome, error: ProgramError) -> bool {
    r matches Err(x) && x.error == error && x.line is None
}

/// Only zero bytes.
pub open spec fn blank(b: Seq<u8>) -> bool {
    forall|i: int| 0 <= i < b.len() ==> b[i] == 0
}

/// The bytes of a market account: tag, version, bump, what the payload says in
/// the order of the payload, and zeros.
pub open spec fn is_market(b: Seq<u8>, payload: Seq<u8>, bump: u8) -> bool {
    &&& b.len() == 256
    &&& b[0] == 77 && b[1] == 65 && b[2] == 82 && b[3] == 75 && b[4] == 69 && b[5] == 84
    &&& b[6] == 0 && b[7] == 0
    &&& b[8] == 1
    &&& b[9] == bump
    &&& blank(b.subrange(10, 16))
    &&& b.subrange(16, 128) == payload
    &&& blank(b.subrange(128, 256))
}

proof fn lemma_market_bytes(payload: Seq<u8>, bump: u8)
    requires
        payload.len() == 112,
    ensures
        is_market(market::market_data(payload, bump), payload, bump),
{
    let b = market::market_data(payload, bump);
    assert(b.subrange(16, 128) =~= payload);
    assert forall|i: int| 0 <= i < 6 implies b.subrange(10, 16)[i] == 0 by {}
    assert forall|i: int| 0 <= i < 128 implies b.subrange(128, 256)[i] == 0 by {}
}

/// `Initialize` is accepted exactly for a payload of 112 bytes with tick and lot
/// size above zero and a blank account of 256 bytes that the program owns; it
/// then writes the market that the payload describes. Otherwise the first
/// condition that fails is the reason.
pub proof fn initialize_does_what_it_says(program_id: Seq<u8>, accounts: Seq<Account>, payload: Seq<u8>)
    ensures
        ({
            let r = market::initialize_outcome(program_id, accounts, payload);
            let long = payload.len() == 112;
            let passed = accounts.len() >= 1;
            let owned = accounts[0].owner@ == program_id;
            let sized = accounts[0].data@.len() == 256;
            let fresh = blank(accounts[0].data@.subrange(0, 8));
            let steps_given = bytes::u64_at(payload, 96) > 0 && bytes::u64_at(payload, 104) > 0;
            &&& r is Ok <==> long && passed && owned && sized && fresh && steps_given
            &&& r matches Ok(steps) ==> steps.len() == 2 && (steps[0] matches types::StepView::Write {
                account,
                data,
            } && account == 0 && is_market(data, payload, 0)) && steps[1] == (types::StepView::Log {
                line: "market initialized"@,
            })
            &&& !long ==> refuses(
                r,
                ProgramError::InvalidInstructionData,
                "initialize: payload must be "@ + text::decimal(112) + " bytes, got "@
                    + text::decimal(payload.len()),
            )
            &&& long && !passed ==> refuses_silently(r, ProgramError::NotEnoughAccountKeys)
            &&& long && passed && !owned ==> refuses(
                r,
                ProgramError::IncorrectProgramId,
                "initialize: market owner "@ + address::key_text(accounts[0].owner@)
                    + " != program "@ + address::key_text(program_id),
            )
            &&& long && passed && owned && !sized ==> refuses(
                r,
                ProgramError::InvalidAccountData,
                "initialize: market data_len "@ + text::decimal(accounts[0].data@.len()) + " != "@
                    + text::decimal(256),
            )
            &&& long && passed && owned && sized && !fresh ==> refuses(
                r,
                ProgramError::AccountAlreadyInitialized,
                "initialize: market already initialized"@,
            )
            &&& long && passed && owned && sized && fresh && !steps_given ==> refuses(
                r,
                ProgramError::InvalidInstructionData,
                "initialize: tick_size and lot_size must be non-zero"@,
            )
        }),
{
    if payload.len() == 112 {
        lemma_market_bytes(payload, 0);
    }
    if accounts.len() >= 1 && accounts[0].data@.len() == 256 {
        let head = accounts[0].data@.subrange(0, 8);
        if blank(head) {
            assert(head =~= types::zeros(8));
        } else {
            assert(head != types::zeros(8));
        }
    }
}

/// A `CreateAccount` step: which accounts, how many bytes, for which owner, and
/// that the program signs with the seeds of the address and its bump.
pub open spec fn creates(
    step: types::StepView,
    at: int,
    system_at: int,
    bytes_long: int,
    owner: Seq<u8>,
    seeds: Seq<Seq<u8>>,
    bump: u8,
) -> bool {
    step matches types::StepView::CreateAccount {
        payer,
        account,
        system,
        space,
        owner: new_owner,
        seeds: signing,
    } && {
        &&& payer == 0
        &&& account == at
        &&& system == system_at
        &&& space == bytes_long
        &&& new_owner == owner
        &&& signing.len() == seeds.len() + 1
        &&& signing.take(seeds.len() as int) == seeds
        &&& signing.last() == seq![bump]
    }
}

/// `CreateMarket` is accepted exactly for a payload of 112 bytes with tick and lot
/// size above zero, a payer who signs, the System program, and the account at the
/// address of the pair of mints; it then creates that account, with 256 bytes for
/// the program, and writes the market that the payload describes.
pub proof fn create_market_does_what_it_says(
    program_id: Seq<u8>,
    accounts: Seq<Account>,
    payload: Seq<u8>,
    key: Seq<u8>,
    bump: u8,
)
    requires
        payload.len() == 112 && accounts.len() >= 3 && accounts[0].is_signer && accounts[2].key@
            == address::SYSTEM_PROGRAM_ID@ && bytes::u64_at(payload, 96) > 0 && bytes::u64_at(
            payload,
            104,
        ) > 0 ==> address::program_address(
            laws::kind_seeds(
                AddressKind::Market,
                payload.subrange(32, 64),
                payload.subrange(64, 96),
            ),
            program_id,
        ) == Some((key, bump)),
    ensures
        ({
            let r = market::create_market_outcome(program_id, accounts, payload);
            let long = payload.len() == 112;
            let passed = accounts.len() >= 3;
            let signed = accounts[0].is_signer;
            let through_system = accounts[2].key@ == address::SYSTEM_PROGRAM_ID@;
            let steps_given = bytes::u64_at(payload, 96) > 0 && bytes::u64_at(payload, 104) > 0;
            let right = accounts[1].key@ == key;
            &&& r is Ok <==> long && passed && signed && through_system && steps_given && right
            &&& r matches Ok(steps) ==> {
                &&& steps.len() == 3
                &&& creates(
                    steps[0],
                    1,
                    2,
                    256,
                    program_id,
                    laws::kind_seeds(
                        AddressKind::Market,
                        payload.subrange(32, 64),
                        payload.subrange(64, 96),
                    ),
                    bump,
                )
                &&& steps[1] matches types::StepView::Write { account, data } && account == 1
                    && is_market(data, payload, bump)
                &&& steps[2] == (types::StepView::Log {
                    line: "market created at PDA (bump "@ + text::decimal(bump as nat) + ")"@,
                })
            }
            &&& !long ==> refuses(
                r,
                ProgramError::InvalidInstructionData,
                "create_market: payload must be "@ + text::decimal(112) + " bytes, got "@
                    + text::decimal(payload.len()),
            )
            &&& long && !passed ==> refuses_silently(r, ProgramError::NotEnoughAccountKeys)
            &&& long && passed && !signed ==> refuses(
                r,
                ProgramError::MissingRequiredSignature,
                "create_market: payer must sign"@,
            )
            &&& long && passed && signed && !through_system ==> refuses(
                r,
                ProgramError::IncorrectProgramId,
                "create_market: account[2] is not the System program"@,
            )
            &&& long && passed && signed && through_system && !steps_given ==> refuses(
                r,
                ProgramError::InvalidInstructionData,
                "create_market: tick_size and lot_size must be non-zero"@,
            )
            &&& long && passed && signed && through_system && steps_given && !right ==> refuses(
                r,
                ProgramError::InvalidSeeds,
                "create_market: passed market "@ + address::key_text(accounts[1].key@)
                    + " != derived PDA "@ + address::key_text(key),
            )
        }),
{
    if payload.len() == 112 {
        lemma_market_bytes(payload, bump);
    }
    let seeds = laws::kind_seeds(
        AddressKind::Market,
        payload.subrange(32, 64),
        payload.subrange(64, 96),
    );
    assert(seeds =~= market::market_seeds(payload));
    assert(seeds.push(seq![bump]).take(3) =~= seeds);
}

/// The bytes of a fresh counter: tag, bump, and zeros, the count among them.
pub open spec fn is_fresh_stats(b: Seq<u8>, bump: u8) -> bool {
    &&& b.len() == 56
    &&& b[0] == 83 && b[1] == 84 && b[2] == 65 && b[3] == 84 && b[4] == 83
    &&& b[5] == 0 && b[6] == 0 && b[7] == 0
    &&& b[8] == bump
    &&& blank(b.subrange(9, 56))
}

/// `CreateStats` is accepted exactly without a payload, with a payer who signs,
/// the System program and the account at the address of the counter; it then
/// creates that account, with 56 bytes for the program, and starts the count at
/// zero.
pub proof fn create_stats_does_what_it_says(
    program_id: Seq<u8>,
    accounts: Seq<Account>,
    payload: Seq<u8>,
    key: Seq<u8>,
    bump: u8,
)
    requires
        payload.len() == 0 && accounts.len() >= 3 && accounts[0].is_signer && accounts[2].key@
            == address::SYSTEM_PROGRAM_ID@ ==> address::program_address(
            laws::kind_seeds(AddressKind::Stats, seq![], seq![]),
            program_id,
        ) == Some((key, bump)),
    ensures
        ({
            let r = stats::create_stats_outcome(program_id, accounts, payload);
            let empty = payload.len() == 0;
            let passed = accounts.len() >= 3;
            let signed = accounts[0].is_signer;
            let through_system = accounts[2].key@ == address::SYSTEM_PROGRAM_ID@;
            let right = accounts[1].key@ == key;
            &&& r is Ok <==> empty && passed && signed && through_system && right
            &&& r matches Ok(steps) ==> {
                &&& steps.len() == 3
                &&& creates(
                    steps[0],
                    1,
                    2,
                    56,
                    program_id,
                    laws::kind_seeds(AddressKind::Stats, seq![], seq![]),
                    bump,
                )
                &&& steps[1] matches types::StepView::Write { account, data } && account == 1
                    && is_fresh_stats(data, bump)
                &&& steps[2] == (types::StepView::Log {
                    line: "stats created at PDA (bump "@ + text::decimal(bump as nat) + ")"@,
                })
            }
            &&& !empty ==> refuses(
                r,
                ProgramError::InvalidInstructionData,
                "create_stats: payload must be empty"@,
            )
            &&& empty && !passed ==> refuses_silently(r, ProgramError::NotEnoughAccountKeys)
            &&& empty && passed && !signed ==> refuses(
                r,
                ProgramError::MissingRequiredSignature,
                "create_stats: payer must sign"@,
            )
            &&& empty && passed && signed && !through_system ==> refuses(
                r,
                ProgramError::IncorrectProgramId,
                "create_stats: account[2] is not the System program"@,
            )
            &&& empty && passed && signed && through_system && !right ==> refuses(
                r,
                ProgramError::InvalidSeeds,
                "create_stats: passed stats "@ + address::key_text(accounts[1].key@)
                    + " != derived PDA "@ + address::key_text(key),
            )
        }),
{
    let seeds = laws::kind_seeds(AddressKind::Stats, seq![], seq![]);
    assert(seeds =~= stats::stats_seeds());
    assert(seeds.push(seq![bump]).take(1) =~= seeds);
    let b = stats::stats_data(bump);
    assert forall|i: int| 0 <= i < 47 implies b.subrange(9, 56)[i] == 0 by {}
}

/// `BumpStats` is accepted exactly without a payload and for a counter that the
/// program owns; it then counts one more, unless the counter is at its limit, and
/// leaves every other byte as it is.
pub proof fn bump_stats_does_what_it_says(program_id: Seq<u8>, accounts: Seq<Account>, payload: Seq<u8>)
    ensures
        ({
            let r = stats::bump_stats_outcome(program_id, accounts, payload);
            let old_data = accounts[0].data@;
            let empty = payload.len() == 0;
            let passed = accounts.len() >= 1;
            let owned = accounts[0].owner@ == program_id;
            let sized = old_data.len() == 56;
            let live = old_data[0] == 83 && old_data[1] == 84 && old_data[2] == 65 && old_data[3]
                == 84 && old_data[4] == 83 && blank(old_data.subrange(5, 8));
            let count = bytes::u64_at(old_data, 16);
            &&& r is Ok <==> empty && passed && owned && sized && live
            &&& r matches Ok(steps) ==> {
                &&& steps.len() == 2
                &&& steps[0] matches types::StepView::Write { account, data } && {
                    &&& account == 0
                    &&& data.len() == 56
                    &&& count < u64::MAX ==> bytes::u64_at(data, 16) == count + 1
                    &&& count == u64::MAX ==> bytes::u64_at(data, 16) == count
                    &&& forall|i: int|
                        0 <= i < 16 || 24 <= i < 56 ==> #[trigger] data[i] == old_data[i]
                    &&& steps[1] == (types::StepView::Log {
                        line: "stats.market_count: "@ + text::decimal(bytes::u64_at(data, 16)),
                    })
                }
            }
            &&& !empty ==> refuses(
                r,
                ProgramError::InvalidInstructionData,
                "bump_stats: payload must be empty"@,
            )
            &&& empty && !passed ==> refuses_silently(r, ProgramError::NotEnoughAccountKeys)
            &&& empty && passed && !owned ==> refuses(
                r,
                ProgramError::IncorrectProgramId,
                "bump_stats: stats owner mismatch"@,
            )
            &&& empty && passed && owned && !sized ==> refuses(
                r,
                ProgramError::InvalidAccountData,
                "bump_stats: stats data_len "@ + text::decimal(old_data.len()) + " != "@
                    + text::decimal(56),
            )
            &&& empty && passed && owned && sized && !live ==> refuses(
                r,
                ProgramError::UninitializedAccount,
                "bump_stats: stats account not initialized"@,
            )
        }),
{
    let old_data = accounts[0].data@;
    if old_data.len() == 56 {
        laws::bump_counts_one(old_data);
        bytes::lemma_pow256_values();
        bytes::lemma_le_value_bound(bytes::part(old_data, 16, 8));
        let tag = bytes::part(old_data, 0, 8);
        let rest = old_data.subrange(5, 8);
        assert(tag.len() == 8);
        assert(forall|i: int| 0 <= i < 8 ==> tag[i] == old_data[i]);
        assert(forall|i: int| 0 <= i < 3 ==> rest[i] == old_data[5 + i]);
        if blank(rest) {
            assert(rest[0] == 0 && rest[1] == 0 && rest[2] == 0);
            if old_data[0] == 83 && old_data[1] == 84 && old_data[2] == 65 && old_data[3] == 84
                && old_data[4] == 83 {
                assert(tag =~= crate::state::STATS_DISCRIMINATOR@);
            }
        }
        if tag == crate::state::STATS_DISCRIMINATOR@ {
            assert(tag[0] == 83 && tag[1] == 84 && tag[2] == 65 && tag[3] == 84 && tag[4] == 83);
            assert(tag[5] == 0 && tag[6] == 0 && tag[7] == 0);
            assert(blank(rest));
        }
    }
}

/// `CreateVault` is accepted exactly without a payload, with a payer who signs, a
/// market of the program, a mint of the SPL Token program, the two programs, and
/// the accounts at the two derived addresses; it then creates the vault, with 165
/// bytes for the SPL Token program, and makes it hold the mint for the authority.
pub proof fn create_vault_does_what_it_says(
    program_id: Seq<u8>,
    accounts: Seq<Account>,
    payload: Seq<u8>,
    key: Seq<u8>,
    bump: u8,
    authority: Seq<u8>,
    authority_bump: u8,
)
    requires
        payload.len() == 0 && accounts.len() >= 7 && accounts[0].is_signer && accounts[1].owner@
            == program_id && accounts[2].owner@ == address::SPL_TOKEN_PROGRAM_ID@
            && accounts[5].key@ == address::SYSTEM_PROGRAM_ID@ && accounts[6].key@
            == address::SPL_TOKEN_PROGRAM_ID@ ==> {
            &&& address::program_address(
                laws::kind_seeds(AddressKind::Vault, accounts[1].key@, accounts[2].key@),
                program_id,
            ) == Some((key, bump))
            &&& accounts[3].key@ == key ==> address::program_address(
                laws::kind_seeds(AddressKind::VaultAuthority, accounts[1].key@, seq![]),
                program_id,
            ) == Some((authority, authority_bump))
        },
    ensures
        ({
            let r = vault::create_vault_outcome(program_id, accounts, payload);
            let token = address::SPL_TOKEN_PROGRAM_ID@;
            let empty = payload.len() == 0;
            let passed = accounts.len() >= 7;
            let signed = accounts[0].is_signer;
            let ours = accounts[1].owner@ == program_id;
            let minted = accounts[2].owner@ == token;
            let through_system = accounts[5].key@ == address::SYSTEM_PROGRAM_ID@;
            let through_token = accounts[6].key@ == token;
            let checked = empty && passed && signed && ours && minted && through_system
                && through_token;
            let right = accounts[3].key@ == key;
            let authorized = accounts[4].key@ == authority;
            &&& r is Ok <==> checked && right && authorized
            &&& r matches Ok(steps) ==> {
                &&& steps.len() == 3
                &&& creates(
                    steps[0],
                    3,
                    5,
                    165,
                    token,
                    laws::kind_seeds(AddressKind::Vault, accounts[1].key@, accounts[2].key@),
                    bump,
                )
                &&& steps[1] matches types::StepView::Invoke { instruction, accounts: handed } && {
                    &&& instruction.program_id == token
                    &&& instruction.accounts.len() == 2
                    &&& instruction.accounts[0].pubkey == key
                    &&& instruction.accounts[0].is_writable && !instruction.accounts[0].is_signer
                    &&& instruction.accounts[1].pubkey == accounts[2].key@
                    &&& !instruction.accounts[1].is_writable && !instruction.accounts[1].is_signer
                    &&& instruction.data.len() == 1 + authority.len()
                    &&& instruction.data[0] == 18
                    &&& instruction.data.skip(1) == authority
                    &&& handed == seq![3int, 2, 6]
                }
                &&& steps[2] == (types::StepView::Log {
                    line: "vault created (vault bump "@ + text::decimal(bump as nat) + ")"@,
                })
            }
            &&& !empty ==> refuses(
                r,
                ProgramError::InvalidInstructionData,
                "create_vault: payload must be empty"@,
            )
            &&& empty && !passed ==> refuses_silently(r, ProgramError::NotEnoughAccountKeys)
            &&& empty && passed && !signed ==> refuses(
                r,
                ProgramError::MissingRequiredSignature,
                "create_vault: payer must sign"@,
            )
            &&& empty && passed && signed && !ours ==> refuses(
                r,
                ProgramError::IncorrectProgramId,
                "create_vault: market not owned by this program"@,
            )
            &&& empty && passed && signed && ours && !minted ==> refuses(
                r,
                ProgramError::IncorrectProgramId,
                "create_vault: mint not owned by SPL Token"@,
            )
            &&& empty && passed && signed && ours && minted && !through_system ==> refuses(
                r,
                ProgramError::IncorrectProgramId,
                "create_vault: account[5] is not the System program"@,
            )
            &&& empty && passed && signed && ours && minted && through_system && !through_token
                ==> refuses(
                r,
                ProgramError::IncorrectProgramId,
                "create_vault: account[6] is not the SPL Token program"@,
            )
            &&& checked && !right ==> refuses(
                r,
                ProgramError::InvalidSeeds,
                "create_vault: passed vault "@ + address::key_text(accounts[3].key@)
                    + " != derived PDA "@ + address::key_text(key),
            )
            &&& checked && right && !authorized ==> refuses(
                r,
                ProgramError::InvalidSeeds,
                "create_vault: passed vault_authority "@ + address::key_text(accounts[4].key@)
                    + " != derived PDA "@ + address::key_text(authority),
            )
        }),
{
    let seeds = laws::kind_seeds(AddressKind::Vault, accounts[1].key@, accounts[2].key@);
    assert(seeds =~= vault::vault_seeds(accounts[1].key@, accounts[2].key@));
    assert(laws::kind_seeds(AddressKind::VaultAuthority, accounts[1].key@, seq![])
        =~= vault::vault_auth_seeds(accounts[1].key@));
    assert(seeds.push(seq![bump]).take(3) =~= seeds);
    assert((seq![18u8] + authority).skip(1) =~= authority);
}

/// `Deposit` is accepted exactly for an amount above zero, a user who signs, two
/// token accounts of the SPL Token program, and that program; it then has that
/// amount moved from the first token account to the second on the signature of
/// the user.
pub proof fn deposit_does_what_it_says(accounts: Seq<Account>, payload: Seq<u8>)
    ensures
        ({
            let r = vault::deposit_outcome(accounts, payload);
            let token = address::SPL_TOKEN_PROGRAM_ID@;
            let amount = bytes::u64_at(payload, 0);
            let long = payload.len() == 8;
            let passed = accounts.len() >= 4;
            let signed = accounts[0].is_signer;
            let from_token = accounts[1].owner@ == token;
            let to_token = accounts[2].owner@ == token;
            let through_token = accounts[3].key@ == token;
            &&& r is Ok <==> long && amount > 0 && passed && signed && from_token && to_token
                && through_token
            &&& r matches Ok(steps) ==> {
                &&& steps.len() == 2
                &&& steps[0] matches types::StepView::Invoke { instruction, accounts: handed } && {
                    &&& instruction.program_id == token
                    &&& instruction.accounts.len() == 3
                    &&& instruction.accounts[0].pubkey == accounts[1].key@
                    &&& instruction.accounts[0].is_writable && !instruction.accounts[0].is_signer
                    &&& instruction.accounts[1].pubkey == accounts[2].key@
                    &&& instruction.accounts[1].is_writable && !instruction.accounts[1].is_signer
                    &&& instruction.accounts[2].pubkey == accounts[0].key@
                    &&& !instruction.accounts[2].is_writable && instruction.accounts[2].is_signer
                    &&& instruction.data.len() == 9
                    &&& instruction.data[0] == 3
                    &&& instruction.data.skip(1) == payload
                    &&& handed == seq![1int, 2, 0, 3]
                }
                &&& steps[1] == (types::StepView::Log {
                    line: "deposit: transferred "@ + text::decimal(amount) + " units"@,
                })
            }
            &&& !long ==> refuses(
                r,
                ProgramError::InvalidInstructionData,
                "deposit: payload must be "@ + text::decimal(8) + " bytes (amount u64 LE)"@,
            )
            &&& long && amount == 0 ==> refuses(
                r,
                ProgramError::InvalidInstructionData,
                "deposit: amount must be > 0"@,
            )
            &&& long && amount > 0 && !passed ==> refuses_silently(
                r,
                ProgramError::NotEnoughAccountKeys,
            )
            &&& long && amount > 0 && passed && !signed ==> refuses(
                r,
                ProgramError::MissingRequiredSignature,
                "deposit: user must sign"@,
            )
            &&& long && amount > 0 && passed && signed && !from_token ==> refuses(
                r,
                ProgramError::IncorrectProgramId,
                "deposit: user_token_acct not owned by SPL Token"@,
            )
            &&& long && amount > 0 && passed && signed && from_token && !to_token ==> refuses(
                r,
                ProgramError::IncorrectProgramId,
                "deposit: vault_token_acct not owned by SPL Token"@,
            )
            &&& long && amount > 0 && passed && signed && from_token && to_token && !through_token
                ==> refuses(
                r,
                ProgramError::IncorrectProgramId,
                "deposit: account[3] is not the SPL Token program"@,
            )
        }),
{
    if payload.len() == 8 {
        let amount = bytes::u64_at(payload, 0);
        assert(bytes::part(payload, 0, 8) =~= payload);
        bytes::lemma_le_bytes_of_value(payload);
        assert((seq![3u8] + bytes::le_bytes(amount, 8)).skip(1) =~= payload);
    }
}

/// `Bench` is accepted exactly for a payload of 8 bytes: it takes as many bytes
/// from the heap as the second number says and runs as many rounds as the first
/// says, and logs what it does and the compute units before, between and after.
pub proof fn bench_does_what_it_says(payload: Seq<u8>)
    ensures
        ({
            let r = bench::bench_outcome(payload);
            let rounds = bytes::u32_at(payload, 0);
            let heap = bytes::u32_at(payload, 4);
            &&& r is Ok <==> payload.len() == 8
            &&& r matches Ok(steps) ==> {
                &&& steps.len() == 8
                &&& steps[0] == (types::StepView::Log {
                    line: "bench: start (rounds="@ + text::decimal(rounds) + ", heap_bytes="@
                        + text::decimal(heap) + ")"@,
                })
                &&& steps[1] is LogComputeUnits
                &&& steps[2] == (types::StepView::BenchAlloc { heap_bytes: heap as int })
                &&& steps[3] == (types::StepView::Log {
                    line: "bench: after heap alloc ("@ + text::decimal(heap) + " bytes)"@,
                })
                &&& steps[4] is LogComputeUnits
                &&& steps[5] == (types::StepView::BenchRounds { rounds: rounds as int })
                &&& steps[6] == (types::StepView::Log {
                    line: "bench: after "@ + text::decimal(rounds) + " hash rounds"@,
                })
                &&& steps[7] is LogComputeUnits
            }
            &&& payload.len() != 8 ==> refuses(
                r,
                ProgramError::InvalidInstructionData,
                "bench: payload must be "@ + text::decimal(8) + " bytes, got "@ + text::decimal(
                    payload.len(),
                ),
            )
        }),
{
}

/// One round puts the digest of the whole buffer to its front, as far as both
/// reach, mixes the low byte of the round number into the first byte, and leaves
/// the rest. Rounds follow each other, counted from zero.
pub proof fn rounds_hash_the_buffer(before: Seq<u8>, digest: Seq<u8>, round: nat, rounds: nat)
    requires
        digest.len() == 32,
    ensures
        ({
            let after = bench::stirred(before, digest, round);
            &&& after.len() == before.len()
            &&& forall|i: int| 1 <= i < 32 && i < before.len() ==> #[trigger] after[i] == digest[i]
            &&& forall|i: int| 32 <= i < before.len() ==> #[trigger] after[i] == before[i]
            &&& before.len() > 0 ==> after[0] == digest[0] ^ ((round % 256) as u8)
        }),
        bench::bench_buffer(before, 0) == before,
        bench::bench_buffer(before, rounds + 1) == bench::stirred(
            bench::bench_buffer(before, rounds),
            bench::sha256(bench::bench_buffer(before, rounds)),
            rounds,
        ),
{
}

/// The first byte of an instruction says which one it is, and the rest is its
/// payload; there are seven, numbered from 0.
pub proof fn the_first_byte_chooses(program_id: Seq<u8>, accounts: Seq<Account>, tag: u8, payload: Seq<u8>)
    ensures
        ({
            let r = dispatch::instruction_outcome(program_id, accounts, seq![tag] + payload);
            &&& tag == 0 ==> r == market::initialize_outcome(program_id, accounts, payload)
            &&& tag == 1 ==> r == market::create_market_outcome(program_id, accounts, payload)
            &&& tag == 2 ==> r == bench::bench_outcome(payload)
            &&& tag == 3 ==> r == stats::create_stats_outcome(program_id, accounts, payload)
            &&& tag == 4 ==> r == stats::bump_stats_outcome(program_id, accounts, payload)
            &&& tag == 5 ==> r == vault::create_vault_outcome(program_id, accounts, payload)
            &&& tag == 6 ==> r == vault::deposit_outcome(accounts, payload)
            &&& tag > 6 ==> refuses(
                r,
                ProgramError::InvalidInstructionData,
                "unknown instruction tag: "@ + text::decimal(tag as nat),
            )
        }),
        refuses_silently(
            dispatch::instruction_outcome(program_id, accounts, seq![]),
            ProgramError::InvalidInstructionData,
        ),
{
    assert((seq![tag] + payload).skip(1) =~= payload);
}

/// The instructions that derive no address never fail for want of one, and the
/// others do only if one of their derivations finds none.
pub proof fn only_derivations_can_be_missing(
    program_id: Seq<u8>,
    accounts: Seq<Account>,
    tag: u8,
    payload: Seq<u8>,
)
    ensures
        tag != 1 && tag != 3 && tag != 5 ==> dispatch::addresses_exist(
            program_id,
            accounts,
            seq![tag] + payload,
        ),
        (forall|seeds: Seq<Seq<u8>>| #[trigger]
            address::program_address(seeds, program_id) is Some) ==> dispatch::addresses_exist(
            program_id,
            accounts,
            seq![tag] + payload,
        ),
        tag == 3 && payload.len() == 0 && accounts.len() >= 3 && accounts[0].is_signer
            && accounts[2].key@ == address::SYSTEM_PROGRAM_ID@ ==> (dispatch::addresses_exist(
            program_id,
            accounts,
            seq![tag] + payload,
        ) <==> address::program_address(
            laws::kind_seeds(AddressKind::Stats, seq![], seq![]),
            program_id,
        ) is Some),
        tag == 1 && payload.len() == 112 && accounts.len() >= 3 && accounts[0].is_signer
            && accounts[2].key@ == address::SYSTEM_PROGRAM_ID@ && bytes::u64_at(payload, 96) > 0
            && bytes::u64_at(payload, 104) > 0 ==> (dispatch::addresses_exist(
            program_id,
            accounts,
            seq![tag] + payload,
        ) <==> address::program_address(
            laws::kind_seeds(
                AddressKind::Market,
                payload.subrange(32, 64),
                payload.subrange(64, 96),
            ),
            program_id,
        ) is Some),
        tag == 5 && payload.len() == 0 && accounts.len() >= 7 && accounts[0].is_signer
            && accounts[1].owner@ == program_id && accounts[2].owner@
            == address::SPL_TOKEN_PROGRAM_ID@ && accounts[5].key@ == address::SYSTEM_PROGRAM_ID@
            && accounts[6].key@ == address::SPL_TOKEN_PROGRAM_ID@ ==> (dispatch::addresses_exist(
            program_id,
            accounts,
            seq![tag] + payload,
        ) <==> match address::program_address(
            laws::kind_seeds(AddressKind::Vault, accounts[1].key@, accounts[2].key@),
            program_id,
        ) {
            Some(vault) => accounts[3].key@ != vault.0 || address::program_address(
                laws::kind_seeds(AddressKind::VaultAuthority, accounts[1].key@, seq![]),
                program_id,
            ) is Some,
            None => false,
        }),
        tag == 1 && (payload.len() != 112 || accounts.len() < 3 || !accounts[0].is_signer)
            ==> dispatch::addresses_exist(program_id, accounts, seq![tag] + payload),
        (tag == 3 || tag == 5) && (payload.len() != 0 || accounts.len() < 3
            || !accounts[0].is_signer) ==> dispatch::addresses_exist(
            program_id,
            accounts,
            seq![tag] + payload,
        ),
{
    assert((seq![tag] + payload).skip(1) =~= payload);
    assert(laws::kind_seeds(
        AddressKind::Market,
        payload.subrange(32, 64),
        payload.subrange(64, 96),
    ) =~= market::market_seeds(payload));
    if accounts.len() >= 7 {
        assert(laws::kind_seeds(AddressKind::Vault, accounts[1].key@, accounts[2].key@)
            =~= vault::vault_seeds(accounts[1].key@, accounts[2].key@));
        assert(laws::kind_seeds(AddressKind::VaultAuthority, accounts[1].key@, seq![])
            =~= vault::vault_auth_seeds(accounts[1].key@));
    }
    assert(laws::kind_seeds(AddressKind::Stats, seq![], seq![]) =~= stats::stats_seeds());
}

/// The call that creates an account names who pays, what is created, for how
/// many lamports, how long and for which owner; both accounts sign.
pub proof fn creation_calls_say_what_is_created(
    from: Seq<u8>,
    to: Seq<u8>,
    lamports: u64,
    space: u64,
    owner: Seq<u8>,
)
    requires
        owner.len() == 32,
    ensures
        ({
            let ix = system::create_account_view(from, to, lamports as nat, space as nat, owner);
            &&& ix.program_id == address::SYSTEM_PROGRAM_ID@
            &&& ix.accounts.len() == 2
            &&& ix.accounts[0].pubkey == from && ix.accounts[0].is_signer
                && ix.accounts[0].is_writable
            &&& ix.accounts[1].pubkey == to && ix.accounts[1].is_signer
                && ix.accounts[1].is_writable
            &&& ix.data.len() == 52
            &&& bytes::u32_at(ix.data, 0) == 0
            &&& bytes::u64_at(ix.data, 4) == lamports
            &&& bytes::u64_at(ix.data, 12) == space
            &&& ix.data.skip(20) == owner
        }),
{
    bytes::lemma_pow256_values();
    let d = system::create_account_view(from, to, lamports as nat, space as nat, owner).data;
    bytes::lemma_le_round_trip(0, 4);
    bytes::lemma_le_round_trip(lamports as nat, 8);
    bytes::lemma_le_round_trip(space as nat, 8);
    assert(bytes::part(d, 0, 4) =~= bytes::le_bytes(0, 4));
    assert(bytes::part(d, 4, 8) =~= bytes::le_bytes(lamports as nat, 8));
    assert(bytes::part(d, 12, 8) =~= bytes::le_bytes(space as nat, 8));
    assert(d.skip(20) =~= owner);
}

} // verus!
