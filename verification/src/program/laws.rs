//! What holds across the instructions of the program.

use vstd::prelude::*;

use crate::bytes;
use crate::program::address;
use crate::program::dispatch;
use crate::program::log;
use crate::program::market;
use crate::program::market::MarketParams;
use crate::program::stats;
use crate::program::types;
use crate::program::types::{Account, ProgramError};
use crate::program::vault;
use crate::state::{Market, MARKET_DISCRIMINATOR, STATS_DISCRIMINATOR};

verus! {

/// An instruction without data, or with a tag that the program does not know,
/// is refused.
pub proof fn unknown_tag_is_refused(program_id: Seq<u8>, accounts: Seq<Account>, data: Seq<u8>)
    requires
        data.len() == 0 || data[0] > dispatch::TAG_DEPOSIT,
    ensures
        dispatch::instruction_outcome(program_id, accounts, data) == Err::<
            Seq<types::StepView>,
            types::RefusalView,
        >(
            if data.len() == 0 {
                types::silent_refusal(ProgramError::InvalidInstructionData)
            } else {
                types::refusal(
                    ProgramError::InvalidInstructionData,
                    log::number_line("unknown instruction tag: "@, data[0] as nat),
                )
            },
        ),
{
}

/// Reading a market account gives back the values that the instruction
/// carried, whichever of the two instructions wrote it.
pub proof fn market_reads_back(params: MarketParams, payload: Seq<u8>, bump: u8, read: Market)
    requires
        params.laid_out(payload),
        read.laid_out(market::market_data(payload, bump)),
    ensures
        read.discriminator == MARKET_DISCRIMINATOR,
        read.version == Market::VERSION,
        read.bump == bump,
        read.authority == params.authority,
        read.base_mint == params.base_mint,
        read.quote_mint == params.quote_mint,
        read.tick_size == params.tick_size,
        read.lot_size == params.lot_size,
        read._pad0@ == types::zeros(6),
        read._reserved@ == types::zeros(128),
{
    let b = market::market_data(payload, bump);
    assert(bytes::part(b, 0, 8) =~= MARKET_DISCRIMINATOR@);
    assert(bytes::part(b, 10, 6) =~= types::zeros(6));
    assert(bytes::part(b, 16, 32) =~= bytes::part(payload, 0, 32));
    assert(bytes::part(b, 48, 32) =~= bytes::part(payload, 32, 32));
    assert(bytes::part(b, 80, 32) =~= bytes::part(payload, 64, 32));
    assert(bytes::part(b, 112, 8) =~= bytes::part(payload, 96, 8));
    assert(bytes::part(b, 120, 8) =~= bytes::part(payload, 104, 8));
    assert(bytes::part(b, 128, 128) =~= types::zeros(128));
    assert(read.discriminator =~= MARKET_DISCRIMINATOR);
    assert(read.authority =~= params.authority);
    assert(read.base_mint =~= params.base_mint);
    assert(read.quote_mint =~= params.quote_mint);
}

/// `Initialize` and `CreateMarket` write the same bytes but for the bump.
pub proof fn market_data_differs_in_bump_only(payload: Seq<u8>, a: u8, b: u8)
    requires
        payload.len() == market::MARKET_PAYLOAD_LEN,
    ensures
        market::market_data(payload, a).len() == Market::LEN,
        market::market_data(payload, a)[9] == a,
        market::market_data(payload, b) == market::market_data(payload, a).update(9, b),
{
    assert(market::market_data(payload, b) =~= market::market_data(payload, a).update(9, b));
}

/// A live market is never initialized again, whatever the second payload says.
pub proof fn live_market_is_not_initialized_again(
    program_id: Seq<u8>,
    accounts: Seq<Account>,
    payload: Seq<u8>,
    written: Seq<u8>,
    bump: u8,
)
    requires
        payload.len() == market::MARKET_PAYLOAD_LEN,
        written.len() == market::MARKET_PAYLOAD_LEN,
        accounts.len() >= 1,
        accounts[0].owner@ == program_id,
        accounts[0].data@ == market::market_data(written, bump),
    ensures
        market::initialize_outcome(program_id, accounts, payload) == Err::<
            Seq<types::StepView>,
            types::RefusalView,
        >(
            types::refusal(
                ProgramError::AccountAlreadyInitialized,
                "initialize: market already initialized"@,
            ),
        ),
{
    let b = market::market_data(written, bump);
    assert(bytes::part(b, 0, 8)[0] == MARKET_DISCRIMINATOR@[0]);
    assert(bytes::part(b, 0, 8)[0] != types::zeros(8)[0]);
}

/// `BumpStats` counts up by one, stops at the limit of the counter and
/// changes no byte outside it.
pub proof fn bump_counts_one(data: Seq<u8>)
    requires
        data.len() == 56,
    ensures
        stats::bumped(data).len() == 56,
        bytes::u64_at(stats::bumped(data), 16) == if bytes::u64_at(data, 16) < u64::MAX {
            bytes::u64_at(data, 16) + 1
        } else {
            u64::MAX as nat
        },
        forall|i: int|
            0 <= i < 16 || 24 <= i < 56 ==> #[trigger] stats::bumped(data)[i] == data[i],
{
    bytes::lemma_pow256_values();
    bytes::lemma_le_value_bound(bytes::part(data, 16, 8));
    let count = bytes::u64_at(data, 16);
    let next = if count < u64::MAX {
        count + 1
    } else {
        count
    };
    bytes::lemma_le_round_trip(next, 8);
    assert(bytes::part(stats::bumped(data), 16, 8) =~= bytes::le_bytes(next, 8));
}

/// The data of a `Stats` account after `n` bumps.
pub open spec fn bumped_times(data: Seq<u8>, n: nat) -> Seq<u8>
    decreases n,
{
    if n == 0 {
        data
    } else {
        stats::bumped(bumped_times(data, (n - 1) as nat))
    }
}

/// After `n` bumps of a fresh `Stats` account the counter is at `n`, or at its
/// limit, and the account is still accepted for the next bump.
pub proof fn fresh_stats_count_bumps(bump: u8, n: nat)
    ensures
        ({
            let data = bumped_times(stats::stats_data(bump), n);
            &&& data.len() == 56
            &&& bytes::part(data, 0, 8) == STATS_DISCRIMINATOR@
            &&& data[8] == bump
            &&& bytes::u64_at(data, 16) == if n < u64::MAX {
                n
            } else {
                u64::MAX as nat
            }
        }),
    decreases n,
{
    if n == 0 {
        let data = stats::stats_data(bump);
        assert(bytes::part(data, 0, 8) =~= STATS_DISCRIMINATOR@);
        bytes::lemma_zero_value(bytes::part(data, 16, 8));
    } else {
        fresh_stats_count_bumps(bump, (n - 1) as nat);
        let before = bumped_times(stats::stats_data(bump), (n - 1) as nat);
        let data = bumped_times(stats::stats_data(bump), n);
        bump_counts_one(before);
        assert(bytes::part(data, 0, 8) =~= bytes::part(before, 0, 8));
    }
}

/// Nothing is paid and no other program is called unless the first account
/// signed.
pub proof fn calls_need_a_signature(program_id: Seq<u8>, accounts: Seq<Account>, data: Seq<u8>)
    ensures
        match dispatch::instruction_outcome(program_id, accounts, data) {
            Ok(steps) => forall|i: int|
                0 <= i < steps.len() && (#[trigger] steps[i] is CreateAccount || steps[i] is Invoke)
                    ==> accounts[0].is_signer,
            Err(_) => true,
        },
{
}

/// The program writes only to accounts that it owns: those it owned when it
/// was called, and those it made itself owner of in the step before.
pub proof fn writes_stay_in_owned_accounts(
    program_id: Seq<u8>,
    accounts: Seq<Account>,
    data: Seq<u8>,
)
    ensures
        match dispatch::instruction_outcome(program_id, accounts, data) {
            Ok(steps) => forall|i: int|
                0 <= i < steps.len() ==> match #[trigger] steps[i] {
                    types::StepView::Write { account, .. } => {
                        ||| accounts[account].owner@ == program_id
                        ||| i >= 1 && (steps[i - 1] matches types::StepView::CreateAccount {
                            account: created,
                            owner,
                            ..
                        } && created == account && owner == program_id)
                    },
                    _ => true,
                },
            Err(_) => true,
        },
{
}

/// Every account that the program creates sits at the address that the
/// signing seeds lead to: the seeds without the last one derive the key of
/// the account, and the last seed is the bump of that derivation.
pub proof fn created_accounts_are_derived(
    program_id: Seq<u8>,
    accounts: Seq<Account>,
    data: Seq<u8>,
)
    requires
        dispatch::addresses_exist(program_id, accounts, data),
    ensures
        match dispatch::instruction_outcome(program_id, accounts, data) {
            Ok(steps) => forall|i: int|
                0 <= i < steps.len() ==> match #[trigger] steps[i] {
                    types::StepView::CreateAccount { account, seeds, .. } => {
                        &&& seeds.len() >= 2
                        &&& seeds.last().len() == 1
                        &&& address::program_address(seeds.drop_last(), program_id) == Some(
                            (accounts[account].key@, seeds.last()[0]),
                        )
                    },
                    _ => true,
                },
            Err(_) => true,
        },
{
    if data.len() > 0 {
        let payload = data.skip(1);
        let m = market::market_seeds(payload);
        assert forall|bump: u8| #[trigger] m.push(seq![bump]).drop_last() == m by {
            assert(m.push(seq![bump]).drop_last() =~= m);
        }
        let s = stats::stats_seeds();
        assert forall|bump: u8| #[trigger] s.push(seq![bump]).drop_last() == s by {
            assert(s.push(seq![bump]).drop_last() =~= s);
        }
        let v = vault::vault_seeds(accounts[1].key@, accounts[2].key@);
        assert forall|bump: u8| #[trigger] v.push(seq![bump]).drop_last() == v by {
            assert(v.push(seq![bump]).drop_last() =~= v);
        }
    }
}

/// An account is created before anything else is done, so an instruction
/// whose creation the System program refuses leaves every account as it was
/// and logs nothing.
pub proof fn creation_comes_first(program_id: Seq<u8>, accounts: Seq<Account>, data: Seq<u8>)
    ensures
        match dispatch::instruction_outcome(program_id, accounts, data) {
            Ok(steps) => forall|i: int|
                0 <= i < steps.len() && #[trigger] steps[i] is CreateAccount ==> i == 0,
            Err(_) => true,
        },
{
}

/// The data of the account at position `at` once the first `done` steps were
/// carried out, if it was `before`. What a called program writes is left out.
pub open spec fn data_after(
    before: Seq<u8>,
    at: int,
    steps: Seq<types::StepView>,
    done: nat,
) -> Seq<u8>
    decreases done,
{
    if done == 0 {
        before
    } else {
        let now = data_after(before, at, steps, (done - 1) as nat);
        match steps[done - 1] {
            types::StepView::CreateAccount { account, space, .. } if account == at => types::zeros(
                space as nat,
            ),
            types::StepView::Write { account, data } if account == at => data + now.skip(
                data.len() as int,
            ),
            _ => now,
        }
    }
}

/// An accepted `CreateMarket` that is carried out to its end leaves the market
/// that its payload describes.
pub proof fn created_market_holds_its_data(
    program_id: Seq<u8>,
    accounts: Seq<Account>,
    payload: Seq<u8>,
    before: Seq<u8>,
)
    requires
        market::create_market_outcome(program_id, accounts, payload) is Ok,
    ensures
        ({
            let steps = market::create_market_outcome(program_id, accounts, payload)->Ok_0;
            let bump = (address::program_address(
                market::market_seeds(payload),
                program_id,
            )->Some_0).1;
            data_after(before, 1, steps, steps.len()) == market::market_data(payload, bump)
        }),
{
    let steps = market::create_market_outcome(program_id, accounts, payload)->Ok_0;
    reveal_with_fuel(data_after, 4);
    let bump = (address::program_address(market::market_seeds(payload), program_id)->Some_0).1;
    assert(data_after(before, 1, steps, 3) =~= market::market_data(payload, bump));
}

/// A pair of mints has one market: whoever creates it, and with whatever
/// authority, tick size and lot size, the account to create is the same. If
/// the System program refuses to create it a second time, the instruction
/// stops there with the bytes of the live market unchanged.
pub proof fn second_creation_is_of_the_same_market(
    program_id: Seq<u8>,
    accounts: Seq<Account>,
    payload: Seq<u8>,
    other_accounts: Seq<Account>,
    other_payload: Seq<u8>,
)
    requires
        market::create_market_outcome(program_id, accounts, payload) is Ok,
        market::create_market_outcome(program_id, other_accounts, other_payload) is Ok,
        bytes::part(payload, 32, 64) == bytes::part(other_payload, 32, 64),
    ensures
        accounts[1].key@ == other_accounts[1].key@,
        ({
            let steps = market::create_market_outcome(program_id, accounts, payload)->Ok_0;
            let other = market::create_market_outcome(
                program_id,
                other_accounts,
                other_payload,
            )->Ok_0;
            &&& steps[0] == other[0]
            &&& steps[0] matches types::StepView::CreateAccount { account, space, owner, .. }
                && account == 1 && space == Market::LEN && owner == program_id
            &&& other.len() == 3
            &&& other[1] is Write
            &&& other[2] is Log
            &&& forall|refused: int|
                0 <= refused < other.len() && #[trigger] other[refused] is CreateAccount
                    ==> data_after(
                    other_accounts[1].data@,
                    1,
                    other,
                    refused as nat,
                ) == other_accounts[1].data@
        }),
{
    let mints = bytes::part(payload, 32, 64);
    assert(bytes::part(payload, 32, 32) =~= mints.take(32));
    assert(bytes::part(payload, 64, 32) =~= mints.skip(32));
    assert(bytes::part(other_payload, 32, 32) =~= mints.take(32));
    assert(bytes::part(other_payload, 64, 32) =~= mints.skip(32));
    assert(market::market_seeds(payload) =~= market::market_seeds(other_payload));
}

/// The token instruction of a deposit carries the amount that was asked for.
pub proof fn deposit_moves_the_amount(accounts: Seq<Account>, payload: Seq<u8>)
    requires
        vault::deposit_outcome(accounts, payload) is Ok,
    ensures
        ({
            let steps = vault::deposit_outcome(accounts, payload)->Ok_0;
            &&& steps.len() == 2
            &&& steps[1] is Log
            &&& steps[0] matches types::StepView::Invoke { instruction, .. }
            &&& instruction.program_id == address::SPL_TOKEN_PROGRAM_ID@
            &&& instruction.data.len() == 9
            &&& instruction.data[0] == vault::SPL_TRANSFER
            &&& bytes::u64_at(instruction.data, 1) == bytes::u64_at(payload, 0)
            &&& bytes::u64_at(payload, 0) > 0
        }),
{
    let amount = bytes::u64_at(payload, 0);
    bytes::lemma_pow256_values();
    bytes::lemma_le_value_bound(bytes::part(payload, 0, 8));
    bytes::lemma_le_round_trip(amount, 8);
    let sent = seq![vault::SPL_TRANSFER] + bytes::le_bytes(amount, 8);
    assert(bytes::part(sent, 1, 8) =~= bytes::le_bytes(amount, 8));
}

/// The bytes that a list of seeds feeds into the derivation, end to end.
pub open spec fn seed_bytes(seeds: Seq<Seq<u8>>) -> Seq<u8>
    decreases seeds.len(),
{
    if seeds.len() == 0 {
        seq![]
    } else {
        seed_bytes(seeds.drop_last()) + seeds.last()
    }
}

/// The kinds of derived addresses.
pub enum AddressKind {
    Market,
    Stats,
    Vault,
    VaultAuthority,
    Book,
    Oracle,
    Funding,
    Position,
    InsuranceFund,
    InsuranceFundToken,
    TradingVault,
    VaultShare,
    BuilderProfile,
    FeeVault,
    FeeVaultAuthority,
    Slab,
}

/// The seeds of an address of this kind. `a` and `b` are the keys that it
/// belongs to, as far as its kind uses them.
pub open spec fn kind_seeds(kind: AddressKind, a: Seq<u8>, b: Seq<u8>) -> Seq<Seq<u8>> {
    match kind {
        AddressKind::Market => seq![address::MARKET_SEED@, a, b],
        AddressKind::Stats => seq![address::STATS_SEED@],
        AddressKind::Vault => seq![address::VAULT_SEED@, a, b],
        AddressKind::VaultAuthority => seq![address::VAULT_AUTH_SEED@, a],
        AddressKind::Book => seq![address::BOOK_SEED@, a],
        AddressKind::Oracle => seq![address::ORACLE_SEED@, a],
        AddressKind::Funding => seq![address::FUNDING_SEED@, a],
        AddressKind::Position => seq![address::POSITION_SEED@, a, b],
        AddressKind::InsuranceFund => seq![address::INSURANCE_FUND_SEED@, a],
        AddressKind::InsuranceFundToken => seq![address::INSURANCE_FUND_TOKEN_SEED@, a, b],
        AddressKind::TradingVault => seq![address::TRADING_VAULT_SEED@, a, b],
        AddressKind::VaultShare => seq![address::VAULT_SHARE_SEED@, a, b],
        AddressKind::BuilderProfile => seq![address::BUILDER_PROFILE_SEED@, a],
        AddressKind::FeeVault => seq![address::FEE_VAULT_SEED@, a],
        AddressKind::FeeVaultAuthority => seq![address::FEE_VAULT_AUTH_SEED@, a],
        AddressKind::Slab => seq![address::SLAB_SEED@, a],
    }
}

/// The length of the seeds of this kind, end to end.
spec fn kind_len(kind: AddressKind) -> nat {
    match kind {
        AddressKind::Market => 70,
        AddressKind::Stats => 5,
        AddressKind::Vault => 69,
        AddressKind::VaultAuthority => 42,
        AddressKind::Book => 36,
        AddressKind::Oracle => 38,
        AddressKind::Funding => 39,
        AddressKind::Position => 72,
        AddressKind::InsuranceFund => 46,
        AddressKind::InsuranceFundToken => 84,
        AddressKind::TradingVault => 77,
        AddressKind::VaultShare => 75,
        AddressKind::BuilderProfile => 47,
        AddressKind::FeeVault => 41,
        AddressKind::FeeVaultAuthority => 46,
        AddressKind::Slab => 36,
    }
}

proof fn lemma_kind_bytes(kind: AddressKind, a: Seq<u8>, b: Seq<u8>)
    requires
        a.len() == 32,
        b.len() == 32,
    ensures
        seed_bytes(kind_seeds(kind, a, b)).len() == kind_len(kind),
        seed_bytes(kind_seeds(kind, a, b))[0] == kind_seeds(kind, a, b)[0][0],
{
    let seeds = kind_seeds(kind, a, b);
    reveal_with_fuel(seed_bytes, 4);
    assert(seeds.len() == 3 ==> seeds.drop_last().drop_last().drop_last().len() == 0);
    assert(seeds.len() == 2 ==> seeds.drop_last().drop_last().len() == 0);
    assert(seeds.len() == 1 ==> seeds.drop_last().len() == 0);
}

/// Addresses of different kinds never share their derivation: end to end,
/// their seeds are different bytes, whatever the keys are.
pub proof fn address_kinds_do_not_mix(
    kind: AddressKind,
    a: Seq<u8>,
    b: Seq<u8>,
    other: AddressKind,
    c: Seq<u8>,
    d: Seq<u8>,
)
    requires
        kind != other,
        a.len() == 32,
        b.len() == 32,
        c.len() == 32,
        d.len() == 32,
    ensures
        seed_bytes(kind_seeds(kind, a, b)) != seed_bytes(kind_seeds(other, c, d)),
{
    lemma_kind_bytes(kind, a, b);
    lemma_kind_bytes(other, c, d);
}

/// Within one kind, the seeds tell the keys apart: the same bytes end to end
/// come from the same keys.
pub proof fn address_keys_do_not_mix(
    kind: AddressKind,
    a: Seq<u8>,
    b: Seq<u8>,
    c: Seq<u8>,
    d: Seq<u8>,
)
    requires
        a.len() == 32,
        b.len() == 32,
        c.len() == 32,
        d.len() == 32,
        seed_bytes(kind_seeds(kind, a, b)) == seed_bytes(kind_seeds(kind, c, d)),
    ensures
        kind_seeds(kind, a, b).len() >= 2 ==> a == c,
        kind_seeds(kind, a, b).len() >= 3 ==> b == d,
{
    let first = kind_seeds(kind, a, b);
    let second = kind_seeds(kind, c, d);
    let n = first[0].len() as int;
    reveal_with_fuel(seed_bytes, 4);
    if first.len() == 3 {
        assert(first.drop_last().drop_last().drop_last().len() == 0);
        assert(second.drop_last().drop_last().drop_last().len() == 0);
        assert(seed_bytes(first).subrange(n, n + 32) =~= a);
        assert(seed_bytes(second).subrange(n, n + 32) =~= c);
        assert(seed_bytes(first).subrange(n + 32, n + 64) =~= b);
        assert(seed_bytes(second).subrange(n + 32, n + 64) =~= d);
    } else if first.len() == 2 {
        assert(first.drop_last().drop_last().len() == 0);
        assert(second.drop_last().drop_last().len() == 0);
        assert(seed_bytes(first).subrange(n, n + 32) =~= a);
        assert(seed_bytes(second).subrange(n, n + 32) =~= c);
    }
}

} // verus!
