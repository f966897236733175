//! The commands and the program agree: what a command sends, the program
//! takes as it was meant.

use vstd::prelude::*;

use crate::bytes;
use crate::client::bench;
use crate::client::market;
use crate::client::stats;
use crate::client::vault;
use crate::program::address;
use crate::program::bench as program_bench;
use crate::program::dispatch;
use crate::program::log;
use crate::program::market as program_market;
use crate::program::market::MarketParams;
use crate::program::stats as program_stats;
use crate::program::types;
use crate::program::types::Account;
use crate::program::vault as program_vault;
use crate::state::{Market, Stats};

verus! {

/// The accounts that the program is called with are those that the
/// instruction lists, and those listed as signers have signed.
pub open spec fn passed(metas: Seq<types::MetaView>, accounts: Seq<Account>) -> bool {
    &&& accounts.len() == metas.len()
    &&& forall|i: int|
        0 <= i < metas.len() ==> (#[trigger] accounts[i]).key@ == metas[i].pubkey
            && accounts[i].is_signer == metas[i].is_signer
}

/// What follows the tag is the payload.
proof fn lemma_payload(tag: u8, payload: Seq<u8>)
    ensures
        (seq![tag] + payload)[0] == tag,
        (seq![tag] + payload).skip(1) == payload,
{
    assert((seq![tag] + payload).skip(1) =~= payload);
}

/// What `init-market` sends turns a blank account that the program owns into
/// the market asked for.
pub proof fn init_market_is_accepted(
    program: Seq<u8>,
    market_key: Seq<u8>,
    params: MarketParams,
    accounts: Seq<Account>,
)
    requires
        passed(market::initialize_view(program, market_key, params).accounts, accounts),
        accounts[0].owner@ == program,
        accounts[0].data@ == types::zeros(Market::LEN as nat),
        params.tick_size > 0,
        params.lot_size > 0,
    ensures
        dispatch::instruction_outcome(
            program,
            accounts,
            market::initialize_view(program, market_key, params).data,
        ) == Ok::<Seq<types::StepView>, types::RefusalView>(
            seq![
                types::StepView::Write {
                    account: 0,
                    data: program_market::market_data(params.payload(), 0),
                },
                types::StepView::Log { line: "market initialized"@ },
            ],
        ),
{
    lemma_payload(dispatch::TAG_INITIALIZE, params.payload());
    params.payload_is_laid_out();
    assert(bytes::part(accounts[0].data@, 0, 8) =~= types::zeros(8));
}

/// What `create-market` sends, for the address that it derives, creates the
/// market asked for at that address.
pub proof fn create_market_is_accepted(
    program: Seq<u8>,
    payer: Seq<u8>,
    market_key: Seq<u8>,
    bump: u8,
    params: MarketParams,
    accounts: Seq<Account>,
)
    requires
        address::program_address(
            seq![address::MARKET_SEED@, params.base_mint@, params.quote_mint@],
            program,
        ) == Some((market_key, bump)),
        passed(market::create_market_view(program, payer, market_key, params).accounts, accounts),
        params.tick_size > 0,
        params.lot_size > 0,
    ensures
        dispatch::instruction_outcome(
            program,
            accounts,
            market::create_market_view(program, payer, market_key, params).data,
        ) == Ok::<Seq<types::StepView>, types::RefusalView>(
            seq![
                types::StepView::CreateAccount {
                    payer: 0,
                    account: 1,
                    system: 2,
                    space: Market::LEN as int,
                    owner: program,
                    seeds: seq![
                        address::MARKET_SEED@,
                        params.base_mint@,
                        params.quote_mint@,
                        seq![bump],
                    ],
                },
                types::StepView::Write {
                    account: 1,
                    data: program_market::market_data(params.payload(), bump),
                },
                types::StepView::Log {
                    line: log::number_line("market created at PDA (bump "@, bump as nat) + ")"@,
                },
            ],
        ),
{
    lemma_payload(dispatch::TAG_CREATE_MARKET, params.payload());
    params.payload_is_laid_out();
    let metas = market::create_market_view(program, payer, market_key, params).accounts;
    assert(accounts[0].is_signer == metas[0].is_signer);
    assert(accounts[1].key@ == metas[1].pubkey);
    assert(accounts[2].key@ == metas[2].pubkey);
    assert(program_market::market_seeds(params.payload()).push(seq![bump]) =~= seq![
        address::MARKET_SEED@,
        params.base_mint@,
        params.quote_mint@,
        seq![bump],
    ]);
    assert(program_market::market_seeds(params.payload()) =~= seq![
        address::MARKET_SEED@,
        params.base_mint@,
        params.quote_mint@,
    ]);
}

/// What `stats --init` sends creates the counter, at zero.
pub proof fn create_stats_is_accepted(
    program: Seq<u8>,
    payer: Seq<u8>,
    stats_key: Seq<u8>,
    bump: u8,
    accounts: Seq<Account>,
)
    requires
        address::program_address(seq![address::STATS_SEED@], program) == Some((stats_key, bump)),
        passed(stats::stats_view(true, program, payer, stats_key).accounts, accounts),
    ensures
        dispatch::instruction_outcome(
            program,
            accounts,
            stats::stats_view(true, program, payer, stats_key).data,
        ) == Ok::<Seq<types::StepView>, types::RefusalView>(
            seq![
                types::StepView::CreateAccount {
                    payer: 0,
                    account: 1,
                    system: 2,
                    space: Stats::LEN as int,
                    owner: program,
                    seeds: seq![address::STATS_SEED@, seq![bump]],
                },
                types::StepView::Write { account: 1, data: program_stats::stats_data(bump) },
                types::StepView::Log {
                    line: log::number_line("stats created at PDA (bump "@, bump as nat) + ")"@,
                },
            ],
        ),
{
    let view = stats::stats_view(true, program, payer, stats_key);
    assert(view.data.skip(1) =~= seq![]);
    assert(accounts[0].is_signer == view.accounts[0].is_signer);
    assert(accounts[1].key@ == view.accounts[1].pubkey);
    assert(accounts[2].key@ == view.accounts[2].pubkey);
    assert(program_stats::stats_seeds().push(seq![bump]) =~= seq![
        address::STATS_SEED@,
        seq![bump],
    ]);
}

/// What `stats` sends after that counts up.
pub proof fn bump_stats_is_accepted(
    program: Seq<u8>,
    payer: Seq<u8>,
    stats_key: Seq<u8>,
    accounts: Seq<Account>,
)
    requires
        passed(stats::stats_view(false, program, payer, stats_key).accounts, accounts),
        accounts[0].owner@ == program,
        accounts[0].data@.len() == Stats::LEN,
        bytes::part(accounts[0].data@, 0, 8) == crate::state::STATS_DISCRIMINATOR@,
    ensures
        dispatch::instruction_outcome(
            program,
            accounts,
            stats::stats_view(false, program, payer, stats_key).data,
        ) == Ok::<Seq<types::StepView>, types::RefusalView>(
            seq![
                types::StepView::Write {
                    account: 0,
                    data: program_stats::bumped(accounts[0].data@),
                },
                types::StepView::Log {
                    line: log::number_line(
                        "stats.market_count: "@,
                        program_stats::next_count(accounts[0].data@),
                    ),
                },
            ],
        ),
{
    let view = stats::stats_view(false, program, payer, stats_key);
    assert(view.data.skip(1) =~= seq![]);
}

/// What `create-vault` sends, for the addresses that it derives, creates the
/// vault of the mint and gives it to the authority of the market's vaults.
pub proof fn create_vault_is_accepted(
    program: Seq<u8>,
    payer: Seq<u8>,
    market_key: Seq<u8>,
    mint: Seq<u8>,
    vault_key: (Seq<u8>, u8),
    vault_auth: (Seq<u8>, u8),
    accounts: Seq<Account>,
)
    requires
        address::program_address(seq![address::VAULT_SEED@, market_key, mint], program) == Some(
            vault_key,
        ),
        address::program_address(seq![address::VAULT_AUTH_SEED@, market_key], program) == Some(
            vault_auth,
        ),
        passed(
            vault::create_vault_view(
                program,
                payer,
                market_key,
                mint,
                vault_key.0,
                vault_auth.0,
            ).accounts,
            accounts,
        ),
        accounts[1].owner@ == program,
        accounts[2].owner@ == address::SPL_TOKEN_PROGRAM_ID@,
    ensures
        dispatch::instruction_outcome(
            program,
            accounts,
            vault::create_vault_view(
                program,
                payer,
                market_key,
                mint,
                vault_key.0,
                vault_auth.0,
            ).data,
        ) == Ok::<Seq<types::StepView>, types::RefusalView>(
            seq![
                types::StepView::CreateAccount {
                    payer: 0,
                    account: 3,
                    system: 5,
                    space: program_vault::TOKEN_ACCOUNT_LEN as int,
                    owner: address::SPL_TOKEN_PROGRAM_ID@,
                    seeds: seq![address::VAULT_SEED@, market_key, mint, seq![vault_key.1]],
                },
                types::StepView::Invoke {
                    instruction: program_vault::initialize_account_3(
                        vault_key.0,
                        mint,
                        vault_auth.0,
                    ),
                    accounts: seq![3, 2, 6],
                },
                types::StepView::Log {
                    line: log::number_line("vault created (vault bump "@, vault_key.1 as nat)
                        + ")"@,
                },
            ],
        ),
{
    let view = vault::create_vault_view(
        program,
        payer,
        market_key,
        mint,
        vault_key.0,
        vault_auth.0,
    );
    assert(view.data.skip(1) =~= seq![]);
    assert(accounts[0].is_signer == view.accounts[0].is_signer);
    assert(accounts[1].key@ == view.accounts[1].pubkey);
    assert(accounts[2].key@ == view.accounts[2].pubkey);
    assert(accounts[3].key@ == view.accounts[3].pubkey);
    assert(accounts[4].key@ == view.accounts[4].pubkey);
    assert(accounts[5].key@ == view.accounts[5].pubkey);
    assert(accounts[6].key@ == view.accounts[6].pubkey);
    assert(program_vault::vault_seeds(market_key, mint).push(seq![vault_key.1]) =~= seq![
        address::VAULT_SEED@,
        market_key,
        mint,
        seq![vault_key.1],
    ]);
}

/// What `deposit` sends moves the amount asked for from the user's token
/// account to the vault, on the user's signature.
pub proof fn deposit_is_accepted(
    program: Seq<u8>,
    user: Seq<u8>,
    user_token: Seq<u8>,
    vault_key: Seq<u8>,
    amount: u64,
    accounts: Seq<Account>,
)
    requires
        amount > 0,
        passed(
            vault::deposit_view(program, user, user_token, vault_key, amount as nat).accounts,
            accounts,
        ),
        accounts[1].owner@ == address::SPL_TOKEN_PROGRAM_ID@,
        accounts[2].owner@ == address::SPL_TOKEN_PROGRAM_ID@,
    ensures
        dispatch::instruction_outcome(
            program,
            accounts,
            vault::deposit_view(program, user, user_token, vault_key, amount as nat).data,
        ) == Ok::<Seq<types::StepView>, types::RefusalView>(
            seq![
                types::StepView::Invoke {
                    instruction: program_vault::transfer(
                        user_token,
                        vault_key,
                        user,
                        amount as nat,
                    ),
                    accounts: seq![1, 2, 0, 3],
                },
                types::StepView::Log {
                    line: log::number_line("deposit: transferred "@, amount as nat) + " units"@,
                },
            ],
        ),
{
    let payload = bytes::le_bytes(amount as nat, 8);
    lemma_payload(dispatch::TAG_DEPOSIT, payload);
    bytes::lemma_pow256_values();
    bytes::lemma_le_round_trip(amount as nat, 8);
    assert(bytes::part(payload, 0, 8) =~= payload);
    let view = vault::deposit_view(program, user, user_token, vault_key, amount as nat);
    assert(accounts[0].is_signer == view.accounts[0].is_signer);
    assert(accounts[0].key@ == view.accounts[0].pubkey);
    assert(accounts[1].key@ == view.accounts[1].pubkey);
    assert(accounts[2].key@ == view.accounts[2].pubkey);
    assert(accounts[3].key@ == view.accounts[3].pubkey);
}

/// What `bench` sends runs the rounds and takes the memory asked for.
pub proof fn bench_is_accepted(
    program: Seq<u8>,
    rounds: u32,
    heap_bytes: u32,
    accounts: Seq<Account>,
)
    ensures
        dispatch::instruction_outcome(
            program,
            accounts,
            bench::bench_view(program, rounds as nat, heap_bytes as nat).data,
        ) == Ok::<Seq<types::StepView>, types::RefusalView>(
            program_bench::bench_steps(rounds as nat, heap_bytes as nat),
        ),
{
    let first = bytes::le_bytes(rounds as nat, 4);
    let second = bytes::le_bytes(heap_bytes as nat, 4);
    bytes::lemma_pow256_values();
    bytes::lemma_le_round_trip(rounds as nat, 4);
    bytes::lemma_le_round_trip(heap_bytes as nat, 4);
    lemma_payload(dispatch::TAG_BENCH, first + second);
    let data = bench::bench_view(program, rounds as nat, heap_bytes as nat).data;
    assert(data =~= seq![dispatch::TAG_BENCH] + (first + second));
    assert(bytes::part(first + second, 0, 4) =~= first);
    assert(bytes::part(first + second, 4, 4) =~= second);
}

} // verus!
