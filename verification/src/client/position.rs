//! The command for positions and the insurance fund behind them.

use vstd::prelude::*;
use vstd::string::StringExecFns;

use crate::bytes;
use crate::client::book;
use crate::client::common;
use crate::client::keys;
use crate::client::keys::ClientError;
use crate::client::tags;
use crate::program::address;
use crate::program::laws;
use crate::program::laws::AddressKind;
use crate::program::types;
use crate::program::types::{AccountMeta, Instruction};
use crate::state::{InsuranceFund, Oracle, Position};
use crate::text;

verus! {

/// Maintenance margin: this share of the notional, in units of 0.01%.
pub const MAINT_MARGIN_BPS: u64 = 500;

/// Liquidation penalty: this share of the notional, in units of 0.01%.
pub const LIQUIDATION_PENALTY_BPS: u64 = 100;

/// The options of `position` that say what to do.
#[derive(Debug, Clone)]
pub struct PositionArgs {
    pub mint: Option<String>,
    pub open: bool,
    pub size: Option<i64>,
    pub collateral: Option<u64>,
    pub close: bool,
    pub liquidate: bool,
    pub target_user: Option<String>,
    pub user_token_account: Option<String>,
    pub owner_token_account: Option<String>,
    pub liquidator_token_account: Option<String>,
    pub create_insurance_fund: bool,
    pub deposit_insurance: bool,
    pub amount: Option<u64>,
}

/// The addresses that the instructions on positions use.
#[derive(Debug, Clone, Copy)]
pub struct PositionKeys {
    pub program: [u8; 32],
    pub payer: [u8; 32],
    pub market: [u8; 32],
    pub mint: [u8; 32],
    pub position: [u8; 32],
    pub oracle: [u8; 32],
    pub funding: [u8; 32],
    pub vault: [u8; 32],
    pub vault_auth: [u8; 32],
    pub fund: [u8; 32],
    pub fund_token: [u8; 32],
}

/// Whose position it is about: that of the target of a liquidation, else that
/// of the payer.
pub open spec fn position_user(args: PositionArgs, payer: Seq<u8>) -> keys::KeyRequest {
    if args.liquidate {
        keys::key_required(
            keys::opt_string(args.target_user),
            "--target-user required with --liquidate"@,
            "parse --target-user"@,
        )
    } else {
        Ok(payer)
    }
}

/// Whose position it is about.
pub fn read_position_user(args: &PositionArgs, payer: &[u8; 32]) -> (r: Result<
    [u8; 32],
    ClientError,
>)
    ensures
        keys::key_request(r) == position_user(*args, payer@),
{
    if args.liquidate {
        keys::require_key(
            keys::borrowed(&args.target_user),
            "--target-user required with --liquidate",
            "parse --target-user",
        )
    } else {
        Ok(*payer)
    }
}

/// The options ask for a change.
pub open spec fn mutating(args: PositionArgs) -> bool {
    args.open || args.close || args.liquidate || args.create_insurance_fund
        || args.deposit_insurance
}

/// Whether the options ask for a change.
pub fn is_mutating(args: &PositionArgs) -> (r: bool)
    ensures
        r == mutating(*args),
{
    args.open || args.close || args.liquidate || args.create_insurance_fund
        || args.deposit_insurance
}

/// The mint that a change is about.
pub fn read_position_mint(args: &PositionArgs) -> (r: Result<[u8; 32], ClientError>)
    ensures
        keys::key_request(r) == keys::key_required(
            keys::opt_string(args.mint),
            "--mint required for mutating modes"@,
            "parse --mint"@,
        ),
{
    keys::require_key(
        keys::borrowed(&args.mint),
        "--mint required for mutating modes",
        "parse --mint",
    )
}

/// The accounts of `OpenPosition`.
pub open spec fn open_accounts(
    payer: Seq<u8>,
    market: Seq<u8>,
    position: Seq<u8>,
    oracle: Seq<u8>,
    funding: Seq<u8>,
    mint: Seq<u8>,
    user_token: Seq<u8>,
    vault: Seq<u8>,
) -> Seq<types::MetaView> {
    seq![
        types::writable(payer, true),
        types::readonly(market, false),
        types::writable(position, false),
        types::readonly(oracle, false),
        types::readonly(funding, false),
        types::readonly(mint, false),
        types::writable(user_token, false),
        types::writable(vault, false),
        types::readonly(address::SYSTEM_PROGRAM_ID@, false),
        types::readonly(address::SPL_TOKEN_PROGRAM_ID@, false),
    ]
}

fn open_accounts_metas(
    payer: &[u8; 32],
    market: &[u8; 32],
    position: &[u8; 32],
    oracle: &[u8; 32],
    funding: &[u8; 32],
    mint: &[u8; 32],
    user_token: &[u8; 32],
    vault: &[u8; 32],
) -> (r: Vec<AccountMeta>)
    ensures
        types::metas(r@) == open_accounts(
            payer@,
            market@,
            position@,
            oracle@,
            funding@,
            mint@,
            user_token@,
            vault@,
        ),
{
    let r: Vec<AccountMeta> = vec![
        AccountMeta::new(*payer, true),
        AccountMeta::new_readonly(*market, false),
        AccountMeta::new(*position, false),
        AccountMeta::new_readonly(*oracle, false),
        AccountMeta::new_readonly(*funding, false),
        AccountMeta::new_readonly(*mint, false),
        AccountMeta::new(*user_token, false),
        AccountMeta::new(*vault, false),
        AccountMeta::new_readonly(address::SYSTEM_PROGRAM_ID, false),
        AccountMeta::new_readonly(address::SPL_TOKEN_PROGRAM_ID, false),
    ];
    assert(types::metas(r@) =~= open_accounts(
        payer@,
        market@,
        position@,
        oracle@,
        funding@,
        mint@,
        user_token@,
        vault@,
    ));
    r
}

/// The accounts of `ClosePosition`.
pub open spec fn close_accounts(
    payer: Seq<u8>,
    position: Seq<u8>,
    oracle: Seq<u8>,
    funding: Seq<u8>,
    market: Seq<u8>,
    mint: Seq<u8>,
    user_token: Seq<u8>,
    vault: Seq<u8>,
    vault_auth: Seq<u8>,
    fund: Seq<u8>,
    fund_token: Seq<u8>,
) -> Seq<types::MetaView> {
    seq![
        types::readonly(payer, true),
        types::writable(position, false),
        types::readonly(oracle, false),
        types::readonly(funding, false),
        types::readonly(market, false),
        types::readonly(mint, false),
        types::writable(user_token, false),
        types::writable(vault, false),
        types::readonly(vault_auth, false),
        types::readonly(address::SPL_TOKEN_PROGRAM_ID@, false),
        types::writable(fund, false),
        types::writable(fund_token, false),
    ]
}

fn close_accounts_metas(
    payer: &[u8; 32],
    position: &[u8; 32],
    oracle: &[u8; 32],
    funding: &[u8; 32],
    market: &[u8; 32],
    mint: &[u8; 32],
    user_token: &[u8; 32],
    vault: &[u8; 32],
    vault_auth: &[u8; 32],
    fund: &[u8; 32],
    fund_token: &[u8; 32],
) -> (r: Vec<AccountMeta>)
    ensures
        types::metas(r@) == close_accounts(
            payer@,
            position@,
            oracle@,
            funding@,
            market@,
            mint@,
            user_token@,
            vault@,
            vault_auth@,
            fund@,
            fund_token@,
        ),
{
    let r: Vec<AccountMeta> = vec![
        AccountMeta::new_readonly(*payer, true),
        AccountMeta::new(*position, false),
        AccountMeta::new_readonly(*oracle, false),
        AccountMeta::new_readonly(*funding, false),
        AccountMeta::new_readonly(*market, false),
        AccountMeta::new_readonly(*mint, false),
        AccountMeta::new(*user_token, false),
        AccountMeta::new(*vault, false),
        AccountMeta::new_readonly(*vault_auth, false),
        AccountMeta::new_readonly(address::SPL_TOKEN_PROGRAM_ID, false),
        AccountMeta::new(*fund, false),
        AccountMeta::new(*fund_token, false),
    ];
    assert(types::metas(r@) =~= close_accounts(
        payer@,
        position@,
        oracle@,
        funding@,
        market@,
        mint@,
        user_token@,
        vault@,
        vault_auth@,
        fund@,
        fund_token@,
    ));
    r
}

/// The accounts of `Liquidate`.
pub open spec fn liquidate_accounts(
    payer: Seq<u8>,
    position: Seq<u8>,
    oracle: Seq<u8>,
    funding: Seq<u8>,
    market: Seq<u8>,
    mint: Seq<u8>,
    owner_token: Seq<u8>,
    liquidator_token: Seq<u8>,
    vault: Seq<u8>,
    vault_auth: Seq<u8>,
    fund: Seq<u8>,
    fund_token: Seq<u8>,
) -> Seq<types::MetaView> {
    seq![
        types::readonly(payer, true),
        types::writable(position, false),
        types::readonly(oracle, false),
        types::readonly(funding, false),
        types::readonly(market, false),
        types::readonly(mint, false),
        types::writable(owner_token, false),
        types::writable(liquidator_token, false),
        types::writable(vault, false),
        types::readonly(vault_auth, false),
        types::readonly(address::SPL_TOKEN_PROGRAM_ID@, false),
        types::writable(fund, false),
        types::writable(fund_token, false),
    ]
}

fn liquidate_accounts_metas(
    payer: &[u8; 32],
    position: &[u8; 32],
    oracle: &[u8; 32],
    funding: &[u8; 32],
    market: &[u8; 32],
    mint: &[u8; 32],
    owner_token: &[u8; 32],
    liquidator_token: &[u8; 32],
    vault: &[u8; 32],
    vault_auth: &[u8; 32],
    fund: &[u8; 32],
    fund_token: &[u8; 32],
) -> (r: Vec<AccountMeta>)
    ensures
        types::metas(r@) == liquidate_accounts(
            payer@,
            position@,
            oracle@,
            funding@,
            market@,
            mint@,
            owner_token@,
            liquidator_token@,
            vault@,
            vault_auth@,
            fund@,
            fund_token@,
        ),
{
    let r: Vec<AccountMeta> = vec![
        AccountMeta::new_readonly(*payer, true),
        AccountMeta::new(*position, false),
        AccountMeta::new_readonly(*oracle, false),
        AccountMeta::new_readonly(*funding, false),
        AccountMeta::new_readonly(*market, false),
        AccountMeta::new_readonly(*mint, false),
        AccountMeta::new(*owner_token, false),
        AccountMeta::new(*liquidator_token, false),
        AccountMeta::new(*vault, false),
        AccountMeta::new_readonly(*vault_auth, false),
        AccountMeta::new_readonly(address::SPL_TOKEN_PROGRAM_ID, false),
        AccountMeta::new(*fund, false),
        AccountMeta::new(*fund_token, false),
    ];
    assert(types::metas(r@) =~= liquidate_accounts(
        payer@,
        position@,
        oracle@,
        funding@,
        market@,
        mint@,
        owner_token@,
        liquidator_token@,
        vault@,
        vault_auth@,
        fund@,
        fund_token@,
    ));
    r
}

/// The accounts of `CreateInsuranceFund`.
pub open spec fn create_fund_accounts(
    payer: Seq<u8>,
    market: Seq<u8>,
    mint: Seq<u8>,
    fund: Seq<u8>,
    fund_token: Seq<u8>,
    vault_auth: Seq<u8>,
) -> Seq<types::MetaView> {
    seq![
        types::writable(payer, true),
        types::readonly(market, false),
        types::readonly(mint, false),
        types::writable(fund, false),
        types::writable(fund_token, false),
        types::readonly(vault_auth, false),
        types::readonly(address::SYSTEM_PROGRAM_ID@, false),
        types::readonly(address::SPL_TOKEN_PROGRAM_ID@, false),
    ]
}

fn create_fund_accounts_metas(
    payer: &[u8; 32],
    market: &[u8; 32],
    mint: &[u8; 32],
    fund: &[u8; 32],
    fund_token: &[u8; 32],
    vault_auth: &[u8; 32],
) -> (r: Vec<AccountMeta>)
    ensures
        types::metas(r@) == create_fund_accounts(
            payer@,
            market@,
            mint@,
            fund@,
            fund_token@,
            vault_auth@,
        ),
{
    let r: Vec<AccountMeta> = vec![
        AccountMeta::new(*payer, true),
        AccountMeta::new_readonly(*market, false),
        AccountMeta::new_readonly(*mint, false),
        AccountMeta::new(*fund, false),
        AccountMeta::new(*fund_token, false),
        AccountMeta::new_readonly(*vault_auth, false),
        AccountMeta::new_readonly(address::SYSTEM_PROGRAM_ID, false),
        AccountMeta::new_readonly(address::SPL_TOKEN_PROGRAM_ID, false),
    ];
    assert(types::metas(r@) =~= create_fund_accounts(
        payer@,
        market@,
        mint@,
        fund@,
        fund_token@,
        vault_auth@,
    ));
    r
}

/// The accounts of `InsuranceFundDeposit`.
pub open spec fn deposit_fund_accounts(
    payer: Seq<u8>,
    fund: Seq<u8>,
    market: Seq<u8>,
    mint: Seq<u8>,
    user_token: Seq<u8>,
    fund_token: Seq<u8>,
) -> Seq<types::MetaView> {
    seq![
        types::readonly(payer, true),
        types::writable(fund, false),
        types::readonly(market, false),
        types::readonly(mint, false),
        types::writable(user_token, false),
        types::writable(fund_token, false),
        types::readonly(address::SPL_TOKEN_PROGRAM_ID@, false),
    ]
}

fn deposit_fund_accounts_metas(
    payer: &[u8; 32],
    fund: &[u8; 32],
    market: &[u8; 32],
    mint: &[u8; 32],
    user_token: &[u8; 32],
    fund_token: &[u8; 32],
) -> (r: Vec<AccountMeta>)
    ensures
        types::metas(r@) == deposit_fund_accounts(
            payer@,
            fund@,
            market@,
            mint@,
            user_token@,
            fund_token@,
        ),
{
    let r: Vec<AccountMeta> = vec![
        AccountMeta::new_readonly(*payer, true),
        AccountMeta::new(*fund, false),
        AccountMeta::new_readonly(*market, false),
        AccountMeta::new_readonly(*mint, false),
        AccountMeta::new(*user_token, false),
        AccountMeta::new(*fund_token, false),
        AccountMeta::new_readonly(address::SPL_TOKEN_PROGRAM_ID, false),
    ];
    assert(types::metas(r@) =~= deposit_fund_accounts(
        payer@,
        fund@,
        market@,
        mint@,
        user_token@,
        fund_token@,
    ));
    r
}

/// The data of `OpenPosition`: tag, signed size and collateral.
pub open spec fn open_data(size: int, collateral: nat) -> Seq<u8> {
    seq![tags::OPEN_POSITION] + bytes::le_bytes(bytes::twos_complement(size, 8), 8)
        + bytes::le_bytes(collateral, 8)
}

/// `OpenPosition`, as far as the options allow.
pub open spec fn open_request(args: PositionArgs, k: PositionKeys) -> keys::Request {
    match (args.size, args.collateral) {
        (None, _) => Err(keys::usage("--size required"@)),
        (_, None) => Err(keys::usage("--collateral required"@)),
        (Some(size), Some(collateral)) => match keys::key_required(
            keys::opt_string(args.user_token_account),
            "--user-token-account required for --open"@,
            "parse --user-token-account"@,
        ) {
            Err(e) => Err(e),
            Ok(user_token) => Ok(
                Some(
                    types::InstructionView {
                        program_id: k.program@,
                        accounts: open_accounts(
                            k.payer@,
                            k.market@,
                            k.position@,
                            k.oracle@,
                            k.funding@,
                            k.mint@,
                            user_token,
                            k.vault@,
                        ),
                        data: open_data(size as int, collateral as nat),
                    },
                ),
            ),
        },
    }
}

/// `ClosePosition`, as far as the options allow.
pub open spec fn close_request(args: PositionArgs, k: PositionKeys) -> keys::Request {
    match keys::key_required(
        keys::opt_string(args.user_token_account),
        "--user-token-account required for --close"@,
        "parse --user-token-account"@,
    ) {
        Err(e) => Err(e),
        Ok(user_token) => Ok(
            Some(
                types::InstructionView {
                    program_id: k.program@,
                    accounts: close_accounts(
                        k.payer@,
                        k.position@,
                        k.oracle@,
                        k.funding@,
                        k.market@,
                        k.mint@,
                        user_token,
                        k.vault@,
                        k.vault_auth@,
                        k.fund@,
                        k.fund_token@,
                    ),
                    data: seq![tags::CLOSE_POSITION],
                },
            ),
        ),
    }
}

/// `Liquidate`, as far as the options allow.
pub open spec fn liquidate_request(args: PositionArgs, k: PositionKeys) -> keys::Request {
    match keys::key_required(
        keys::opt_string(args.owner_token_account),
        "--owner-token-account required"@,
        "parse --owner-token-account"@,
    ) {
        Err(e) => Err(e),
        Ok(owner_token) => match keys::key_required(
            keys::opt_string(args.liquidator_token_account),
            "--liquidator-token-account required"@,
            "parse --liquidator-token-account"@,
        ) {
            Err(e) => Err(e),
            Ok(liquidator_token) => Ok(
                Some(
                    types::InstructionView {
                        program_id: k.program@,
                        accounts: liquidate_accounts(
                            k.payer@,
                            k.position@,
                            k.oracle@,
                            k.funding@,
                            k.market@,
                            k.mint@,
                            owner_token,
                            liquidator_token,
                            k.vault@,
                            k.vault_auth@,
                            k.fund@,
                            k.fund_token@,
                        ),
                        data: seq![tags::LIQUIDATE],
                    },
                ),
            ),
        },
    }
}

/// `CreateInsuranceFund`.
pub open spec fn create_fund_request(k: PositionKeys) -> keys::Request {
    Ok(
        Some(
            types::InstructionView {
                program_id: k.program@,
                accounts: create_fund_accounts(
                    k.payer@,
                    k.market@,
                    k.mint@,
                    k.fund@,
                    k.fund_token@,
                    k.vault_auth@,
                ),
                data: seq![tags::CREATE_INSURANCE_FUND],
            },
        ),
    )
}

/// `InsuranceFundDeposit`, as far as the options allow.
pub open spec fn deposit_fund_request(args: PositionArgs, k: PositionKeys) -> keys::Request {
    match args.amount {
        None => Err(keys::usage("--amount required"@)),
        Some(amount) => match keys::key_required(
            keys::opt_string(args.user_token_account),
            "--user-token-account required for --deposit-insurance"@,
            "parse --user-token-account"@,
        ) {
            Err(e) => Err(e),
            Ok(user_token) => Ok(
                Some(
                    types::InstructionView {
                        program_id: k.program@,
                        accounts: deposit_fund_accounts(
                            k.payer@,
                            k.fund@,
                            k.market@,
                            k.mint@,
                            user_token,
                            k.fund_token@,
                        ),
                        data: book::amount_data(tags::INSURANCE_FUND_DEPOSIT, amount as nat),
                    },
                ),
            ),
        },
    }
}

/// What `position` asks of the program.
pub open spec fn position_request(args: PositionArgs, k: PositionKeys) -> keys::Request {
    if common::set_count(
        seq![
            args.open,
            args.close,
            args.liquidate,
            args.create_insurance_fund,
            args.deposit_insurance,
        ],
    ) > 1 {
        Err(keys::usage("mutating modes are mutually exclusive"@))
    } else if args.open {
        open_request(args, k)
    } else if args.close {
        close_request(args, k)
    } else if args.liquidate {
        liquidate_request(args, k)
    } else if args.create_insurance_fund {
        create_fund_request(k)
    } else if args.deposit_insurance {
        deposit_fund_request(args, k)
    } else {
        Ok(None)
    }
}

fn open_instruction(args: &PositionArgs, k: &PositionKeys) -> (r: Result<
    Option<Instruction>,
    ClientError,
>)
    ensures
        keys::request(r) == open_request(*args, *k),
{
    let size: i64 = match args.size {
        Some(size) => size,
        None => return Err(keys::usage_error("--size required")),
    };
    let collateral: u64 = match args.collateral {
        Some(collateral) => collateral,
        None => return Err(keys::usage_error("--collateral required")),
    };
    let user_token: [u8; 32] = match keys::require_key(
        keys::borrowed(&args.user_token_account),
        "--user-token-account required for --open",
        "parse --user-token-account",
    ) {
        Ok(key) => key,
        Err(e) => return Err(e),
    };
    let mut data: Vec<u8> = vec![tags::OPEN_POSITION];
    bytes::push_i64(&mut data, size);
    bytes::push_u64(&mut data, collateral);
    assert(data@ =~= open_data(size as int, collateral as nat));
    let accounts: Vec<AccountMeta> = open_accounts_metas(
        &k.payer,
        &k.market,
        &k.position,
        &k.oracle,
        &k.funding,
        &k.mint,
        &user_token,
        &k.vault,
    );
    Ok(Some(common::instruction(&k.program, accounts, data)))
}

fn close_instruction(args: &PositionArgs, k: &PositionKeys) -> (r: Result<
    Option<Instruction>,
    ClientError,
>)
    ensures
        keys::request(r) == close_request(*args, *k),
{
    let user_token: [u8; 32] = match keys::require_key(
        keys::borrowed(&args.user_token_account),
        "--user-token-account required for --close",
        "parse --user-token-account",
    ) {
        Ok(key) => key,
        Err(e) => return Err(e),
    };
    let accounts: Vec<AccountMeta> = close_accounts_metas(
        &k.payer,
        &k.position,
        &k.oracle,
        &k.funding,
        &k.market,
        &k.mint,
        &user_token,
        &k.vault,
        &k.vault_auth,
        &k.fund,
        &k.fund_token,
    );
    let data: Vec<u8> = vec![tags::CLOSE_POSITION];
    assert(data@ =~= seq![tags::CLOSE_POSITION]);
    Ok(Some(common::instruction(&k.program, accounts, data)))
}

fn liquidate_instruction(args: &PositionArgs, k: &PositionKeys) -> (r: Result<
    Option<Instruction>,
    ClientError,
>)
    ensures
        keys::request(r) == liquidate_request(*args, *k),
{
    let owner_token: [u8; 32] = match keys::require_key(
        keys::borrowed(&args.owner_token_account),
        "--owner-token-account required",
        "parse --owner-token-account",
    ) {
        Ok(key) => key,
        Err(e) => return Err(e),
    };
    let liquidator_token: [u8; 32] = match keys::require_key(
        keys::borrowed(&args.liquidator_token_account),
        "--liquidator-token-account required",
        "parse --liquidator-token-account",
    ) {
        Ok(key) => key,
        Err(e) => return Err(e),
    };
    let accounts: Vec<AccountMeta> = liquidate_accounts_metas(
        &k.payer,
        &k.position,
        &k.oracle,
        &k.funding,
        &k.market,
        &k.mint,
        &owner_token,
        &liquidator_token,
        &k.vault,
        &k.vault_auth,
        &k.fund,
        &k.fund_token,
    );
    let data: Vec<u8> = vec![tags::LIQUIDATE];
    assert(data@ =~= seq![tags::LIQUIDATE]);
    Ok(Some(common::instruction(&k.program, accounts, data)))
}

fn create_fund_instruction(k: &PositionKeys) -> (r: Result<Option<Instruction>, ClientError>)
    ensures
        keys::request(r) == create_fund_request(*k),
{
    let accounts: Vec<AccountMeta> = create_fund_accounts_metas(
        &k.payer,
        &k.market,
        &k.mint,
        &k.fund,
        &k.fund_token,
        &k.vault_auth,
    );
    let data: Vec<u8> = vec![tags::CREATE_INSURANCE_FUND];
    assert(data@ =~= seq![tags::CREATE_INSURANCE_FUND]);
    Ok(Some(common::instruction(&k.program, accounts, data)))
}

fn deposit_fund_instruction(args: &PositionArgs, k: &PositionKeys) -> (r: Result<
    Option<Instruction>,
    ClientError,
>)
    ensures
        keys::request(r) == deposit_fund_request(*args, *k),
{
    let amount: u64 = match args.amount {
        Some(amount) => amount,
        None => return Err(keys::usage_error("--amount required")),
    };
    let user_token: [u8; 32] = match keys::require_key(
        keys::borrowed(&args.user_token_account),
        "--user-token-account required for --deposit-insurance",
        "parse --user-token-account",
    ) {
        Ok(key) => key,
        Err(e) => return Err(e),
    };
    let accounts: Vec<AccountMeta> = deposit_fund_accounts_metas(
        &k.payer,
        &k.fund,
        &k.market,
        &k.mint,
        &user_token,
        &k.fund_token,
    );
    let data: Vec<u8> = book::amount_bytes(tags::INSURANCE_FUND_DEPOSIT, amount);
    Ok(Some(common::instruction(&k.program, accounts, data)))
}

/// What `position` asks of the program; nothing if it only shows a position.
pub fn position_instruction(args: &PositionArgs, k: &PositionKeys) -> (r: Result<
    Option<Instruction>,
    ClientError,
>)
    ensures
        keys::request(r) == position_request(*args, *k),
{
    let flags: [bool; 5] = [
        args.open,
        args.close,
        args.liquidate,
        args.create_insurance_fund,
        args.deposit_insurance,
    ];
    assert(flags@ =~= seq![
        args.open,
        args.close,
        args.liquidate,
        args.create_insurance_fund,
        args.deposit_insurance,
    ]);
    if common::more_than_one(&flags) {
        return Err(keys::usage_error("mutating modes are mutually exclusive"));
    }
    if args.open {
        open_instruction(args, k)
    } else if args.close {
        close_instruction(args, k)
    } else if args.liquidate {
        liquidate_instruction(args, k)
    } else if args.create_insurance_fund {
        create_fund_instruction(k)
    } else if args.deposit_insurance {
        deposit_fund_instruction(args, k)
    } else {
        Ok(None)
    }
}

/// The address of the position of a user in a market, and its bump.
pub fn position_address(program: &[u8; 32], user: &[u8; 32], market: &[u8; 32]) -> (r: Option<
    ([u8; 32], u8),
>)
    ensures
        address::derived(r) == address::program_address(
            seq![address::POSITION_SEED@, user@, market@],
            program@,
        ),
{
    address::derive_with_keys(&address::POSITION_SEED, user, market, program)
}

/// The address of the insurance fund of a market, and its bump.
pub fn fund_address(program: &[u8; 32], market: &[u8; 32]) -> (r: Option<([u8; 32], u8)>)
    ensures
        address::derived(r) == address::program_address(
            seq![address::INSURANCE_FUND_SEED@, market@],
            program@,
        ),
{
    address::derive_with_key(&address::INSURANCE_FUND_SEED, market, program)
}

/// The address of the token account of an insurance fund, and its bump.
pub fn fund_token_address(program: &[u8; 32], market: &[u8; 32], mint: &[u8; 32]) -> (r: Option<
    ([u8; 32], u8),
>)
    ensures
        address::derived(r) == address::program_address(
            seq![address::INSURANCE_FUND_TOKEN_SEED@, market@, mint@],
            program@,
        ),
{
    address::derive_with_keys(&address::INSURANCE_FUND_TOKEN_SEED, market, mint, program)
}

/// Each derived address is the one that its seeds lead to, for the position
/// of `user`.
pub open spec fn derived_for(k: PositionKeys, user: Seq<u8>) -> bool {
    let market = k.market@;
    let mint = k.mint@;
    let program = k.program@;
    &&& address::leads_to(seq![address::POSITION_SEED@, user, market], program, k.position@)
    &&& address::leads_to(seq![address::ORACLE_SEED@, market], program, k.oracle@)
    &&& address::leads_to(seq![address::FUNDING_SEED@, market], program, k.funding@)
    &&& address::leads_to(seq![address::VAULT_SEED@, market, mint], program, k.vault@)
    &&& address::leads_to(seq![address::VAULT_AUTH_SEED@, market], program, k.vault_auth@)
    &&& address::leads_to(seq![address::INSURANCE_FUND_SEED@, market], program, k.fund@)
    &&& address::leads_to(
        seq![address::INSURANCE_FUND_TOKEN_SEED@, market, mint],
        program,
        k.fund_token@,
    )
}

/// One of the addresses cannot be derived.
pub open spec fn underivable(
    program: Seq<u8>,
    user: Seq<u8>,
    market: Seq<u8>,
    mint: Seq<u8>,
) -> bool {
    ||| address::program_address(seq![address::POSITION_SEED@, user, market], program) is None
    ||| address::program_address(seq![address::ORACLE_SEED@, market], program) is None
    ||| address::program_address(seq![address::FUNDING_SEED@, market], program) is None
    ||| address::program_address(seq![address::VAULT_SEED@, market, mint], program) is None
    ||| address::program_address(seq![address::VAULT_AUTH_SEED@, market], program) is None
    ||| address::program_address(seq![address::INSURANCE_FUND_SEED@, market], program) is None
    ||| address::program_address(
        seq![address::INSURANCE_FUND_TOKEN_SEED@, market, mint],
        program,
    ) is None
}

/// The addresses that a change of the position of `user` uses; nothing if one
/// of them cannot be derived.
pub fn position_keys(
    program: &[u8; 32],
    payer: &[u8; 32],
    user: &[u8; 32],
    market: &[u8; 32],
    mint: &[u8; 32],
) -> (r: Option<PositionKeys>)
    ensures
        match r {
            Some(k) => {
                &&& k.program == *program
                &&& k.payer == *payer
                &&& k.market == *market
                &&& k.mint == *mint
                &&& derived_for(k, user@)
            },
            None => underivable(program@, user@, market@, mint@),
        },
{
    let (position, _) = position_address(program, user, market)?;
    let (oracle, _) = address::derive_with_key(&address::ORACLE_SEED, market, program)?;
    let (funding, _) = address::derive_with_key(&address::FUNDING_SEED, market, program)?;
    let (vault, _) = address::derive_with_keys(&address::VAULT_SEED, market, mint, program)?;
    let (vault_auth, _) = address::derive_with_key(&address::VAULT_AUTH_SEED, market, program)?;
    let (fund, _) = fund_address(program, market)?;
    let (fund_token, _) = fund_token_address(program, market, mint)?;
    Some(
        PositionKeys {
            program: *program,
            payer: *payer,
            market: *market,
            mint: *mint,
            position,
            oracle,
            funding,
            vault,
            vault_auth,
            fund,
            fund_token,
        },
    )
}

/// What `position` prints first.
pub open spec fn position_header_text(
    rpc: Seq<char>,
    payer: Seq<u8>,
    program: Seq<u8>,
    market: Seq<u8>,
    user: Seq<u8>,
    position: Seq<u8>,
    bump: nat,
    oracle: Seq<u8>,
    funding: Seq<u8>,
) -> Seq<char> {
    "rpc:           "@ + rpc + "\npayer:         "@ + address::key_text(payer) + "\nprogram:       "@
        + address::key_text(program) + "\nmarket:        "@ + address::key_text(market)
        + "\nposition user: "@ + address::key_text(user) + "\nposition PDA:  "@
        + address::key_text(position) + "  (bump "@ + text::decimal(bump) + ")\noracle PDA:    "@
        + address::key_text(oracle) + "\nfunding PDA:   "@ + address::key_text(funding) + "\n"@
}

/// What `position` prints first.
pub fn position_header(
    rpc: &str,
    payer: &[u8; 32],
    program: &[u8; 32],
    market: &[u8; 32],
    user: &[u8; 32],
    position: &[u8; 32],
    bump: u8,
    oracle: &[u8; 32],
    funding: &[u8; 32],
) -> (r: String)
    ensures
        r@ == position_header_text(
            rpc@,
            payer@,
            program@,
            market@,
            user@,
            position@,
            bump as nat,
            oracle@,
            funding@,
        ),
{
    let mut r: String = "rpc:           ".to_owned();
    r.append(rpc);
    r.append("\npayer:         ");
    r.append(address::show_key(payer).as_str());
    r.append("\nprogram:       ");
    r.append(address::show_key(program).as_str());
    r.append("\nmarket:        ");
    r.append(address::show_key(market).as_str());
    r.append("\nposition user: ");
    r.append(address::show_key(user).as_str());
    r.append("\nposition PDA:  ");
    r.append(address::show_key(position).as_str());
    r.append("  (bump ");
    r.append(text::decimal_text(bump as u128).as_str());
    r.append(")\noracle PDA:    ");
    r.append(address::show_key(oracle).as_str());
    r.append("\nfunding PDA:   ");
    r.append(address::show_key(funding).as_str());
    r.append("\n");
    r
}

/// What `position` prints before a change.
pub open spec fn position_mint_header_text(
    mint: Seq<u8>,
    vault: Seq<u8>,
    vault_auth: Seq<u8>,
    fund: Seq<u8>,
    fund_token: Seq<u8>,
) -> Seq<char> {
    "mint:          "@ + address::key_text(mint) + "\nvault PDA:     "@ + address::key_text(vault)
        + "\nvault_auth:    "@ + address::key_text(vault_auth) + "\nfund PDA:      "@
        + address::key_text(fund) + "\nfund_token:    "@ + address::key_text(fund_token) + "\n\n"@
}

/// What `position` prints before a change.
pub fn position_mint_header(
    mint: &[u8; 32],
    vault: &[u8; 32],
    vault_auth: &[u8; 32],
    fund: &[u8; 32],
    fund_token: &[u8; 32],
) -> (r: String)
    ensures
        r@ == position_mint_header_text(mint@, vault@, vault_auth@, fund@, fund_token@),
{
    let mut r: String = "mint:          ".to_owned();
    r.append(address::show_key(mint).as_str());
    r.append("\nvault PDA:     ");
    r.append(address::show_key(vault).as_str());
    r.append("\nvault_auth:    ");
    r.append(address::show_key(vault_auth).as_str());
    r.append("\nfund PDA:      ");
    r.append(address::show_key(fund).as_str());
    r.append("\nfund_token:    ");
    r.append(address::show_key(fund_token).as_str());
    r.append("\n\n");
    r
}

/// The line above an insurance fund.
pub open spec fn fund_header_text(fund: Seq<u8>) -> Seq<char> {
    "\ninsurance fund ("@ + address::key_text(fund) + "):\n"@
}

/// The line above an insurance fund.
pub fn fund_header(fund: &[u8; 32]) -> (r: String)
    ensures
        r@ == fund_header_text(fund@),
{
    let mut r: String = "\ninsurance fund (".to_owned();
    r.append(address::show_key(fund).as_str());
    r.append("):\n");
    r
}

/// The numbers that decide on a position at the price `mark`.
#[derive(Debug, Clone, Copy, PartialEq, Eq, Structural)]
pub struct PositionMetrics {
    pub notional: u128,
    pub price_pnl: i128,
    pub equity: i128,
    pub maintenance: u128,
    pub penalty: u128,
    pub liquidatable: bool,
}

/// The absolute value of `x`.
pub open spec fn magnitude(x: int) -> nat {
    if x < 0 {
        (-x) as nat
    } else {
        x as nat
    }
}

/// What the position is worth at the price `mark`, long or short.
pub open spec fn notional(size: int, mark: int) -> int {
    magnitude(size) * mark
}

/// What the price has earned since the position was opened.
pub open spec fn price_pnl(size: int, entry: int, mark: int) -> int {
    size * (mark - entry)
}

/// Collateral and earnings together.
pub open spec fn equity(collateral: int, size: int, entry: int, mark: int) -> int {
    collateral + price_pnl(size, entry, mark)
}

/// The equity below which the position may be liquidated.
pub open spec fn maintenance(size: int, mark: int) -> int {
    notional(size, mark) * MAINT_MARGIN_BPS / 10000
}

/// What a liquidation costs.
pub open spec fn penalty(size: int, mark: int) -> int {
    notional(size, mark) * LIQUIDATION_PENALTY_BPS / 10000
}

/// `m` holds the numbers that decide on `p` at the price `mark`.
pub open spec fn decides(m: PositionMetrics, p: Position, mark: i64) -> bool {
    let (collateral, size, entry, price) = (
        p.collateral as int,
        p.size as int,
        p.entry_price as int,
        mark as int,
    );
    &&& m.notional == notional(size, price)
    &&& m.price_pnl == price_pnl(size, entry, price)
    &&& m.equity == equity(collateral, size, entry, price)
    &&& m.maintenance == maintenance(size, price)
    &&& m.penalty == penalty(size, price)
    &&& m.liquidatable == (equity(collateral, size, entry, price) < maintenance(size, price))
}

/// All intermediate results fit into 128 bits, and a position that is not
/// empty is not priced below zero.
pub open spec fn fits(collateral: int, size: int, entry: int, mark: int) -> bool {
    &&& size == 0 || mark >= 0
    &&& notional(size, mark) * MAINT_MARGIN_BPS <= u128::MAX
    &&& i128::MIN <= price_pnl(size, entry, mark) <= i128::MAX
    &&& equity(collateral, size, entry, mark) <= i128::MAX
}

/// Whether `position_metrics` can be computed.
pub fn metrics_fit(position: &Position, mark: i64) -> (r: bool)
    ensures
        r == fits(
            position.collateral as int,
            position.size as int,
            position.entry_price as int,
            mark as int,
        ),
{
    let size: i128 = position.size as i128;
    if position.size != 0 && mark < 0 {
        return false;
    }
    let abs: u128 = if size < 0 {
        (-size) as u128
    } else {
        size as u128
    };
    let price: u128 = if mark < 0 {
        0
    } else {
        mark as u128
    };
    proof {
        assert(abs * price <= 0x8000_0000_0000_0000 * 0x8000_0000_0000_0000) by (nonlinear_arith)
            requires
                0 <= abs <= 0x8000_0000_0000_0000,
                0 <= price <= 0x8000_0000_0000_0000,
        ;
        assert(position.size == 0 ==> magnitude(size as int) * mark == 0) by (nonlinear_arith)
            requires
                position.size == 0 ==> magnitude(size as int) == 0,
        ;
        assert(position.size == 0 ==> abs * price == 0) by (nonlinear_arith)
            requires
                position.size == 0 ==> abs == 0,
        ;
    }
    let worth: u128 = abs * price;
    assert(worth == notional(size as int, mark as int));
    if worth > u128::MAX / (MAINT_MARGIN_BPS as u128) {
        return false;
    }
    let gap: i128 = mark as i128 - position.entry_price as i128;
    match size.checked_mul(gap) {
        None => false,
        Some(pnl) => (position.collateral as i128).checked_add(pnl).is_some(),
    }
}

/// The numbers that decide on a position at the price `mark`; funding is left
/// out.
pub fn position_metrics(position: &Position, mark: i64) -> (r: PositionMetrics)
    requires
        fits(
            position.collateral as int,
            position.size as int,
            position.entry_price as int,
            mark as int,
        ),
    ensures
        decides(r, *position, mark),
{
    let size: i128 = position.size as i128;
    let abs: u128 = if size < 0 {
        (-size) as u128
    } else {
        size as u128
    };
    let price: u128 = if mark < 0 {
        0
    } else {
        mark as u128
    };
    proof {
        assert(abs * price <= 0x8000_0000_0000_0000 * 0x8000_0000_0000_0000) by (nonlinear_arith)
            requires
                0 <= abs <= 0x8000_0000_0000_0000,
                0 <= price <= 0x8000_0000_0000_0000,
        ;
        assert(position.size == 0 ==> magnitude(size as int) * mark == 0) by (nonlinear_arith)
            requires
                position.size == 0 ==> magnitude(size as int) == 0,
        ;
        assert(position.size == 0 ==> abs * price == 0) by (nonlinear_arith)
            requires
                position.size == 0 ==> abs == 0,
        ;
    }
    let worth: u128 = abs * price;
    assert(worth == notional(size as int, mark as int));
    let gap: i128 = mark as i128 - position.entry_price as i128;
    let pnl: i128 = size * gap;
    let held: i128 = position.collateral as i128 + pnl;
    assert(worth * LIQUIDATION_PENALTY_BPS <= worth * MAINT_MARGIN_BPS) by (nonlinear_arith)
        requires
            0 <= worth,
            LIQUIDATION_PENALTY_BPS <= MAINT_MARGIN_BPS,
    ;
    let margin: u128 = worth * (MAINT_MARGIN_BPS as u128) / 10000;
    let cost: u128 = worth * (LIQUIDATION_PENALTY_BPS as u128) / 10000;
    PositionMetrics {
        notional: worth,
        price_pnl: pnl,
        equity: held,
        maintenance: margin,
        penalty: cost,
        liquidatable: held < margin as i128,
    }
}

/// The addresses that a position needs are missing exactly if the one of some kind
/// cannot be derived from the keys of that kind.
pub proof fn missing_addresses_are_noticed(
    program: Seq<u8>,
    user: Seq<u8>,
    market: Seq<u8>,
    mint: Seq<u8>,
)
    ensures
        underivable(program, user, market, mint) <==> {
            ||| address::program_address(
                laws::kind_seeds(AddressKind::Position, user, market),
                program,
            ) is None
            ||| address::program_address(
                laws::kind_seeds(AddressKind::Oracle, market, mint),
                program,
            ) is None
            ||| address::program_address(
                laws::kind_seeds(AddressKind::Funding, market, mint),
                program,
            ) is None
            ||| address::program_address(
                laws::kind_seeds(AddressKind::Vault, market, mint),
                program,
            ) is None
            ||| address::program_address(
                laws::kind_seeds(AddressKind::VaultAuthority, market, mint),
                program,
            ) is None
            ||| address::program_address(
                laws::kind_seeds(AddressKind::InsuranceFund, market, mint),
                program,
            ) is None
            ||| address::program_address(
                laws::kind_seeds(AddressKind::InsuranceFundToken, market, mint),
                program,
            ) is None
        },
{
}

/// A liquidation never costs more than the maintenance margin.
pub proof fn penalty_is_within_maintenance(size: int, mark: int)
    requires
        mark >= 0,
    ensures
        0 <= penalty(size, mark) <= maintenance(size, mark),
{
    assert(notional(size, mark) >= 0) by (nonlinear_arith)
        requires
            notional(size, mark) == magnitude(size) * mark,
            mark >= 0,
            magnitude(size) >= 0,
    ;
}

/// At the price at which it was opened, a position is worth its collateral.
pub proof fn equity_at_entry_is_collateral(collateral: int, size: int, entry: int)
    ensures
        equity(collateral, size, entry, entry) == collateral,
{
    assert(size * (entry - entry) == 0) by (nonlinear_arith);
}

/// A long gains with a rising price and a short with a falling one, one quote
/// unit per base unit and step.
pub proof fn equity_follows_price(collateral: int, size: int, entry: int, mark: int, step: int)
    ensures
        equity(collateral, size, entry, mark + step) == equity(collateral, size, entry, mark) + size
            * step,
{
    assert(size * (mark + step - entry) == size * (mark - entry) + size * step) by (nonlinear_arith);
}

/// `m` is the greatest whole number that is not above `bps` units of 0.01% of
/// the amount.
pub open spec fn is_share(m: int, amount: int, bps: int) -> bool {
    10000 * m <= amount * bps < 10000 * (m + 1)
}

/// The maintenance margin is 5% of the worth of the position and the penalty
/// 1%, both rounded down, for a long as for a short.
pub proof fn margins_are_shares_of_the_worth(size: int, mark: int)
    requires
        mark >= 0,
    ensures
        size >= 0 ==> notional(size, mark) == size * mark,
        size <= 0 ==> notional(size, mark) == -(size * mark),
        is_share(maintenance(size, mark), notional(size, mark), 500),
        is_share(penalty(size, mark), notional(size, mark), 100),
{
    assert(size <= 0 ==> (-size) * mark == -(size * mark)) by (nonlinear_arith);
    assert(size == 0 ==> size * mark == 0) by (nonlinear_arith);
    assert(notional(size, mark) >= 0) by (nonlinear_arith)
        requires
            notional(size, mark) == magnitude(size) * mark,
            mark >= 0,
            magnitude(size) >= 0,
    ;
}

/// A short is held to the margin and the penalty of a long of the same size.
pub proof fn shorts_are_held_to_the_margin_of_longs(size: int, mark: int)
    ensures
        notional(-size, mark) == notional(size, mark),
        maintenance(-size, mark) == maintenance(size, mark),
        penalty(-size, mark) == penalty(size, mark),
{
}

/// What a long has earned, a short of the same size has lost; neither has
/// earned anything at the price at which it was opened.
pub proof fn shorts_lose_what_longs_earn(size: int, entry: int, mark: int)
    ensures
        price_pnl(-size, entry, mark) == -price_pnl(size, entry, mark),
        price_pnl(size, entry, entry) == 0,
        price_pnl(1, entry, mark) == mark - entry,
        price_pnl(size + 1, entry, mark) == price_pnl(size, entry, mark) + (mark - entry),
{
    assert((-size) * (mark - entry) == -(size * (mark - entry))) by (nonlinear_arith);
    assert(size * (entry - entry) == 0) by (nonlinear_arith);
    assert(1 * (mark - entry) == mark - entry) by (nonlinear_arith);
    assert((size + 1) * (mark - entry) == size * (mark - entry) + (mark - entry)) by (nonlinear_arith);
}

/// The numbers that decide on a position: worth, earnings and equity add up, the
/// margin is 5% and the penalty 1% of the worth, and the position may be
/// liquidated exactly if its equity is below the margin.
pub proof fn positions_are_judged_by_their_margin(m: PositionMetrics, p: Position, mark: i64)
    requires
        mark >= 0 || p.size == 0,
        decides(m, p, mark),
    ensures
        p.size >= 0 ==> m.notional == p.size * mark,
        p.size <= 0 ==> m.notional == -(p.size * mark),
        m.price_pnl == p.size * (mark - p.entry_price),
        m.equity == p.collateral + m.price_pnl,
        is_share(m.maintenance as int, m.notional as int, 500),
        is_share(m.penalty as int, m.notional as int, 100),
        m.liquidatable <==> m.equity < m.maintenance,
{
    if mark >= 0 {
        margins_are_shares_of_the_worth(p.size as int, mark as int);
    } else {
        assert(0 * mark == 0) by (nonlinear_arith);
    }
}

/// The numbers can be told exactly if none of them is beyond 128 bits and the
/// worth of the position is not negative.
pub proof fn numbers_that_fit_are_told(collateral: u64, size: i64, entry: u64, mark: i64)
    ensures
        fits(collateral as int, size as int, entry as int, mark as int) <==> {
            &&& size == 0 || mark >= 0
            &&& size >= 0 ==> size * mark * 500 < 0x1_0000_0000_0000_0000_0000_0000_0000_0000
            &&& size <= 0 ==> -(size * mark) * 500 < 0x1_0000_0000_0000_0000_0000_0000_0000_0000
            &&& -0x8000_0000_0000_0000_0000_0000_0000_0000 <= size * (mark - entry)
            &&& size * (mark - entry) < 0x8000_0000_0000_0000_0000_0000_0000_0000
            &&& collateral + size * (mark - entry) < 0x8000_0000_0000_0000_0000_0000_0000_0000
        },
{
    assert(size <= 0 ==> (-size) * mark == -(size * mark)) by (nonlinear_arith);
    assert(size == 0 ==> size * mark == 0) by (nonlinear_arith);
}

/// A position, as it stands.
pub open spec fn position_text(p: Position) -> Seq<char> {
    "  user:                   "@ + address::key_text(p.user@) + "\n  market:                 "@
        + address::key_text(p.market@) + "\n  size:                   "@ + text::decimal_int(
        p.size as int,
    ) + "\n  entry_price:            "@ + text::decimal(p.entry_price as nat)
        + "\n  collateral:             "@ + text::decimal(p.collateral as nat)
        + "\n  funding_snapshot_index: "@ + text::decimal_int(p.funding_snapshot_index as int)
        + "\n"@
}

/// A position, as it stands.
pub fn describe_position(p: &Position) -> (r: String)
    ensures
        r@ == position_text(*p),
{
    let mut r: String = "  user:                   ".to_owned();
    r.append(address::show_key(&p.user).as_str());
    r.append("\n  market:                 ");
    r.append(address::show_key(&p.market).as_str());
    r.append("\n  size:                   ");
    r.append(text::decimal_int_text(p.size as i128).as_str());
    r.append("\n  entry_price:            ");
    r.append(text::decimal_text(p.entry_price as u128).as_str());
    r.append("\n  collateral:             ");
    r.append(text::decimal_text(p.collateral as u128).as_str());
    r.append("\n  funding_snapshot_index: ");
    r.append(text::decimal_int_text(p.funding_snapshot_index as i128).as_str());
    r.append("\n");
    r
}

/// The numbers that decide on a position.
pub open spec fn metrics_text(m: PositionMetrics, mark: i64) -> Seq<char> {
    "\n  mark:                   "@ + text::decimal_int(mark as int)
        + "\n  notional:               "@ + text::decimal(m.notional as nat)
        + "\n  price_pnl:              "@ + text::decimal_int(m.price_pnl as int)
        + " (funding pnl skipped here)\n  equity (ex-funding):    "@ + text::decimal_int(
        m.equity as int,
    ) + "\n  maintenance margin:     "@ + text::decimal(m.maintenance as nat)
        + "\n  liquidatable:           "@ + (if m.liquidatable {
        "YES"@
    } else {
        "no"@
    }) + "\n  liquidation penalty:    "@ + text::decimal(m.penalty as nat) + "\n"@
}

/// The numbers that decide on a position.
pub fn describe_metrics(m: &PositionMetrics, mark: i64) -> (r: String)
    ensures
        r@ == metrics_text(*m, mark),
{
    let mut r: String = "\n  mark:                   ".to_owned();
    r.append(text::decimal_int_text(mark as i128).as_str());
    r.append("\n  notional:               ");
    r.append(text::decimal_text(m.notional).as_str());
    r.append("\n  price_pnl:              ");
    r.append(text::decimal_int_text(m.price_pnl).as_str());
    r.append(" (funding pnl skipped here)\n  equity (ex-funding):    ");
    r.append(text::decimal_int_text(m.equity).as_str());
    r.append("\n  maintenance margin:     ");
    r.append(text::decimal_text(m.maintenance).as_str());
    r.append("\n  liquidatable:           ");
    if m.liquidatable {
        r.append("YES");
    } else {
        r.append("no");
    }
    r.append("\n  liquidation penalty:    ");
    r.append(text::decimal_text(m.penalty).as_str());
    r.append("\n");
    r
}

/// What is shown of a position: the text, and whether it is complete.
pub type Shown = (Seq<char>, bool);

/// The position with its numbers at the price of the oracle in `oracle`, or
/// without them if there is no such oracle. If the numbers do not fit, the
/// text stops before them.
pub open spec fn shows_found(p: Position, oracle: Option<Seq<u8>>, out: Shown) -> bool {
    match oracle {
        Some(d) if d.len() >= Oracle::LEN => exists|o: Oracle| #[trigger]
            o.laid_out(d.take(Oracle::LEN as int)) && if fits(
                p.collateral as int,
                p.size as int,
                p.entry_price as int,
                o.price as int,
            ) {
                exists|m: PositionMetrics| #[trigger]
                    decides(m, p, o.price) && out == (
                        position_text(p) + metrics_text(m, o.price),
                        true,
                    )
            } else {
                out == (position_text(p), false)
            },
        _ => out == (position_text(p), true),
    }
}

/// `out` shows the position that the data begins with, or says that there is
/// none.
pub open spec fn shows_position(data: Option<Seq<u8>>, oracle: Option<Seq<u8>>, out: Shown) -> bool {
    match data {
        Some(d) => if d.len() >= Position::LEN {
            exists|p: Position| #[trigger]
                p.laid_out(d.take(Position::LEN as int)) && shows_found(p, oracle, out)
        } else {
            out == ("  (position account exists but is wrong size)\n"@, true)
        },
        None => out == ("  (position account does not exist yet)\n"@, true),
    }
}

/// Shows the position in the data of its account, with the numbers that decide
/// on it if there is an oracle. The second part is false if these numbers do
/// not fit; the text then stops before them.
pub fn show_position(data: Option<&[u8]>, oracle: Option<&[u8]>) -> (r: (String, bool))
    ensures
        shows_position(common::opt_data(data), common::opt_data(oracle), (r.0@, r.1)),
{
    let d: &[u8] = match data {
        Some(d) => d,
        None => return ("  (position account does not exist yet)\n".to_owned(), true),
    };
    let position: Position = match bytes::prefix(d, Position::LEN) {
        Some(d) => match Position::from_bytes(d) {
            Some(v) => v,
            None => vstd::pervasive::unreached(),
        },
        None => return ("  (position account exists but is wrong size)\n".to_owned(), true),
    };
    let found: Option<&[u8]> = match oracle {
        Some(d) => bytes::prefix(d, Oracle::LEN),
        None => None,
    };
    let mut r: String = describe_position(&position);
    match found {
        None => {
            assert(shows_found(position, common::opt_data(oracle), (r@, true)));
            (r, true)
        },
        Some(d) => {
            let mark: i64 = match Oracle::from_bytes(d) {
                Some(v) => {
                    assert(v.laid_out(d@));
                    v.price
                },
                None => vstd::pervasive::unreached(),
            };
            if !metrics_fit(&position, mark) {
                assert(shows_found(position, common::opt_data(oracle), (r@, false)));
                return (r, false);
            }
            let metrics: PositionMetrics = position_metrics(&position, mark);
            r.append(describe_metrics(&metrics, mark).as_str());
            assert(decides(metrics, position, mark));
            assert(shows_found(position, common::opt_data(oracle), (r@, true)));
            (r, true)
        },
    }
}

/// The page of a position is about the position in its account, judged at the
/// price of the oracle in the account of the oracle. It is complete exactly if
/// the numbers can be told.
pub proof fn positions_are_judged_at_the_oracle_price(
    p: Position,
    data: Seq<u8>,
    o: Oracle,
    oracle: Seq<u8>,
    out: Shown,
)
    requires
        data.len() >= Position::LEN,
        p.laid_out(data.take(Position::LEN as int)),
        oracle.len() >= Oracle::LEN,
        o.laid_out(oracle.take(Oracle::LEN as int)),
        shows_position(Some(data), Some(oracle), out),
    ensures
        out.1 == fits(p.collateral as int, p.size as int, p.entry_price as int, o.price as int),
        out.1 ==> exists|m: PositionMetrics| #[trigger]
            decides(m, p, o.price) && out.0 == position_text(p) + metrics_text(m, o.price),
        !out.1 ==> out.0 == position_text(p),
{
    let b = data.take(Position::LEN as int);
    let q = choose|q: Position| #[trigger] q.laid_out(b) && shows_found(q, Some(oracle), out);
    p.value_is_unique(q, b);
    let c = oracle.take(Oracle::LEN as int);
    assert forall|x: Oracle| #[trigger] x.laid_out(c) implies x == o by {
        o.value_is_unique(x, c);
    }
}

/// Without an oracle the page of a position shows the position alone; without
/// the position, or with data that is too short for one, it says so.
pub proof fn positions_without_an_oracle_are_shown(
    p: Position,
    data: Seq<u8>,
    oracle: Option<Seq<u8>>,
    out: Shown,
)
    ensures
        data.len() >= Position::LEN && p.laid_out(data.take(Position::LEN as int)) && (oracle is None
            || oracle->Some_0.len() < Oracle::LEN) && shows_position(Some(data), oracle, out) ==> out
            == (position_text(p), true),
        data.len() < Position::LEN && shows_position(Some(data), oracle, out) ==> out == (
            "  (position account exists but is wrong size)\n"@,
            true,
        ),
        shows_position(None, oracle, out) ==> out == (
            "  (position account does not exist yet)\n"@,
            true,
        ),
{
    let b = data.take(Position::LEN as int);
    if data.len() >= Position::LEN && p.laid_out(b) && shows_position(Some(data), oracle, out) {
        let q = choose|q: Position| #[trigger] q.laid_out(b) && shows_found(q, oracle, out);
        p.value_is_unique(q, b);
    }
}

/// An insurance fund, as it stands.
pub open spec fn fund_text(fund: InsuranceFund) -> Seq<char> {
    "  market:                 "@ + address::key_text(fund.market@) + "\n  mint:                   "@
        + address::key_text(fund.mint@) + "\n  balance:                "@ + text::decimal(
        fund.balance as nat,
    ) + "\n  total_deposits:         "@ + text::decimal(fund.total_deposits as nat)
        + "\n  total_drawdowns:        "@ + text::decimal(fund.total_drawdowns as nat) + "\n"@
}

/// An insurance fund, as it stands.
pub fn describe_fund(fund: &InsuranceFund) -> (r: String)
    ensures
        r@ == fund_text(*fund),
{
    let mut r: String = "  market:                 ".to_owned();
    r.append(address::show_key(&fund.market).as_str());
    r.append("\n  mint:                   ");
    r.append(address::show_key(&fund.mint).as_str());
    r.append("\n  balance:                ");
    r.append(text::decimal_text(fund.balance as u128).as_str());
    r.append("\n  total_deposits:         ");
    r.append(text::decimal_text(fund.total_deposits as u128).as_str());
    r.append("\n  total_drawdowns:        ");
    r.append(text::decimal_text(fund.total_drawdowns as u128).as_str());
    r.append("\n");
    r
}

/// `out` shows the fund that the data begins with, or says that there is none.
pub open spec fn shows_fund(data: Option<Seq<u8>>, out: Seq<char>) -> bool {
    match data {
        Some(d) if d.len() >= InsuranceFund::LEN => exists|v: InsuranceFund| #[trigger]
            v.laid_out(d.take(InsuranceFund::LEN as int)) && out == fund_text(v),
        _ => out == "  (insurance fund does not exist yet)\n"@,
    }
}

/// Shows the insurance fund in the data of its account, if there is one.
pub fn show_fund(data: Option<&[u8]>) -> (r: String)
    ensures
        shows_fund(common::opt_data(data), r@),
{
    let found: Option<&[u8]> = match data {
        Some(d) => bytes::prefix(d, InsuranceFund::LEN),
        None => None,
    };
    match found {
        Some(d) => match InsuranceFund::from_bytes(d) {
            Some(v) => describe_fund(&v),
            None => vstd::pervasive::unreached(),
        },
        None => "  (insurance fund does not exist yet)\n".to_owned(),
    }
}

/// The page of a fund is about the fund in its account; without one it says so.
pub proof fn funds_are_shown_from_their_account(f: InsuranceFund, data: Seq<u8>, out: Seq<char>)
    ensures
        data.len() >= InsuranceFund::LEN && f.laid_out(data.take(InsuranceFund::LEN as int))
            && shows_fund(Some(data), out) ==> out == fund_text(f),
        data.len() < InsuranceFund::LEN && shows_fund(Some(data), out) ==> out
            == "  (insurance fund does not exist yet)\n"@,
        shows_fund(None, out) ==> out == "  (insurance fund does not exist yet)\n"@,
{
    let b = data.take(InsuranceFund::LEN as int);
    assert forall|x: InsuranceFund| #[trigger] x.laid_out(b) && f.laid_out(b) implies x == f by {
        f.value_is_unique(x, b);
    }
}

} // verus!
