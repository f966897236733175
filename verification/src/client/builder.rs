//! The command for builders and the fees they earn.

use vstd::prelude::*;
use vstd::string::StringExecFns;

use crate::bytes;
use crate::client::book;
use crate::client::common;
use crate::client::keys;
use crate::client::keys::ClientError;
use crate::client::tags;
use crate::program::address;
use crate::program::types;
use crate::program::types::{AccountMeta, Instruction};
use crate::state::BuilderProfile;
use crate::text;

verus! {

/// The options of `builder` that say what to do.
#[derive(Debug, Clone)]
pub struct BuilderArgs {
    pub create_fee_vault: bool,
    pub register: bool,
    pub max_share_bps: Option<u64>,
    pub place_with_builder: bool,
    pub market: Option<String>,
    pub side: Option<String>,
    pub price: Option<u64>,
    pub size: Option<u64>,
    pub claim: bool,
    pub mint: Option<String>,
    pub user_token_account: Option<String>,
    pub builder_token_account: Option<String>,
}

/// More than one mode is chosen.
pub open spec fn conflicting(args: BuilderArgs) -> bool {
    common::set_count(
        seq![args.create_fee_vault, args.register, args.place_with_builder, args.claim],
    ) > 1
}

/// A registration says which share it asks for.
pub open spec fn complete(args: BuilderArgs) -> bool {
    args.register ==> args.max_share_bps is Some
}

/// Whether more than one mode is chosen.
pub fn has_conflict(args: &BuilderArgs) -> (r: bool)
    ensures
        r == conflicting(*args),
{
    let flags: [bool; 4] = [
        args.create_fee_vault,
        args.register,
        args.place_with_builder,
        args.claim,
    ];
    assert(flags@ =~= seq![
        args.create_fee_vault,
        args.register,
        args.place_with_builder,
        args.claim,
    ]);
    common::more_than_one(&flags)
}

/// An instruction that still needs its derived addresses: what they are
/// derived from.
#[derive(Debug, Clone, Copy)]
pub enum BuilderPlan {
    /// Only show the profile.
    Show,
    /// Create the fee vault of `mint`.
    CreateFeeVault { mint: [u8; 32] },
    /// Register with this cap.
    Register { max_share_bps: u64 },
    /// Place an order.
    Place { market: [u8; 32], mint: [u8; 32], user_token: [u8; 32], side: u8, price: u64, size: u64 },
    /// Claim fees in `mint`.
    Claim { mint: [u8; 32], builder_token: [u8; 32] },
}

/// The mathematical value of a `BuilderPlan`.
pub enum PlanView {
    Show,
    CreateFeeVault { mint: Seq<u8> },
    Register { max_share_bps: u64 },
    Place { market: Seq<u8>, mint: Seq<u8>, user_token: Seq<u8>, side: u8, price: u64, size: u64 },
    Claim { mint: Seq<u8>, builder_token: Seq<u8> },
}

impl View for BuilderPlan {
    type V = PlanView;

    open spec fn view(&self) -> PlanView {
        match *self {
            BuilderPlan::Show => PlanView::Show,
            BuilderPlan::CreateFeeVault { mint } => PlanView::CreateFeeVault { mint: mint@ },
            BuilderPlan::Register { max_share_bps } => PlanView::Register { max_share_bps },
            BuilderPlan::Place { market, mint, user_token, side, price, size } => PlanView::Place {
                market: market@,
                mint: mint@,
                user_token: user_token@,
                side,
                price,
                size,
            },
            BuilderPlan::Claim { mint, builder_token } => PlanView::Claim {
                mint: mint@,
                builder_token: builder_token@,
            },
        }
    }
}

/// The mint that a mode needs.
pub open spec fn mint_required(args: BuilderArgs) -> keys::KeyRequest {
    keys::key_required(
        keys::opt_string(args.mint),
        "--mint required for this mode"@,
        "parse --mint"@,
    )
}

/// An order with a builder, as far as the options allow.
pub open spec fn place_plan(args: BuilderArgs) -> Result<PlanView, keys::ErrorView> {
    match keys::key_required(
        keys::opt_string(args.market),
        "--market required for --place-with-builder"@,
        "parse --market"@,
    ) {
        Err(e) => Err(e),
        Ok(market) => match mint_required(args) {
            Err(e) => Err(e),
            Ok(mint) => match keys::key_required(
                keys::opt_string(args.user_token_account),
                "--user-token-account required for --place-with-builder"@,
                "parse --user-token-account"@,
            ) {
                Err(e) => Err(e),
                Ok(user_token) => match (
                    common::side_named(keys::opt_string(args.side)),
                    args.price,
                    args.size,
                ) {
                    (None, _, _) => Err(keys::usage("--side bid|ask required"@)),
                    (_, None, _) => Err(keys::usage("--price required"@)),
                    (_, _, None) => Err(keys::usage("--size required"@)),
                    (Some(side), Some(price), Some(size)) => Ok(
                        PlanView::Place { market, mint, user_token, side, price, size },
                    ),
                },
            },
        },
    }
}

/// A claim, as far as the options allow.
pub open spec fn claim_plan(args: BuilderArgs) -> Result<PlanView, keys::ErrorView> {
    match mint_required(args) {
        Err(e) => Err(e),
        Ok(mint) => match keys::key_required(
            keys::opt_string(args.builder_token_account),
            "--builder-token-account required for --claim"@,
            "parse --builder-token-account"@,
        ) {
            Err(e) => Err(e),
            Ok(builder_token) => Ok(PlanView::Claim { mint, builder_token }),
        },
    }
}

/// What the options ask for.
pub open spec fn builder_plan(args: BuilderArgs) -> Result<PlanView, keys::ErrorView> {
    if conflicting(args) {
        Err(
            keys::usage(
                "--create-fee-vault, --register, --place-with-builder, --claim are mutually exclusive"@,
            ),
        )
    } else if args.create_fee_vault {
        match mint_required(args) {
            Err(e) => Err(e),
            Ok(mint) => Ok(PlanView::CreateFeeVault { mint }),
        }
    } else if args.register {
        Ok(PlanView::Register { max_share_bps: args.max_share_bps->Some_0 })
    } else if args.place_with_builder {
        place_plan(args)
    } else if args.claim {
        claim_plan(args)
    } else {
        Ok(PlanView::Show)
    }
}

/// The mathematical value of a plan or the complaint in its place.
pub open spec fn plan_of(r: Result<BuilderPlan, ClientError>) -> Result<PlanView, keys::ErrorView> {
    match r {
        Ok(plan) => Ok(plan@),
        Err(e) => Err(e@),
    }
}

fn read_place(args: &BuilderArgs) -> (r: Result<BuilderPlan, ClientError>)
    ensures
        plan_of(r) == place_plan(*args),
{
    let market: [u8; 32] = match keys::require_key(
        keys::borrowed(&args.market),
        "--market required for --place-with-builder",
        "parse --market",
    ) {
        Ok(key) => key,
        Err(e) => return Err(e),
    };
    let mint: [u8; 32] = match keys::require_mint(keys::borrowed(&args.mint)) {
        Ok(key) => key,
        Err(e) => return Err(e),
    };
    let user_token: [u8; 32] = match keys::require_key(
        keys::borrowed(&args.user_token_account),
        "--user-token-account required for --place-with-builder",
        "parse --user-token-account",
    ) {
        Ok(key) => key,
        Err(e) => return Err(e),
    };
    let side: u8 = match common::side_byte(keys::borrowed(&args.side)) {
        Some(side) => side,
        None => return Err(keys::usage_error("--side bid|ask required")),
    };
    let price: u64 = match args.price {
        Some(price) => price,
        None => return Err(keys::usage_error("--price required")),
    };
    let size: u64 = match args.size {
        Some(size) => size,
        None => return Err(keys::usage_error("--size required")),
    };
    Ok(BuilderPlan::Place { market, mint, user_token, side, price, size })
}

fn read_claim(args: &BuilderArgs) -> (r: Result<BuilderPlan, ClientError>)
    ensures
        plan_of(r) == claim_plan(*args),
{
    let mint: [u8; 32] = match keys::require_mint(keys::borrowed(&args.mint)) {
        Ok(key) => key,
        Err(e) => return Err(e),
    };
    let builder_token: [u8; 32] = match keys::require_key(
        keys::borrowed(&args.builder_token_account),
        "--builder-token-account required for --claim",
        "parse --builder-token-account",
    ) {
        Ok(key) => key,
        Err(e) => return Err(e),
    };
    Ok(BuilderPlan::Claim { mint, builder_token })
}

/// What the options ask for. A registration has to say which share it asks
/// for.
pub fn read_builder_args(args: &BuilderArgs) -> (r: Result<BuilderPlan, ClientError>)
    requires
        conflicting(*args) || complete(*args),
    ensures
        plan_of(r) == builder_plan(*args),
{
    if has_conflict(args) {
        return Err(
            keys::usage_error(
                "--create-fee-vault, --register, --place-with-builder, --claim are mutually exclusive",
            ),
        );
    }
    if args.create_fee_vault {
        match keys::require_mint(keys::borrowed(&args.mint)) {
            Ok(mint) => Ok(BuilderPlan::CreateFeeVault { mint }),
            Err(e) => Err(e),
        }
    } else if args.register {
        Ok(BuilderPlan::Register { max_share_bps: args.max_share_bps.unwrap() })
    } else if args.place_with_builder {
        read_place(args)
    } else if args.claim {
        read_claim(args)
    } else {
        Ok(BuilderPlan::Show)
    }
}

/// The accounts of `CreateFeeVault`.
pub open spec fn fee_vault_accounts(
    payer: Seq<u8>,
    mint: Seq<u8>,
    fee_vault: Seq<u8>,
    fee_vault_auth: Seq<u8>,
) -> Seq<types::MetaView> {
    seq![
        types::writable(payer, true),
        types::readonly(mint, false),
        types::writable(fee_vault, false),
        types::readonly(fee_vault_auth, false),
        types::readonly(address::SYSTEM_PROGRAM_ID@, false),
        types::readonly(address::SPL_TOKEN_PROGRAM_ID@, false),
    ]
}

fn fee_vault_accounts_metas(
    payer: &[u8; 32],
    mint: &[u8; 32],
    fee_vault: &[u8; 32],
    fee_vault_auth: &[u8; 32],
) -> (r: Vec<AccountMeta>)
    ensures
        types::metas(r@) == fee_vault_accounts(
            payer@,
            mint@,
            fee_vault@,
            fee_vault_auth@,
        ),
{
    let r: Vec<AccountMeta> = vec![
        AccountMeta::new(*payer, true),
        AccountMeta::new_readonly(*mint, false),
        AccountMeta::new(*fee_vault, false),
        AccountMeta::new_readonly(*fee_vault_auth, false),
        AccountMeta::new_readonly(address::SYSTEM_PROGRAM_ID, false),
        AccountMeta::new_readonly(address::SPL_TOKEN_PROGRAM_ID, false),
    ];
    assert(types::metas(r@) =~= fee_vault_accounts(
        payer@,
        mint@,
        fee_vault@,
        fee_vault_auth@,
    ));
    r
}

/// The accounts of `RegisterBuilder`.
pub open spec fn register_accounts(
    payer: Seq<u8>,
    profile: Seq<u8>,
) -> Seq<types::MetaView> {
    seq![
        types::writable(payer, true),
        types::writable(profile, false),
        types::readonly(address::SYSTEM_PROGRAM_ID@, false),
    ]
}

fn register_accounts_metas(
    payer: &[u8; 32],
    profile: &[u8; 32],
) -> (r: Vec<AccountMeta>)
    ensures
        types::metas(r@) == register_accounts(
            payer@,
            profile@,
        ),
{
    let r: Vec<AccountMeta> = vec![
        AccountMeta::new(*payer, true),
        AccountMeta::new(*profile, false),
        AccountMeta::new_readonly(address::SYSTEM_PROGRAM_ID, false),
    ];
    assert(types::metas(r@) =~= register_accounts(
        payer@,
        profile@,
    ));
    r
}

/// The accounts of `PlaceOrderWithBuilder`.
pub open spec fn place_accounts(
    payer: Seq<u8>,
    book: Seq<u8>,
    oracle: Seq<u8>,
    market: Seq<u8>,
    mint: Seq<u8>,
    user_token: Seq<u8>,
    fee_vault: Seq<u8>,
    profile: Seq<u8>,
) -> Seq<types::MetaView> {
    seq![
        types::writable(payer, true),
        types::writable(book, false),
        types::readonly(oracle, false),
        types::readonly(market, false),
        types::readonly(mint, false),
        types::writable(user_token, false),
        types::writable(fee_vault, false),
        types::readonly(address::SPL_TOKEN_PROGRAM_ID@, false),
        types::writable(profile, false),
    ]
}

fn place_accounts_metas(
    payer: &[u8; 32],
    book: &[u8; 32],
    oracle: &[u8; 32],
    market: &[u8; 32],
    mint: &[u8; 32],
    user_token: &[u8; 32],
    fee_vault: &[u8; 32],
    profile: &[u8; 32],
) -> (r: Vec<AccountMeta>)
    ensures
        types::metas(r@) == place_accounts(
            payer@,
            book@,
            oracle@,
            market@,
            mint@,
            user_token@,
            fee_vault@,
            profile@,
        ),
{
    let r: Vec<AccountMeta> = vec![
        AccountMeta::new(*payer, true),
        AccountMeta::new(*book, false),
        AccountMeta::new_readonly(*oracle, false),
        AccountMeta::new_readonly(*market, false),
        AccountMeta::new_readonly(*mint, false),
        AccountMeta::new(*user_token, false),
        AccountMeta::new(*fee_vault, false),
        AccountMeta::new_readonly(address::SPL_TOKEN_PROGRAM_ID, false),
        AccountMeta::new(*profile, false),
    ];
    assert(types::metas(r@) =~= place_accounts(
        payer@,
        book@,
        oracle@,
        market@,
        mint@,
        user_token@,
        fee_vault@,
        profile@,
    ));
    r
}

/// The accounts of `ClaimBuilderFees`.
pub open spec fn claim_accounts(
    payer: Seq<u8>,
    profile: Seq<u8>,
    mint: Seq<u8>,
    fee_vault: Seq<u8>,
    fee_vault_auth: Seq<u8>,
    builder_token: Seq<u8>,
) -> Seq<types::MetaView> {
    seq![
        types::readonly(payer, true),
        types::writable(profile, false),
        types::readonly(mint, false),
        types::writable(fee_vault, false),
        types::readonly(fee_vault_auth, false),
        types::writable(builder_token, false),
        types::readonly(address::SPL_TOKEN_PROGRAM_ID@, false),
    ]
}

fn claim_accounts_metas(
    payer: &[u8; 32],
    profile: &[u8; 32],
    mint: &[u8; 32],
    fee_vault: &[u8; 32],
    fee_vault_auth: &[u8; 32],
    builder_token: &[u8; 32],
) -> (r: Vec<AccountMeta>)
    ensures
        types::metas(r@) == claim_accounts(
            payer@,
            profile@,
            mint@,
            fee_vault@,
            fee_vault_auth@,
            builder_token@,
        ),
{
    let r: Vec<AccountMeta> = vec![
        AccountMeta::new_readonly(*payer, true),
        AccountMeta::new(*profile, false),
        AccountMeta::new_readonly(*mint, false),
        AccountMeta::new(*fee_vault, false),
        AccountMeta::new_readonly(*fee_vault_auth, false),
        AccountMeta::new(*builder_token, false),
        AccountMeta::new_readonly(address::SPL_TOKEN_PROGRAM_ID, false),
    ];
    assert(types::metas(r@) =~= claim_accounts(
        payer@,
        profile@,
        mint@,
        fee_vault@,
        fee_vault_auth@,
        builder_token@,
    ));
    r
}

/// `CreateFeeVault`.
pub fn create_fee_vault_instruction(
    program: &[u8; 32],
    payer: &[u8; 32],
    mint: &[u8; 32],
    fee_vault: &[u8; 32],
    fee_vault_auth: &[u8; 32],
) -> (r: Instruction)
    ensures
        r@ == (types::InstructionView {
            program_id: program@,
            accounts: fee_vault_accounts(payer@, mint@, fee_vault@, fee_vault_auth@),
            data: seq![tags::CREATE_FEE_VAULT],
        }),
{
    let data: Vec<u8> = vec![tags::CREATE_FEE_VAULT];
    assert(data@ =~= seq![tags::CREATE_FEE_VAULT]);
    let accounts: Vec<AccountMeta> = fee_vault_accounts_metas(
        payer,
        mint,
        fee_vault,
        fee_vault_auth,
    );
    common::instruction(program, accounts, data)
}

/// `RegisterBuilder`.
pub fn register_instruction(
    program: &[u8; 32],
    payer: &[u8; 32],
    profile: &[u8; 32],
    max_share_bps: u64,
) -> (r: Instruction)
    ensures
        r@ == (types::InstructionView {
            program_id: program@,
            accounts: register_accounts(payer@, profile@),
            data: book::amount_data(tags::REGISTER_BUILDER, max_share_bps as nat),
        }),
{
    let data: Vec<u8> = book::amount_bytes(tags::REGISTER_BUILDER, max_share_bps);
    common::instruction(program, register_accounts_metas(payer, profile), data)
}

/// The accounts of an order with a builder.
#[derive(Debug, Clone, Copy)]
pub struct PlaceKeys {
    pub program: [u8; 32],
    pub payer: [u8; 32],
    pub book: [u8; 32],
    pub oracle: [u8; 32],
    pub market: [u8; 32],
    pub mint: [u8; 32],
    pub user_token: [u8; 32],
    pub fee_vault: [u8; 32],
    pub profile: [u8; 32],
}

/// `PlaceOrderWithBuilder`.
pub fn place_with_builder_instruction(k: &PlaceKeys, side: u8, price: u64, size: u64) -> (r:
    Instruction)
    ensures
        r@ == (types::InstructionView {
            program_id: k.program@,
            accounts: place_accounts(
                k.payer@,
                k.book@,
                k.oracle@,
                k.market@,
                k.mint@,
                k.user_token@,
                k.fee_vault@,
                k.profile@,
            ),
            data: book::order_data(
                tags::PLACE_ORDER_WITH_BUILDER,
                side,
                price as nat,
                size as nat,
            ),
        }),
{
    let data: Vec<u8> = book::order_bytes(tags::PLACE_ORDER_WITH_BUILDER, side, price, size);
    let accounts: Vec<AccountMeta> = place_accounts_metas(
        &k.payer,
        &k.book,
        &k.oracle,
        &k.market,
        &k.mint,
        &k.user_token,
        &k.fee_vault,
        &k.profile,
    );
    common::instruction(&k.program, accounts, data)
}

/// `ClaimBuilderFees`.
pub fn claim_instruction(
    program: &[u8; 32],
    payer: &[u8; 32],
    profile: &[u8; 32],
    mint: &[u8; 32],
    fee_vault: &[u8; 32],
    fee_vault_auth: &[u8; 32],
    builder_token: &[u8; 32],
) -> (r: Instruction)
    ensures
        r@ == (types::InstructionView {
            program_id: program@,
            accounts: claim_accounts(
                payer@,
                profile@,
                mint@,
                fee_vault@,
                fee_vault_auth@,
                builder_token@,
            ),
            data: seq![tags::CLAIM_BUILDER_FEES],
        }),
{
    let data: Vec<u8> = vec![tags::CLAIM_BUILDER_FEES];
    assert(data@ =~= seq![tags::CLAIM_BUILDER_FEES]);
    let accounts: Vec<AccountMeta> = claim_accounts_metas(
        payer,
        profile,
        mint,
        fee_vault,
        fee_vault_auth,
        builder_token,
    );
    common::instruction(program, accounts, data)
}

/// The address of the profile of a builder, and its bump.
pub fn profile_address(program: &[u8; 32], builder: &[u8; 32]) -> (r: Option<([u8; 32], u8)>)
    ensures
        address::derived(r) == address::program_address(
            seq![address::BUILDER_PROFILE_SEED@, builder@],
            program@,
        ),
{
    address::derive_with_key(&address::BUILDER_PROFILE_SEED, builder, program)
}

/// The address of the fee vault of a mint, and its bump.
pub fn fee_vault_address(program: &[u8; 32], mint: &[u8; 32]) -> (r: Option<([u8; 32], u8)>)
    ensures
        address::derived(r) == address::program_address(
            seq![address::FEE_VAULT_SEED@, mint@],
            program@,
        ),
{
    address::derive_with_key(&address::FEE_VAULT_SEED, mint, program)
}

/// The address of the token authority of a fee vault, and its bump.
pub fn fee_vault_auth_address(program: &[u8; 32], mint: &[u8; 32]) -> (r: Option<([u8; 32], u8)>)
    ensures
        address::derived(r) == address::program_address(
            seq![address::FEE_VAULT_AUTH_SEED@, mint@],
            program@,
        ),
{
    address::derive_with_key(&address::FEE_VAULT_AUTH_SEED, mint, program)
}

/// The address that seeds lead to, if any.
pub open spec fn key_at(seeds: Seq<Seq<u8>>, program: Seq<u8>) -> Option<Seq<u8>> {
    match address::program_address(seeds, program) {
        Some((key, _)) => Some(key),
        None => None,
    }
}

/// What a plan asks of the program, once its addresses are derived. `None` if
/// one of them cannot be, `Some(None)` if there is nothing to ask.
pub open spec fn plan_request(
    plan: PlanView,
    program: Seq<u8>,
    payer: Seq<u8>,
    profile: Seq<u8>,
) -> Option<Option<types::InstructionView>> {
    match plan {
        PlanView::Show => Some(None),
        PlanView::CreateFeeVault { mint } => match (
            key_at(seq![address::FEE_VAULT_SEED@, mint], program),
            key_at(seq![address::FEE_VAULT_AUTH_SEED@, mint], program),
        ) {
            (Some(fee_vault), Some(fee_vault_auth)) => Some(
                Some(
                    types::InstructionView {
                        program_id: program,
                        accounts: fee_vault_accounts(payer, mint, fee_vault, fee_vault_auth),
                        data: seq![tags::CREATE_FEE_VAULT],
                    },
                ),
            ),
            _ => None,
        },
        PlanView::Register { max_share_bps } => Some(
            Some(
                types::InstructionView {
                    program_id: program,
                    accounts: register_accounts(payer, profile),
                    data: book::amount_data(tags::REGISTER_BUILDER, max_share_bps as nat),
                },
            ),
        ),
        PlanView::Place { market, mint, user_token, side, price, size } => match (
            key_at(seq![address::BOOK_SEED@, market], program),
            key_at(seq![address::ORACLE_SEED@, market], program),
            key_at(seq![address::FEE_VAULT_SEED@, mint], program),
        ) {
            (Some(book_key), Some(oracle), Some(fee_vault)) => Some(
                Some(
                    types::InstructionView {
                        program_id: program,
                        accounts: place_accounts(
                            payer,
                            book_key,
                            oracle,
                            market,
                            mint,
                            user_token,
                            fee_vault,
                            profile,
                        ),
                        data: book::order_data(
                            tags::PLACE_ORDER_WITH_BUILDER,
                            side,
                            price as nat,
                            size as nat,
                        ),
                    },
                ),
            ),
            _ => None,
        },
        PlanView::Claim { mint, builder_token } => match (
            key_at(seq![address::FEE_VAULT_SEED@, mint], program),
            key_at(seq![address::FEE_VAULT_AUTH_SEED@, mint], program),
        ) {
            (Some(fee_vault), Some(fee_vault_auth)) => Some(
                Some(
                    types::InstructionView {
                        program_id: program,
                        accounts: claim_accounts(
                            payer,
                            profile,
                            mint,
                            fee_vault,
                            fee_vault_auth,
                            builder_token,
                        ),
                        data: seq![tags::CLAIM_BUILDER_FEES],
                    },
                ),
            ),
            _ => None,
        },
    }
}

/// The mathematical value of what a plan asks of the program.
pub open spec fn planned(r: Option<Option<Instruction>>) -> Option<Option<types::InstructionView>> {
    match r {
        Some(Some(ix)) => Some(Some(ix@)),
        Some(None) => Some(None),
        None => None,
    }
}

/// Derives the addresses that a plan needs and builds its instruction.
pub fn plan_instruction(
    plan: &BuilderPlan,
    program: &[u8; 32],
    payer: &[u8; 32],
    profile: &[u8; 32],
) -> (r: Option<Option<Instruction>>)
    ensures
        planned(r) == plan_request(plan@, program@, payer@, profile@),
{
    match plan {
        BuilderPlan::Show => Some(None),
        BuilderPlan::CreateFeeVault { mint } => {
            let (fee_vault, _) = fee_vault_address(program, mint)?;
            let (fee_vault_auth, _) = fee_vault_auth_address(program, mint)?;
            Some(
                Some(
                    create_fee_vault_instruction(program, payer, mint, &fee_vault, &fee_vault_auth),
                ),
            )
        },
        BuilderPlan::Register { max_share_bps } => Some(
            Some(register_instruction(program, payer, profile, *max_share_bps)),
        ),
        BuilderPlan::Place { market, mint, user_token, side, price, size } => {
            let (book_key, _) = book::book_address(program, market)?;
            let (oracle, _) = address::derive_with_key(&address::ORACLE_SEED, market, program)?;
            let (fee_vault, _) = fee_vault_address(program, mint)?;
            let k: PlaceKeys = PlaceKeys {
                program: *program,
                payer: *payer,
                book: book_key,
                oracle,
                market: *market,
                mint: *mint,
                user_token: *user_token,
                fee_vault,
                profile: *profile,
            };
            Some(Some(place_with_builder_instruction(&k, *side, *price, *size)))
        },
        BuilderPlan::Claim { mint, builder_token } => {
            let (fee_vault, _) = fee_vault_address(program, mint)?;
            let (fee_vault_auth, _) = fee_vault_auth_address(program, mint)?;
            Some(
                Some(
                    claim_instruction(
                        program,
                        payer,
                        profile,
                        mint,
                        &fee_vault,
                        &fee_vault_auth,
                        builder_token,
                    ),
                ),
            )
        },
    }
}

/// A builder profile, as it stands.
pub open spec fn profile_text(profile: BuilderProfile) -> Seq<char> {
    "  builder:            "@ + address::key_text(profile.builder@) + "\n  max_fee_share_bps:  "@
        + text::decimal(profile.max_fee_share_bps as nat) + "\n  accumulated_fees:   "@
        + text::decimal(profile.accumulated_fees as nat) + "\n  total_volume:       "@
        + text::decimal(profile.total_volume as nat) + "\n"@
}

/// A builder profile, as it stands.
pub fn describe_profile(profile: &BuilderProfile) -> (r: String)
    ensures
        r@ == profile_text(*profile),
{
    let mut r: String = "  builder:            ".to_owned();
    r.append(address::show_key(&profile.builder).as_str());
    r.append("\n  max_fee_share_bps:  ");
    r.append(text::decimal_text(profile.max_fee_share_bps as u128).as_str());
    r.append("\n  accumulated_fees:   ");
    r.append(text::decimal_text(profile.accumulated_fees as u128).as_str());
    r.append("\n  total_volume:       ");
    r.append(text::decimal_text(profile.total_volume as u128).as_str());
    r.append("\n");
    r
}

/// `out` shows the profile that the data begins with, or says that there is
/// none.
pub open spec fn shows_profile(data: Option<Seq<u8>>, out: Seq<char>) -> bool {
    match data {
        Some(d) if d.len() >= BuilderProfile::LEN => exists|v: BuilderProfile| #[trigger]
            v.laid_out(d.take(BuilderProfile::LEN as int)) && out == profile_text(v),
        _ => out == "  (profile does not exist yet)\n"@,
    }
}

/// Shows the profile in the data of its account, if there is one.
pub fn show_profile(data: Option<&[u8]>) -> (r: String)
    ensures
        shows_profile(common::opt_data(data), r@),
{
    let found: Option<&[u8]> = match data {
        Some(d) => bytes::prefix(d, BuilderProfile::LEN),
        None => None,
    };
    match found {
        Some(d) => match BuilderProfile::from_bytes(d) {
            Some(v) => describe_profile(&v),
            None => vstd::pervasive::unreached(),
        },
        None => "  (profile does not exist yet)\n".to_owned(),
    }
}

/// What `builder` prints before it sends anything.
pub open spec fn builder_header_text(
    rpc: Seq<char>,
    payer: Seq<u8>,
    program: Seq<u8>,
    builder: Seq<u8>,
    profile: Seq<u8>,
) -> Seq<char> {
    "rpc:         "@ + rpc + "\npayer:       "@ + address::key_text(payer) + "\nprogram:     "@
        + address::key_text(program) + "\nbuilder:     "@ + address::key_text(builder)
        + "\nprofile PDA: "@ + address::key_text(profile) + "\n\n"@
}

/// What `builder` prints before it sends anything.
pub fn builder_header(
    rpc: &str,
    payer: &[u8; 32],
    program: &[u8; 32],
    builder: &[u8; 32],
    profile: &[u8; 32],
) -> (r: String)
    ensures
        r@ == builder_header_text(rpc@, payer@, program@, builder@, profile@),
{
    let mut r: String = "rpc:         ".to_owned();
    r.append(rpc);
    r.append("\npayer:       ");
    r.append(address::show_key(payer).as_str());
    r.append("\nprogram:     ");
    r.append(address::show_key(program).as_str());
    r.append("\nbuilder:     ");
    r.append(address::show_key(builder).as_str());
    r.append("\nprofile PDA: ");
    r.append(address::show_key(profile).as_str());
    r.append("\n\n");
    r
}

/// What `builder` prints before it creates a fee vault.
pub open spec fn fee_vault_header_text(fee_vault: Seq<u8>, fee_vault_auth: Seq<u8>) -> Seq<char> {
    "fee_vault PDA:        "@ + address::key_text(fee_vault) + "\nfee_vault_auth PDA:   "@
        + address::key_text(fee_vault_auth) + "\n"@
}

/// What `builder` prints before it creates a fee vault.
pub fn fee_vault_header(fee_vault: &[u8; 32], fee_vault_auth: &[u8; 32]) -> (r: String)
    ensures
        r@ == fee_vault_header_text(fee_vault@, fee_vault_auth@),
{
    let mut r: String = "fee_vault PDA:        ".to_owned();
    r.append(address::show_key(fee_vault).as_str());
    r.append("\nfee_vault_auth PDA:   ");
    r.append(address::show_key(fee_vault_auth).as_str());
    r.append("\n");
    r
}

/// The page of a profile is about the profile in its account; without one it says
/// so.
pub proof fn profiles_are_shown_from_their_account(v: BuilderProfile, data: Seq<u8>, out: Seq<char>)
    ensures
        data.len() >= BuilderProfile::LEN && v.laid_out(data.take(BuilderProfile::LEN as int)) && shows_profile(
            Some(data),
            out,
        ) ==> out == profile_text(v),
        data.len() < BuilderProfile::LEN && shows_profile(Some(data), out) ==> out == "  (profile does not exist yet)\n"@,
        shows_profile(None, out) ==> out == "  (profile does not exist yet)\n"@,
{
    let b = data.take(BuilderProfile::LEN as int);
    assert forall|x: BuilderProfile| #[trigger] x.laid_out(b) && v.laid_out(b) implies x == v by {
        v.value_is_unique(x, b);
    }
}

} // verus!
