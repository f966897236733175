use openhl::client::builder::{
    builder_header, describe_profile, fee_vault_header, has_conflict, plan_instruction,
    profile_address, read_builder_args, show_profile, BuilderArgs, BuilderPlan,
};
use openhl::client::keys::ClientError;
use openhl::client::position::{
    describe_fund, describe_metrics, describe_position, fund_header, is_mutating, metrics_fit,
    position_address, position_header, position_instruction, position_keys, position_metrics,
    position_mint_header, read_position_mint, read_position_user, show_fund, show_position,
    PositionArgs, PositionKeys,
};
use openhl::client::trading_vault::{
    describe_share, describe_vault, is_complete, nav_per_share, show_share, show_vault,
    vault_header, vault_instruction, vault_keys, VaultArgs,
};
use openhl::program::address::{SPL_TOKEN_PROGRAM_ID, SYSTEM_PROGRAM_ID};
use openhl::program::types::Instruction;
use openhl::state::{BuilderProfile, InsuranceFund, Oracle, Position, TradingVault, VaultShare};
use solana_program::pubkey::Pubkey;

const PROGRAM: [u8; 32] = [7; 32];
const PAYER: [u8; 32] = [1; 32];
const MARKET: [u8; 32] = [2; 32];
const MINT: [u8; 32] = [3; 32];

fn text(key: [u8; 32]) -> String {
    Pubkey::new_from_array(key).to_string()
}

fn pda(seeds: &[&[u8]]) -> [u8; 32] {
    Pubkey::find_program_address(seeds, &Pubkey::new_from_array(PROGRAM)).0.to_bytes()
}

fn metas_of(ix: &Instruction) -> Vec<([u8; 32], bool, bool)> {
    ix.accounts.iter().map(|m| (m.pubkey, m.is_signer, m.is_writable)).collect()
}

fn message(e: ClientError) -> String {
    match e {
        ClientError::BadKey { context, why } => format!("{context}: {}", why.text()),
        ClientError::Usage { message } => message,
    }
}

fn complaint(r: Result<Option<Instruction>, ClientError>) -> String {
    match r {
        Ok(_) => "no complaint".to_string(),
        Err(e) => message(e),
    }
}

fn asked(r: Result<Option<Instruction>, ClientError>) -> Instruction {
    match r {
        Ok(Some(ix)) => ix,
        Ok(None) => panic!("nothing asked"),
        Err(e) => panic!("{}", message(e)),
    }
}

fn read(key: [u8; 32]) -> ([u8; 32], bool, bool) {
    (key, false, false)
}

fn write(key: [u8; 32]) -> ([u8; 32], bool, bool) {
    (key, false, true)
}

fn position_args() -> PositionArgs {
    PositionArgs {
        mint: Some(text(MINT)),
        open: false,
        size: None,
        collateral: None,
        close: false,
        liquidate: false,
        target_user: None,
        user_token_account: None,
        owner_token_account: None,
        liquidator_token_account: None,
        create_insurance_fund: false,
        deposit_insurance: false,
        amount: None,
    }
}

fn keys() -> PositionKeys {
    position_keys(&PROGRAM, &PAYER, &[9; 32], &MARKET, &MINT).unwrap()
}

#[test]
fn position_addresses() {
    let k = keys();
    assert_eq!((k.program, k.payer, k.market, k.mint), (PROGRAM, PAYER, MARKET, MINT));
    assert_eq!(k.position, pda(&[b"position", &[9; 32], &MARKET]));
    assert_eq!(k.oracle, pda(&[b"oracle", &MARKET]));
    assert_eq!(k.funding, pda(&[b"funding", &MARKET]));
    assert_eq!(k.vault, pda(&[b"vault", &MARKET, &MINT]));
    assert_eq!(k.vault_auth, pda(&[b"vault_auth", &MARKET]));
    assert_eq!(k.fund, pda(&[b"insurance_fund", &MARKET]));
    assert_eq!(k.fund_token, pda(&[b"insurance_fund_token", &MARKET, &MINT]));
    assert_eq!(position_address(&PROGRAM, &[9; 32], &MARKET).unwrap().0, k.position);
}

#[test]
fn whose_position_it_is() {
    let mut a = position_args();
    assert_eq!(read_position_user(&a, &PAYER).unwrap(), PAYER);
    assert!(!is_mutating(&a));
    a.liquidate = true;
    assert!(is_mutating(&a));
    assert_eq!(
        message(read_position_user(&a, &PAYER).unwrap_err()),
        "--target-user required with --liquidate"
    );
    a.target_user = Some("?".to_string());
    assert_eq!(
        message(read_position_user(&a, &PAYER).unwrap_err()),
        "parse --target-user: Invalid Base58 string"
    );
    a.target_user = Some(text([9; 32]));
    assert_eq!(read_position_user(&a, &PAYER).unwrap(), [9; 32]);
    assert_eq!(read_position_mint(&a).unwrap(), MINT);
    a.mint = None;
    assert_eq!(
        message(read_position_mint(&a).unwrap_err()),
        "--mint required for mutating modes"
    );
}

#[test]
fn opening_a_position() {
    let k = keys();
    let mut a = position_args();
    assert!(matches!(position_instruction(&a, &k), Ok(None)));
    a.open = true;
    assert_eq!(complaint(position_instruction(&a, &k)), "--size required");
    a.size = Some(-4);
    assert_eq!(complaint(position_instruction(&a, &k)), "--collateral required");
    a.collateral = Some(500);
    assert_eq!(
        complaint(position_instruction(&a, &k)),
        "--user-token-account required for --open"
    );
    a.user_token_account = Some(text([12; 32]));
    let ix = asked(position_instruction(&a, &k));
    let mut data = vec![16u8];
    data.extend_from_slice(&(-4i64).to_le_bytes());
    data.extend_from_slice(&500u64.to_le_bytes());
    assert_eq!(ix.data, data);
    assert_eq!(
        metas_of(&ix),
        vec![
            (PAYER, true, true),
            read(MARKET),
            write(k.position),
            read(k.oracle),
            read(k.funding),
            read(MINT),
            write([12; 32]),
            write(k.vault),
            read(SYSTEM_PROGRAM_ID),
            read(SPL_TOKEN_PROGRAM_ID),
        ]
    );
    a.close = true;
    assert_eq!(
        complaint(position_instruction(&a, &k)),
        "mutating modes are mutually exclusive"
    );
}

#[test]
fn closing_and_liquidating() {
    let k = keys();
    let mut a = position_args();
    a.close = true;
    assert_eq!(
        complaint(position_instruction(&a, &k)),
        "--user-token-account required for --close"
    );
    a.user_token_account = Some(text([12; 32]));
    let ix = asked(position_instruction(&a, &k));
    assert_eq!(ix.data, vec![17]);
    assert_eq!(
        metas_of(&ix),
        vec![
            (PAYER, true, false),
            write(k.position),
            read(k.oracle),
            read(k.funding),
            read(MARKET),
            read(MINT),
            write([12; 32]),
            write(k.vault),
            read(k.vault_auth),
            read(SPL_TOKEN_PROGRAM_ID),
            write(k.fund),
            write(k.fund_token),
        ]
    );
    let mut a = position_args();
    a.liquidate = true;
    assert_eq!(complaint(position_instruction(&a, &k)), "--owner-token-account required");
    a.owner_token_account = Some(text([13; 32]));
    assert_eq!(complaint(position_instruction(&a, &k)), "--liquidator-token-account required");
    a.liquidator_token_account = Some(text([14; 32]));
    let ix = asked(position_instruction(&a, &k));
    assert_eq!(ix.data, vec![18]);
    assert_eq!(
        metas_of(&ix),
        vec![
            (PAYER, true, false),
            write(k.position),
            read(k.oracle),
            read(k.funding),
            read(MARKET),
            read(MINT),
            write([13; 32]),
            write([14; 32]),
            write(k.vault),
            read(k.vault_auth),
            read(SPL_TOKEN_PROGRAM_ID),
            write(k.fund),
            write(k.fund_token),
        ]
    );
}

#[test]
fn the_insurance_fund() {
    let k = keys();
    let mut a = position_args();
    a.create_insurance_fund = true;
    let ix = asked(position_instruction(&a, &k));
    assert_eq!(ix.data, vec![27]);
    assert_eq!(
        metas_of(&ix),
        vec![
            (PAYER, true, true),
            read(MARKET),
            read(MINT),
            write(k.fund),
            write(k.fund_token),
            read(k.vault_auth),
            read(SYSTEM_PROGRAM_ID),
            read(SPL_TOKEN_PROGRAM_ID),
        ]
    );
    let mut a = position_args();
    a.deposit_insurance = true;
    assert_eq!(complaint(position_instruction(&a, &k)), "--amount required");
    a.amount = Some(9);
    assert_eq!(
        complaint(position_instruction(&a, &k)),
        "--user-token-account required for --deposit-insurance"
    );
    a.user_token_account = Some(text([12; 32]));
    let ix = asked(position_instruction(&a, &k));
    assert_eq!(ix.data, vec![28, 9, 0, 0, 0, 0, 0, 0, 0]);
    assert_eq!(
        metas_of(&ix),
        vec![
            (PAYER, true, false),
            write(k.fund),
            read(MARKET),
            read(MINT),
            write([12; 32]),
            write(k.fund_token),
            read(SPL_TOKEN_PROGRAM_ID),
        ]
    );
    let mut f = InsuranceFund::zeroed();
    f.balance = 1;
    f.total_deposits = 2;
    f.total_drawdowns = 3;
    assert!(describe_fund(&f).ends_with(
        "  balance:                1\n  total_deposits:         2\n  total_drawdowns:        3\n"
    ));
}

fn position(size: i64, entry_price: u64, collateral: u64) -> Position {
    let mut p = Position::zeroed();
    p.size = size;
    p.entry_price = entry_price;
    p.collateral = collateral;
    p
}

#[test]
fn metrics_of_a_long_and_a_short() {
    let p = position(10, 100, 200);
    assert!(metrics_fit(&p, 90));
    let m = position_metrics(&p, 90);
    assert_eq!(
        describe_metrics(&m, 90),
        "\n  mark:                   90\n  notional:               900\n  price_pnl:              -100 (funding pnl skipped here)\n  equity (ex-funding):    100\n  maintenance margin:     45\n  liquidatable:           no\n  liquidation penalty:    9\n"
    );
    let m = position_metrics(&p, 84);
    assert!(describe_metrics(&m, 84).contains("  equity (ex-funding):    40\n  maintenance margin:     42\n  liquidatable:           YES\n  liquidation penalty:    8\n"));
    let short = position(-10, 100, 200);
    let m = position_metrics(&short, 90);
    assert!(describe_metrics(&m, 90)
        .contains("  price_pnl:              100 (funding pnl skipped here)\n  equity (ex-funding):    300\n"));
    assert!(describe_metrics(&position_metrics(&position(0, 5, 0), 90), 90)
        .contains("  maintenance margin:     0\n  liquidatable:           no\n"));
    let large = position(i64::MIN, 5, u64::MAX);
    assert!(metrics_fit(&large, 1_000_000));
    let notional = (i64::MIN as i128).unsigned_abs() * 1_000_000;
    assert!(describe_metrics(&position_metrics(&large, 1_000_000), 1_000_000)
        .contains(&format!("notional:               {notional}\n")));
}

#[test]
fn metrics_without_a_meaning_are_left_out() {
    assert!(!metrics_fit(&position(1, 1, 1), -1));
    assert!(metrics_fit(&position(1, 1, 1), 0));
    assert!(metrics_fit(&position(0, 1, 1), -1));
    assert!(!metrics_fit(&position(i64::MIN, 0, 0), i64::MAX));
}

#[test]
fn positions_are_described() {
    let mut p = position(-3, 4, 5);
    p.user = PAYER;
    p.market = MARKET;
    p.funding_snapshot_index = -6;
    assert_eq!(
        describe_position(&p),
        format!(
            "  user:                   {}\n  market:                 {}\n  size:                   -3\n  entry_price:            4\n  collateral:             5\n  funding_snapshot_index: -6\n",
            text(PAYER),
            text(MARKET)
        )
    );
    let k = keys();
    assert!(position_header("u", &PAYER, &PROGRAM, &MARKET, &PAYER, &k.position, 8, &k.oracle, &k.funding)
        .ends_with(&format!("funding PDA:   {}\n", text(k.funding))));
    assert!(position_mint_header(&MINT, &k.vault, &k.vault_auth, &k.fund, &k.fund_token)
        .ends_with(&format!("fund_token:    {}\n\n", text(k.fund_token))));
    assert_eq!(fund_header(&k.fund), format!("\ninsurance fund ({}):\n", text(k.fund)));
}

#[test]
fn positions_are_shown_from_account_data() {
    let p = position(10, 100, 200);
    let mut data = p.to_bytes();
    data.extend_from_slice(&[9; 5]);
    let mut o = Oracle::zeroed();
    o.price = 84;
    let oracle = o.to_bytes();
    assert_eq!(show_position(Some(&data), None), (describe_position(&p), true));
    assert_eq!(show_position(Some(&data), Some(&oracle[..50])), (describe_position(&p), true));
    let (full, complete) = show_position(Some(&data), Some(&oracle));
    assert!(complete);
    assert!(full.starts_with(&describe_position(&p)));
    assert!(full.ends_with(&describe_metrics(&position_metrics(&p, 84), 84)));
    o.price = -1;
    assert_eq!(show_position(Some(&data), Some(&o.to_bytes())), (describe_position(&p), false));
    assert_eq!(
        show_position(Some(&data[..20]), None).0,
        "  (position account exists but is wrong size)\n"
    );
    assert_eq!(
        show_position(None, Some(&oracle)).0,
        "  (position account does not exist yet)\n"
    );
    let mut f = InsuranceFund::zeroed();
    f.balance = 4;
    assert_eq!(show_fund(Some(&f.to_bytes())), describe_fund(&f));
    assert_eq!(show_fund(Some(&[1])), "  (insurance fund does not exist yet)\n");
    assert_eq!(show_fund(None), "  (insurance fund does not exist yet)\n");
}

#[test]
fn vaults_and_profiles_are_shown_from_account_data() {
    let mut v = TradingVault::zeroed();
    v.total_shares = 2;
    assert_eq!(show_vault(Some(&v.to_bytes())), describe_vault(&v));
    assert_eq!(show_vault(None), "  (vault does not exist yet)\n");
    let mut s = VaultShare::zeroed();
    s.shares = 3;
    assert_eq!(show_share(Some(&s.to_bytes())), describe_share(&s));
    assert_eq!(show_share(Some(&[])), "  (no shares yet)\n");
    let mut p = BuilderProfile::zeroed();
    p.total_volume = 6;
    assert_eq!(show_profile(Some(&p.to_bytes())), describe_profile(&p));
    assert_eq!(show_profile(None), "  (profile does not exist yet)\n");
}

fn vault_args() -> VaultArgs {
    VaultArgs {
        init: false,
        mint: None,
        deposit: false,
        amount: None,
        withdraw: false,
        shares: None,
        update_nav: false,
        total_assets: None,
    }
}

#[test]
fn trading_vault_requests() {
    let k = vault_keys(&PROGRAM, &PAYER, &MARKET, &[9; 32]).unwrap();
    assert_eq!(k.vault, pda(&[b"trading_vault", &MARKET, &[9; 32]]));
    assert_eq!(k.share, pda(&[b"vault_share", &k.vault, &PAYER]));
    assert!(matches!(vault_instruction(&vault_args(), &k), Ok(None)));

    let mut a = vault_args();
    a.init = true;
    assert!(!is_complete(&a));
    a.mint = Some("?".to_string());
    assert!(is_complete(&a));
    assert_eq!(complaint(vault_instruction(&a, &k)), "parse --mint: Invalid Base58 string");
    a.mint = Some(text(MINT));
    let ix = asked(vault_instruction(&a, &k));
    assert_eq!(ix.data, vec![19]);
    assert_eq!(
        metas_of(&ix),
        vec![
            (PAYER, true, true),
            read(MARKET),
            ([9; 32], true, false),
            read(MINT),
            write(k.vault),
            read(SYSTEM_PROGRAM_ID),
        ]
    );
    a.withdraw = true;
    assert!(is_complete(&a));
    assert_eq!(
        complaint(vault_instruction(&a, &k)),
        "--init, --deposit, --withdraw, --update-nav are mutually exclusive"
    );

    let mut a = vault_args();
    a.deposit = true;
    a.amount = Some(1);
    let ix = asked(vault_instruction(&a, &k));
    assert_eq!(ix.data, vec![20, 1, 0, 0, 0, 0, 0, 0, 0]);
    assert_eq!(
        metas_of(&ix),
        vec![(PAYER, true, true), write(k.vault), write(k.share), read(SYSTEM_PROGRAM_ID)]
    );
    let mut a = vault_args();
    a.withdraw = true;
    a.shares = Some(2);
    let ix = asked(vault_instruction(&a, &k));
    assert_eq!(ix.data, vec![21, 2, 0, 0, 0, 0, 0, 0, 0]);
    assert_eq!(metas_of(&ix), vec![(PAYER, true, false), write(k.vault), write(k.share)]);
    let mut a = vault_args();
    a.update_nav = true;
    a.total_assets = Some(3);
    let ix = asked(vault_instruction(&a, &k));
    assert_eq!(ix.data, vec![22, 3, 0, 0, 0, 0, 0, 0, 0]);
    assert_eq!(metas_of(&ix), vec![(PAYER, true, false), write(k.vault)]);
}

#[test]
fn shares_have_a_worth() {
    let mut v = TradingVault::zeroed();
    assert_eq!(nav_per_share(&v), None);
    assert!(describe_vault(&v).ends_with("  total_shares:   0\n  total_assets:   0\n"));
    v.total_shares = 3;
    v.total_assets = 4;
    assert_eq!(nav_per_share(&v), Some(13333));
    assert!(describe_vault(&v).ends_with("  NAV per share:  13333 (assets per 10000 shares)\n"));
    v.total_shares = 1;
    v.total_assets = u64::MAX;
    assert_eq!(nav_per_share(&v), Some(u64::MAX as u128 * 10_000));
    let mut s = VaultShare::zeroed();
    s.owner = PAYER;
    s.shares = 5;
    s.cost_basis = 6;
    assert_eq!(
        describe_share(&s),
        format!("  owner:        {}\n  shares:       5\n  cost_basis:   6\n", text(PAYER))
    );
    assert!(vault_header("u", &PAYER, &PROGRAM, &MARKET, &MINT, &[4; 32], 2, &[5; 32])
        .ends_with(&format!("share PDA:  {}  (for payer={})\n\n", text([5; 32]), text(PAYER))));
}

fn builder_args() -> BuilderArgs {
    BuilderArgs {
        create_fee_vault: false,
        register: false,
        max_share_bps: None,
        place_with_builder: false,
        market: None,
        side: None,
        price: None,
        size: None,
        claim: false,
        mint: None,
        user_token_account: None,
        builder_token_account: None,
    }
}

fn plan(a: &BuilderArgs) -> BuilderPlan {
    match read_builder_args(a) {
        Ok(plan) => plan,
        Err(e) => panic!("{}", message(e)),
    }
}

fn plan_complaint(a: &BuilderArgs) -> String {
    match read_builder_args(a) {
        Ok(_) => "no complaint".to_string(),
        Err(e) => message(e),
    }
}

fn build(a: &BuilderArgs) -> Instruction {
    plan_instruction(&plan(a), &PROGRAM, &PAYER, &[9; 32]).unwrap().unwrap()
}

#[test]
fn fee_vaults_and_registration() {
    let mut a = builder_args();
    assert!(plan_instruction(&plan(&a), &PROGRAM, &PAYER, &[9; 32]).unwrap().is_none());
    a.create_fee_vault = true;
    assert_eq!(plan_complaint(&a), "--mint required for this mode");
    a.mint = Some(text(MINT));
    let ix = build(&a);
    assert_eq!(ix.data, vec![26]);
    assert_eq!(
        metas_of(&ix),
        vec![
            (PAYER, true, true),
            read(MINT),
            write(pda(&[b"fee_vault", &MINT])),
            read(pda(&[b"fee_vault_auth", &MINT])),
            read(SYSTEM_PROGRAM_ID),
            read(SPL_TOKEN_PROGRAM_ID),
        ]
    );
    a.claim = true;
    assert!(has_conflict(&a));
    assert_eq!(
        plan_complaint(&a),
        "--create-fee-vault, --register, --place-with-builder, --claim are mutually exclusive"
    );
    let mut a = builder_args();
    a.register = true;
    a.max_share_bps = Some(250);
    let ix = build(&a);
    assert_eq!(ix.data, vec![23, 250, 0, 0, 0, 0, 0, 0, 0]);
    assert_eq!(
        metas_of(&ix),
        vec![(PAYER, true, true), write([9; 32]), read(SYSTEM_PROGRAM_ID)]
    );
}

#[test]
fn orders_with_a_builder() {
    let mut a = builder_args();
    a.place_with_builder = true;
    assert_eq!(plan_complaint(&a), "--market required for --place-with-builder");
    a.market = Some(text(MARKET));
    assert_eq!(plan_complaint(&a), "--mint required for this mode");
    a.mint = Some(text(MINT));
    assert_eq!(plan_complaint(&a), "--user-token-account required for --place-with-builder");
    a.user_token_account = Some(text([12; 32]));
    a.side = Some("buy".to_string());
    assert_eq!(plan_complaint(&a), "--side bid|ask required");
    a.side = Some("ask".to_string());
    assert_eq!(plan_complaint(&a), "--price required");
    a.price = Some(1);
    assert_eq!(plan_complaint(&a), "--size required");
    a.size = Some(2);
    let ix = build(&a);
    assert_eq!(ix.data, vec![24, 1, 1, 0, 0, 0, 0, 0, 0, 0, 2, 0, 0, 0, 0, 0, 0, 0]);
    assert_eq!(
        metas_of(&ix),
        vec![
            (PAYER, true, true),
            write(pda(&[b"book", &MARKET])),
            read(pda(&[b"oracle", &MARKET])),
            read(MARKET),
            read(MINT),
            write([12; 32]),
            write(pda(&[b"fee_vault", &MINT])),
            read(SPL_TOKEN_PROGRAM_ID),
            write([9; 32]),
        ]
    );
}

#[test]
fn claims() {
    let mut a = builder_args();
    a.claim = true;
    a.mint = Some(text(MINT));
    assert_eq!(plan_complaint(&a), "--builder-token-account required for --claim");
    a.builder_token_account = Some(text([15; 32]));
    let ix = build(&a);
    assert_eq!(ix.data, vec![25]);
    assert_eq!(
        metas_of(&ix),
        vec![
            (PAYER, true, false),
            write([9; 32]),
            read(MINT),
            write(pda(&[b"fee_vault", &MINT])),
            read(pda(&[b"fee_vault_auth", &MINT])),
            write([15; 32]),
            read(SPL_TOKEN_PROGRAM_ID),
        ]
    );
}

#[test]
fn builder_profiles_are_described() {
    assert_eq!(profile_address(&PROGRAM, &PAYER).unwrap().0, pda(&[b"builder_profile", &PAYER]));
    let mut p = BuilderProfile::zeroed();
    p.builder = PAYER;
    p.max_fee_share_bps = 1;
    p.accumulated_fees = 2;
    p.total_volume = 3;
    assert_eq!(
        describe_profile(&p),
        format!(
            "  builder:            {}\n  max_fee_share_bps:  1\n  accumulated_fees:   2\n  total_volume:       3\n",
            text(PAYER)
        )
    );
    assert!(builder_header("u", &PAYER, &PROGRAM, &MARKET, &MINT)
        .ends_with(&format!("profile PDA: {}\n\n", text(MINT))));
    assert_eq!(
        fee_vault_header(&MARKET, &MINT),
        format!("fee_vault PDA:        {}\nfee_vault_auth PDA:   {}\n", text(MARKET), text(MINT))
    );
}
