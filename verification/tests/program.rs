use openhl::program::address::{
    derive_from_seed, derive_with_key, derive_with_keys, MARKET_SEED, SPL_TOKEN_PROGRAM_ID, STATS_SEED,
    SYSTEM_PROGRAM_ID, VAULT_AUTH_SEED, VAULT_SEED,
};
use openhl::program::bench::{bench_alloc, bench_rounds, stir};
use openhl::program::dispatch::try_process_instruction;
use openhl::program::market::MarketParams;
use openhl::program::market::{plan_create_market, process_initialize};
use openhl::program::stats::plan_create_stats;
use openhl::program::system::{create_account_call, COMPUTE_BUDGET_PROGRAM_ID};
use openhl::program::types::{Account, Instruction, ProgramError, Refusal, Step};
use openhl::program::vault::{plan_create_vault, TOKEN_ACCOUNT_LEN};
use openhl::state::{Market, Stats, MARKET_DISCRIMINATOR, STATS_DISCRIMINATOR};
use solana_program::hash::hash;
use solana_program::pubkey::Pubkey;

const PROGRAM: [u8; 32] = [7; 32];

fn account(key: [u8; 32], owner: [u8; 32], is_signer: bool, data: Vec<u8>) -> Account {
    Account { key, owner, is_signer, data }
}

fn plain(key: [u8; 32]) -> Account {
    account(key, SYSTEM_PROGRAM_ID, false, Vec::new())
}

fn params(tick_size: u64, lot_size: u64) -> MarketParams {
    MarketParams {
        authority: [1; 32],
        base_mint: [2; 32],
        quote_mint: [3; 32],
        tick_size,
        lot_size,
    }
}

fn tagged(tag: u8, payload: &[u8]) -> Vec<u8> {
    let mut data = vec![tag];
    data.extend_from_slice(payload);
    data
}

fn run(accounts: &[Account], data: &[u8]) -> Result<Vec<Step>, Refusal> {
    try_process_instruction(&PROGRAM, accounts, data).unwrap()
}

fn refusal(accounts: &[Account], data: &[u8]) -> ProgramError {
    match run(accounts, data) {
        Err(e) => e.error,
        Ok(_) => panic!("accepted"),
    }
}

fn steps_of(accounts: &[Account], data: &[u8]) -> Vec<Step> {
    match run(accounts, data) {
        Ok(steps) => steps,
        Err(_) => panic!("refused"),
    }
}

/// The lines that an instruction logs, in order.
fn log_of(accounts: &[Account], data: &[u8]) -> Vec<String> {
    match run(accounts, data) {
        Err(e) => e.line.into_iter().collect(),
        Ok(steps) => steps
            .into_iter()
            .filter_map(|step| match step {
                Step::Log { line } => Some(line),
                _ => None,
            })
            .collect(),
    }
}

fn text(key: [u8; 32]) -> String {
    Pubkey::new_from_array(key).to_string()
}

fn pda(seeds: &[&[u8]]) -> ([u8; 32], u8) {
    let (key, bump) = Pubkey::find_program_address(seeds, &Pubkey::new_from_array(PROGRAM));
    (key.to_bytes(), bump)
}

#[test]
fn well_known_ids() {
    let id = |text: &str| text.parse::<Pubkey>().unwrap().to_bytes();
    assert_eq!(SPL_TOKEN_PROGRAM_ID, id("TokenkegQfeZyiNwAJbNbGKPFXCWuBvf9Ss623VQ5DA"));
    assert_eq!(SYSTEM_PROGRAM_ID, id("11111111111111111111111111111111"));
    assert_eq!(SYSTEM_PROGRAM_ID, solana_system_interface::program::ID.to_bytes());
    assert_eq!(COMPUTE_BUDGET_PROGRAM_ID, id("ComputeBudget111111111111111111111111111111"));
}

#[test]
fn seeds_spell_their_names() {
    assert_eq!(&MARKET_SEED, b"market");
    assert_eq!(&STATS_SEED, b"stats");
    assert_eq!(&VAULT_SEED, b"vault");
    assert_eq!(&VAULT_AUTH_SEED, b"vault_auth");
    assert_eq!(&openhl::program::address::BOOK_SEED, b"book");
    assert_eq!(&openhl::program::address::ORACLE_SEED, b"oracle");
    assert_eq!(&openhl::program::address::FUNDING_SEED, b"funding");
    assert_eq!(&openhl::program::address::POSITION_SEED, b"position");
    assert_eq!(&openhl::program::address::INSURANCE_FUND_SEED, b"insurance_fund");
    assert_eq!(&openhl::program::address::INSURANCE_FUND_TOKEN_SEED, b"insurance_fund_token");
    assert_eq!(&openhl::program::address::TRADING_VAULT_SEED, b"trading_vault");
    assert_eq!(&openhl::program::address::VAULT_SHARE_SEED, b"vault_share");
    assert_eq!(&openhl::program::address::BUILDER_PROFILE_SEED, b"builder_profile");
    assert_eq!(&openhl::program::address::FEE_VAULT_SEED, b"fee_vault");
    assert_eq!(&openhl::program::address::FEE_VAULT_AUTH_SEED, b"fee_vault_auth");
    assert_eq!(&openhl::program::address::SLAB_SEED, b"slab");
}

#[test]
fn addresses_are_derived_as_the_runtime_derives_them() {
    assert_eq!(derive_from_seed(b"stats", &PROGRAM), Some(pda(&[b"stats"])));
    assert_eq!(derive_with_key(b"book", &[4; 32], &PROGRAM), Some(pda(&[b"book", &[4; 32]])));
    assert_eq!(
        derive_with_keys(b"vault", &[4; 32], &[5; 32], &PROGRAM),
        Some(pda(&[b"vault", &[4; 32], &[5; 32]]))
    );
    assert_ne!(derive_with_keys(b"vault", &[5; 32], &[4; 32], &PROGRAM), Some(pda(&[b"vault", &[4; 32], &[5; 32]])));
    assert_eq!(derive_from_seed(&[0; 33], &PROGRAM), None);
}

#[test]
fn market_payload_round_trips() {
    let p = params(0x0102030405060708, 9);
    let b = p.encode();
    assert_eq!(b.len(), 112);
    assert_eq!(&b[0..32], &[1; 32]);
    assert_eq!(&b[32..64], &[2; 32]);
    assert_eq!(&b[64..96], &[3; 32]);
    assert_eq!(&b[96..104], &[8, 7, 6, 5, 4, 3, 2, 1]);
    let back = MarketParams::decode(&b);
    assert_eq!(back.authority, p.authority);
    assert_eq!(back.base_mint, p.base_mint);
    assert_eq!(back.quote_mint, p.quote_mint);
    assert_eq!((back.tick_size, back.lot_size), (p.tick_size, p.lot_size));
}

#[test]
fn unknown_instructions_are_refused() {
    assert_eq!(refusal(&[], &[]), ProgramError::InvalidInstructionData);
    for tag in 7..=255u8 {
        assert_eq!(refusal(&[], &[tag, 1, 2]), ProgramError::InvalidInstructionData);
    }
}

fn blank_market() -> Account {
    account([9; 32], PROGRAM, false, vec![0; 256])
}

#[test]
fn initialize_writes_the_market() {
    let data = tagged(0, &params(5, 6).encode());
    let steps = steps_of(&[blank_market()], &data);
    assert_eq!(steps.len(), 2);
    match &steps[0] {
        Step::Write { account, data } => {
            assert_eq!(*account, 0);
            let m = Market::from_bytes(data).unwrap();
            assert_eq!(m.discriminator, MARKET_DISCRIMINATOR);
            assert_eq!((m.version, m.bump), (1, 0));
            assert_eq!(m._pad0, [0; 6]);
            assert_eq!(m.authority, [1; 32]);
            assert_eq!(m.base_mint, [2; 32]);
            assert_eq!(m.quote_mint, [3; 32]);
            assert_eq!((m.tick_size, m.lot_size), (5, 6));
            assert_eq!(m._reserved, [0; 128]);
        }
        _ => panic!("a write"),
    }
}

#[test]
fn initialize_refuses_in_order() {
    let good = tagged(0, &params(5, 6).encode());
    assert_eq!(refusal(&[], &good[..112]), ProgramError::InvalidInstructionData);
    assert_eq!(refusal(&[], &good), ProgramError::NotEnoughAccountKeys);
    let mut other = blank_market();
    other.owner = [8; 32];
    other.data = Vec::new();
    assert_eq!(refusal(&[other], &good), ProgramError::IncorrectProgramId);
    let mut short = blank_market();
    short.data.pop();
    assert_eq!(refusal(&[short], &good), ProgramError::InvalidAccountData);
    let mut live = blank_market();
    live.data[7] = 1;
    let zero_tick = tagged(0, &params(0, 6).encode());
    assert_eq!(refusal(&[live], &zero_tick), ProgramError::AccountAlreadyInitialized);
    assert_eq!(refusal(&[blank_market()], &zero_tick), ProgramError::InvalidInstructionData);
    let zero_lot = tagged(0, &params(5, 0).encode());
    assert_eq!(refusal(&[blank_market()], &zero_lot), ProgramError::InvalidInstructionData);
}

#[test]
fn a_live_market_stays() {
    let payload = params(5, 6).encode();
    let written = match process_initialize(&PROGRAM, &[blank_market()], &payload) {
        Ok(steps) => match &steps[0] {
            Step::Write { data, .. } => data.clone(),
            _ => panic!("a write"),
        },
        Err(_) => panic!("accepted"),
    };
    let live = account([9; 32], PROGRAM, false, written);
    assert_eq!(
        refusal(&[live], &tagged(0, &payload)),
        ProgramError::AccountAlreadyInitialized
    );
}

fn creation(payer_signs: bool, target: [u8; 32], system: [u8; 32]) -> Vec<Account> {
    let mut payer = plain([11; 32]);
    payer.is_signer = payer_signs;
    vec![payer, plain(target), plain(system)]
}

#[test]
fn create_market_creates_then_writes() {
    let p = params(5, 6);
    let (market, bump) = pda(&[b"market", &[2; 32], &[3; 32]]);
    let accounts = creation(true, market, SYSTEM_PROGRAM_ID);
    let steps = steps_of(&accounts, &tagged(1, &p.encode()));
    assert_eq!(steps.len(), 3);
    match &steps[0] {
        Step::CreateAccount { payer, account, system, space, owner, seeds } => {
            assert_eq!((*payer, *account, *system, *space), (0, 1, 2, 256));
            assert_eq!(*owner, PROGRAM);
            let seeds: Vec<&[u8]> = seeds.iter().map(|s| s.as_slice()).collect();
            let signed =
                Pubkey::create_program_address(&seeds, &Pubkey::new_from_array(PROGRAM)).unwrap();
            assert_eq!(signed.to_bytes(), market);
        }
        _ => panic!("a creation"),
    }
    match &steps[1] {
        Step::Write { account, data } => {
            assert_eq!(*account, 1);
            let m = Market::from_bytes(data).unwrap();
            assert_eq!(m.bump, bump);
            assert_eq!(m.authority, p.authority);
            assert_eq!(m.lot_size, 6);
        }
        _ => panic!("a write"),
    }
}

#[test]
fn create_market_refuses_in_order() {
    let good = tagged(1, &params(5, 6).encode());
    let (market, _) = pda(&[b"market", &[2; 32], &[3; 32]]);
    assert_eq!(refusal(&[], &good[..50]), ProgramError::InvalidInstructionData);
    assert_eq!(
        refusal(&[plain([1; 32]), plain(market)], &good),
        ProgramError::NotEnoughAccountKeys
    );
    assert_eq!(
        refusal(&creation(false, market, [1; 32]), &good),
        ProgramError::MissingRequiredSignature
    );
    assert_eq!(
        refusal(&creation(true, market, [1; 32]), &tagged(1, &params(0, 0).encode())),
        ProgramError::IncorrectProgramId
    );
    assert_eq!(
        refusal(&creation(true, [1; 32], SYSTEM_PROGRAM_ID), &tagged(1, &params(0, 1).encode())),
        ProgramError::InvalidInstructionData
    );
    assert_eq!(
        refusal(&creation(true, [1; 32], SYSTEM_PROGRAM_ID), &good),
        ProgramError::InvalidSeeds
    );
}

#[test]
fn a_plan_follows_the_address_it_is_given() {
    let payload = params(5, 6).encode();
    let accounts = creation(true, [42; 32], SYSTEM_PROGRAM_ID);
    match plan_create_market(&PROGRAM, &accounts, &payload, &[42; 32], 77) {
        Ok(steps) => match &steps[1] {
            Step::Write { data, .. } => assert_eq!(data[9], 77),
            _ => panic!("a write"),
        },
        Err(_) => panic!("accepted"),
    }
    assert!(matches!(
        plan_create_market(&PROGRAM, &accounts, &payload, &[43; 32], 77),
        Err(Refusal { error: ProgramError::InvalidSeeds, .. })
    ));
}

#[test]
fn bench_reads_both_numbers() {
    let mut payload = 300u32.to_le_bytes().to_vec();
    payload.extend_from_slice(&70000u32.to_le_bytes());
    let steps = steps_of(&[], &tagged(2, &payload));
    assert_eq!(steps.len(), 8);
    assert!(matches!(steps[2], Step::BenchAlloc { heap_bytes: 70000 }));
    assert!(matches!(steps[5], Step::BenchRounds { rounds: 300 }));
    for i in [1, 4, 7] {
        assert!(matches!(steps[i], Step::LogComputeUnits));
    }
    assert_eq!(refusal(&[], &[2, 0, 0, 0]), ProgramError::InvalidInstructionData);
}

#[test]
fn bench_hashes_round_by_round() {
    for heap_bytes in [0u32, 1, 31, 32, 100] {
        let mut expected = vec![0u8; heap_bytes as usize];
        for i in 0..300u32 {
            let digest = hash(&expected).to_bytes();
            let n = digest.len().min(expected.len());
            expected[..n].copy_from_slice(&digest[..n]);
            if !expected.is_empty() {
                expected[0] ^= i as u8;
            }
        }
        let mut buffer = bench_alloc(heap_bytes);
        assert_eq!(buffer, vec![0u8; heap_bytes as usize]);
        bench_rounds(&mut buffer, 300);
        assert_eq!(buffer, expected);
    }
}

#[test]
fn one_round_mixes_digest_and_number() {
    let mut buffer = vec![1u8; 34];
    stir(&mut buffer, &[0x0f; 32], 0x1ff);
    assert_eq!(buffer[0], 0xf0);
    assert_eq!(&buffer[1..32], &[0x0f; 31]);
    assert_eq!(&buffer[32..], &[1, 1]);
}

#[test]
fn stats_are_created_at_zero() {
    let (stats, bump) = pda(&[b"stats"]);
    let steps = steps_of(&creation(true, stats, SYSTEM_PROGRAM_ID), &[3]);
    assert_eq!(steps.len(), 3);
    assert!(matches!(&steps[0], Step::CreateAccount { space: 56, .. }));
    match &steps[1] {
        Step::Write { data, .. } => {
            let s = Stats::from_bytes(data).unwrap();
            assert_eq!(s.discriminator, STATS_DISCRIMINATOR);
            assert_eq!((s.bump, s.market_count), (bump, 0));
        }
        _ => panic!("a write"),
    }
}

#[test]
fn create_stats_refuses_in_order() {
    let (stats, _) = pda(&[b"stats"]);
    assert_eq!(refusal(&[], &[3, 0]), ProgramError::InvalidInstructionData);
    assert_eq!(refusal(&[], &[3]), ProgramError::NotEnoughAccountKeys);
    assert_eq!(
        refusal(&creation(false, stats, [1; 32]), &[3]),
        ProgramError::MissingRequiredSignature
    );
    assert_eq!(
        refusal(&creation(true, stats, [1; 32]), &[3]),
        ProgramError::IncorrectProgramId
    );
    assert_eq!(
        refusal(&creation(true, [1; 32], SYSTEM_PROGRAM_ID), &[3]),
        ProgramError::InvalidSeeds
    );
    assert!(plan_create_stats(&PROGRAM, &creation(true, [1; 32], [1; 32]), &[1; 32], 3).is_ok());
}

fn stats_account(count: u64) -> Account {
    let mut s = Stats::zeroed();
    s.discriminator = STATS_DISCRIMINATOR;
    s.bump = 254;
    s.market_count = count;
    s._reserved = [6; 32];
    account([5; 32], PROGRAM, false, s.to_bytes())
}

#[test]
fn bumping_counts_and_stops_at_the_limit() {
    for (before, after) in [(0, 1), (255, 256), (u64::MAX - 1, u64::MAX), (u64::MAX, u64::MAX)] {
        let old = stats_account(before);
        let old_data = old.data.clone();
        let steps = steps_of(&[old], &[4]);
        match &steps[0] {
            Step::Write { account, data } => {
                assert_eq!(*account, 0);
                assert_eq!(Stats::from_bytes(data).unwrap().market_count, after);
                assert_eq!(data[..16], old_data[..16]);
                assert_eq!(data[24..], old_data[24..]);
            }
            _ => panic!("a write"),
        }
    }
}

#[test]
fn bump_stats_refuses_in_order() {
    assert_eq!(refusal(&[], &[4, 4]), ProgramError::InvalidInstructionData);
    assert_eq!(refusal(&[], &[4]), ProgramError::NotEnoughAccountKeys);
    let mut other = stats_account(1);
    other.owner = [1; 32];
    assert_eq!(refusal(&[other], &[4]), ProgramError::IncorrectProgramId);
    let mut long = stats_account(1);
    long.data.push(0);
    assert_eq!(refusal(&[long], &[4]), ProgramError::InvalidAccountData);
    let mut blank = stats_account(1);
    blank.data[0] = 0;
    assert_eq!(refusal(&[blank], &[4]), ProgramError::UninitializedAccount);
}

fn vault_accounts() -> Vec<Account> {
    let (vault, _) = pda(&[b"vault", &[21; 32], &[22; 32]]);
    let (auth, _) = pda(&[b"vault_auth", &[21; 32]]);
    let mut payer = plain([20; 32]);
    payer.is_signer = true;
    vec![
        payer,
        account([21; 32], PROGRAM, false, Vec::new()),
        account([22; 32], SPL_TOKEN_PROGRAM_ID, false, Vec::new()),
        plain(vault),
        plain(auth),
        plain(SYSTEM_PROGRAM_ID),
        plain(SPL_TOKEN_PROGRAM_ID),
    ]
}

fn metas_of(ix: &Instruction) -> Vec<([u8; 32], bool, bool)> {
    ix.accounts.iter().map(|m| (m.pubkey, m.is_signer, m.is_writable)).collect()
}

#[test]
fn create_vault_creates_a_token_account() {
    let accounts = vault_accounts();
    let (vault, auth) = (accounts[3].key, accounts[4].key);
    let steps = steps_of(&accounts, &[5]);
    assert_eq!(steps.len(), 3);
    match &steps[0] {
        Step::CreateAccount { payer, account, system, space, owner, seeds } => {
            assert_eq!((*payer, *account, *system), (0, 3, 5));
            assert_eq!(*space, TOKEN_ACCOUNT_LEN as u64);
            assert_eq!(*owner, SPL_TOKEN_PROGRAM_ID);
            assert_eq!(seeds[0], b"vault".to_vec());
            assert_eq!(seeds[1], vec![21; 32]);
            assert_eq!(seeds[2], vec![22; 32]);
            assert_eq!(seeds[3].len(), 1);
        }
        _ => panic!("a creation"),
    }
    match &steps[1] {
        Step::Invoke { instruction, accounts } => {
            assert_eq!(instruction.program_id, SPL_TOKEN_PROGRAM_ID);
            assert_eq!(
                metas_of(instruction),
                vec![(vault, false, true), ([22; 32], false, false)]
            );
            assert_eq!(instruction.data[0], 18);
            assert_eq!(instruction.data[1..], auth);
            assert_eq!(*accounts, vec![3, 2, 6]);
        }
        _ => panic!("a call"),
    }
}

#[test]
fn create_vault_refuses_in_order() {
    assert_eq!(refusal(&vault_accounts(), &[5, 0]), ProgramError::InvalidInstructionData);
    assert_eq!(refusal(&vault_accounts()[..6], &[5]), ProgramError::NotEnoughAccountKeys);
    let mut a = vault_accounts();
    a[0].is_signer = false;
    a[1].owner = [1; 32];
    assert_eq!(refusal(&a, &[5]), ProgramError::MissingRequiredSignature);
    for i in [1, 2] {
        let mut a = vault_accounts();
        a[i].owner = [1; 32];
        assert_eq!(refusal(&a, &[5]), ProgramError::IncorrectProgramId);
    }
    for i in [5, 6] {
        let mut a = vault_accounts();
        a[i].key = [1; 32];
        a[3].key = [1; 32];
        assert_eq!(refusal(&a, &[5]), ProgramError::IncorrectProgramId);
    }
    for i in [3, 4] {
        let mut a = vault_accounts();
        a[i].key = [1; 32];
        assert_eq!(refusal(&a, &[5]), ProgramError::InvalidSeeds);
    }
    let a = vault_accounts();
    let (vault, auth) = (a[3].key, a[4].key);
    assert!(plan_create_vault(&a, &vault, 1, &auth).is_ok());
    assert!(matches!(
        plan_create_vault(&a, &vault, 1, &vault),
        Err(Refusal { error: ProgramError::InvalidSeeds, .. })
    ));
}

fn deposit_accounts() -> Vec<Account> {
    let mut user = plain([30; 32]);
    user.is_signer = true;
    vec![
        user,
        account([31; 32], SPL_TOKEN_PROGRAM_ID, false, Vec::new()),
        account([32; 32], SPL_TOKEN_PROGRAM_ID, false, Vec::new()),
        plain(SPL_TOKEN_PROGRAM_ID),
    ]
}

#[test]
fn deposit_transfers_the_amount() {
    let steps = steps_of(&deposit_accounts(), &tagged(6, &1234567u64.to_le_bytes()));
    assert_eq!(steps.len(), 2);
    match &steps[0] {
        Step::Invoke { instruction, accounts } => {
            assert_eq!(
                metas_of(instruction),
                vec![([31; 32], false, true), ([32; 32], false, true), ([30; 32], true, false)]
            );
            assert_eq!(instruction.data, tagged(3, &1234567u64.to_le_bytes()));
            assert_eq!(*accounts, vec![1, 2, 0, 3]);
        }
        _ => panic!("a call"),
    }
}

#[test]
fn deposit_refuses_in_order() {
    let good = tagged(6, &1u64.to_le_bytes());
    assert_eq!(refusal(&[], &[6, 1]), ProgramError::InvalidInstructionData);
    assert_eq!(refusal(&[], &tagged(6, &[0; 8])), ProgramError::InvalidInstructionData);
    assert_eq!(refusal(&deposit_accounts()[..3], &good), ProgramError::NotEnoughAccountKeys);
    let mut a = deposit_accounts();
    a[0].is_signer = false;
    a[1].owner = [1; 32];
    assert_eq!(refusal(&a, &good), ProgramError::MissingRequiredSignature);
    for i in [1, 2] {
        let mut a = deposit_accounts();
        a[i].owner = [1; 32];
        assert_eq!(refusal(&a, &good), ProgramError::IncorrectProgramId);
    }
    let mut a = deposit_accounts();
    a[3].key = [1; 32];
    assert_eq!(refusal(&a, &good), ProgramError::IncorrectProgramId);
}

#[test]
fn creation_is_carried_out_by_the_system_program() {
    let accounts = creation(true, [12; 32], SYSTEM_PROGRAM_ID);
    let step = Step::CreateAccount {
        payer: 0,
        account: 1,
        system: 2,
        space: 300,
        owner: [13; 32],
        seeds: Vec::new(),
    };
    let call = create_account_call(&step, &accounts, 5000).unwrap();
    let expected = solana_system_interface::instruction::create_account(
        &Pubkey::new_from_array([11; 32]),
        &Pubkey::new_from_array([12; 32]),
        5000,
        300,
        &Pubkey::new_from_array([13; 32]),
    );
    assert_eq!(call.program_id, expected.program_id.to_bytes());
    assert_eq!(call.data, expected.data);
    assert_eq!(metas_of(&call), vec![([11; 32], true, true), ([12; 32], true, true)]);
    let mut bytes = vec![0u8; 4];
    bytes.extend_from_slice(&5000u64.to_le_bytes());
    bytes.extend_from_slice(&300u64.to_le_bytes());
    bytes.extend_from_slice(&[13; 32]);
    assert_eq!(call.data, bytes);
    assert!(create_account_call(&step, &accounts[..1], 5000).is_none());
    assert!(create_account_call(&Step::BenchRounds { rounds: 1 }, &accounts, 1).is_none());
}

#[test]
fn the_dispatcher_logs_what_it_does_not_know() {
    assert!(log_of(&[], &[]).is_empty());
    assert_eq!(log_of(&[], &[7]), ["unknown instruction tag: 7"]);
    assert_eq!(log_of(&[], &[255, 1]), ["unknown instruction tag: 255"]);
}

#[test]
fn initialize_logs() {
    let good = tagged(0, &params(5, 6).encode());
    assert_eq!(log_of(&[blank_market()], &good), ["market initialized"]);
    assert_eq!(log_of(&[], &good[..112]), ["initialize: payload must be 112 bytes, got 111"]);
    assert!(log_of(&[], &good).is_empty());
    let mut other = blank_market();
    other.owner = [8; 32];
    assert_eq!(
        log_of(&[other], &good),
        [format!("initialize: market owner {} != program {}", text([8; 32]), text(PROGRAM))]
    );
    let mut short = blank_market();
    short.data.pop();
    assert_eq!(log_of(&[short], &good), ["initialize: market data_len 255 != 256"]);
    let mut live = blank_market();
    live.data[7] = 1;
    assert_eq!(log_of(&[live], &good), ["initialize: market already initialized"]);
    assert_eq!(
        log_of(&[blank_market()], &tagged(0, &params(0, 6).encode())),
        ["initialize: tick_size and lot_size must be non-zero"]
    );
}

#[test]
fn create_market_logs() {
    let good = tagged(1, &params(5, 6).encode());
    let (market, bump) = pda(&[b"market", &[2; 32], &[3; 32]]);
    assert_eq!(
        log_of(&creation(true, market, SYSTEM_PROGRAM_ID), &good),
        [format!("market created at PDA (bump {bump})")]
    );
    assert_eq!(log_of(&[], &good[..50]), ["create_market: payload must be 112 bytes, got 49"]);
    assert!(log_of(&[], &good).is_empty());
    assert_eq!(
        log_of(&creation(false, market, SYSTEM_PROGRAM_ID), &good),
        ["create_market: payer must sign"]
    );
    assert_eq!(
        log_of(&creation(true, market, [1; 32]), &good),
        ["create_market: account[2] is not the System program"]
    );
    assert_eq!(
        log_of(&creation(true, market, SYSTEM_PROGRAM_ID), &tagged(1, &params(5, 0).encode())),
        ["create_market: tick_size and lot_size must be non-zero"]
    );
    assert_eq!(
        log_of(&creation(true, [1; 32], SYSTEM_PROGRAM_ID), &good),
        [format!("create_market: passed market {} != derived PDA {}", text([1; 32]), text(market))]
    );
}

#[test]
fn a_second_creation_is_of_the_same_market() {
    let (market, _) = pda(&[b"market", &[2; 32], &[3; 32]]);
    let mut again = params(50, 60);
    again.authority = [99; 32];
    let mut accounts = creation(true, market, SYSTEM_PROGRAM_ID);
    accounts[0].key = [98; 32];
    let steps = steps_of(&accounts, &tagged(1, &again.encode()));
    assert!(matches!(&steps[0], Step::CreateAccount { account: 1, space: 256, .. }));
    assert!(matches!(&steps[1], Step::Write { account: 1, .. }));
    assert!(matches!(&steps[2], Step::Log { .. }));
}

#[test]
fn bench_logs() {
    let mut payload = 300u32.to_le_bytes().to_vec();
    payload.extend_from_slice(&70000u32.to_le_bytes());
    assert_eq!(
        log_of(&[], &tagged(2, &payload)),
        [
            "bench: start (rounds=300, heap_bytes=70000)",
            "bench: after heap alloc (70000 bytes)",
            "bench: after 300 hash rounds",
        ]
    );
    assert_eq!(log_of(&[], &[2, 0, 0]), ["bench: payload must be 8 bytes, got 2"]);
}

#[test]
fn stats_log() {
    let (stats, bump) = pda(&[b"stats"]);
    assert_eq!(
        log_of(&creation(true, stats, SYSTEM_PROGRAM_ID), &[3]),
        [format!("stats created at PDA (bump {bump})")]
    );
    assert_eq!(log_of(&[], &[3, 0]), ["create_stats: payload must be empty"]);
    assert!(log_of(&[], &[3]).is_empty());
    assert_eq!(
        log_of(&creation(false, stats, SYSTEM_PROGRAM_ID), &[3]),
        ["create_stats: payer must sign"]
    );
    assert_eq!(
        log_of(&creation(true, stats, [1; 32]), &[3]),
        ["create_stats: account[2] is not the System program"]
    );
    assert_eq!(
        log_of(&creation(true, [1; 32], SYSTEM_PROGRAM_ID), &[3]),
        [format!("create_stats: passed stats {} != derived PDA {}", text([1; 32]), text(stats))]
    );
    assert_eq!(log_of(&[stats_account(41)], &[4]), ["stats.market_count: 42"]);
    assert_eq!(
        log_of(&[stats_account(u64::MAX)], &[4]),
        ["stats.market_count: 18446744073709551615"]
    );
    assert_eq!(log_of(&[], &[4, 4]), ["bump_stats: payload must be empty"]);
    assert!(log_of(&[], &[4]).is_empty());
    let mut other = stats_account(1);
    other.owner = [1; 32];
    assert_eq!(log_of(&[other], &[4]), ["bump_stats: stats owner mismatch"]);
    let mut long = stats_account(1);
    long.data.push(0);
    assert_eq!(log_of(&[long], &[4]), ["bump_stats: stats data_len 57 != 56"]);
    let mut blank = stats_account(1);
    blank.data[0] = 0;
    assert_eq!(log_of(&[blank], &[4]), ["bump_stats: stats account not initialized"]);
}

#[test]
fn create_vault_logs() {
    let (vault, bump) = pda(&[b"vault", &[21; 32], &[22; 32]]);
    let (auth, _) = pda(&[b"vault_auth", &[21; 32]]);
    assert_eq!(
        log_of(&vault_accounts(), &[5]),
        [format!("vault created (vault bump {bump})")]
    );
    assert_eq!(log_of(&vault_accounts(), &[5, 0]), ["create_vault: payload must be empty"]);
    assert!(log_of(&vault_accounts()[..6], &[5]).is_empty());
    let mut a = vault_accounts();
    a[0].is_signer = false;
    assert_eq!(log_of(&a, &[5]), ["create_vault: payer must sign"]);
    for (i, line) in [
        (1, "create_vault: market not owned by this program"),
        (2, "create_vault: mint not owned by SPL Token"),
    ] {
        let mut a = vault_accounts();
        a[i].owner = [1; 32];
        assert_eq!(log_of(&a, &[5]), [line]);
    }
    for (i, line) in [
        (5, "create_vault: account[5] is not the System program".to_string()),
        (6, "create_vault: account[6] is not the SPL Token program".to_string()),
        (
            3,
            format!("create_vault: passed vault {} != derived PDA {}", text([1; 32]), text(vault)),
        ),
        (
            4,
            format!(
                "create_vault: passed vault_authority {} != derived PDA {}",
                text([1; 32]),
                text(auth)
            ),
        ),
    ] {
        let mut a = vault_accounts();
        a[i].key = [1; 32];
        assert_eq!(log_of(&a, &[5]), [line]);
    }
}

#[test]
fn deposit_logs() {
    let good = tagged(6, &1234567u64.to_le_bytes());
    assert_eq!(log_of(&deposit_accounts(), &good), ["deposit: transferred 1234567 units"]);
    assert_eq!(log_of(&[], &[6, 1]), ["deposit: payload must be 8 bytes (amount u64 LE)"]);
    assert_eq!(log_of(&[], &tagged(6, &[0; 8])), ["deposit: amount must be > 0"]);
    assert!(log_of(&deposit_accounts()[..3], &good).is_empty());
    let mut a = deposit_accounts();
    a[0].is_signer = false;
    assert_eq!(log_of(&a, &good), ["deposit: user must sign"]);
    for (i, line) in [
        (1, "deposit: user_token_acct not owned by SPL Token"),
        (2, "deposit: vault_token_acct not owned by SPL Token"),
    ] {
        let mut a = deposit_accounts();
        a[i].owner = [1; 32];
        assert_eq!(log_of(&a, &good), [line]);
    }
    let mut a = deposit_accounts();
    a[3].key = [1; 32];
    assert_eq!(log_of(&a, &good), ["deposit: account[3] is not the SPL Token program"]);
}
