use openhl::client::bench::{
    after_send, after_simulation, bench_header, bench_instruction, describe_logs,
    describe_simulation, with_limit,
};
use openhl::client::book::{
    book_address, book_header, book_instruction, describe_match, match_header, match_instruction,
    parse_taker_side, print_book, BookArgs,
};
use openhl::client::common::{declared_accounts, expand_tilde, limit_words};
use openhl::client::funding::{
    describe_funding, funding_address, funding_header, funding_instruction, FundingArgs,
};
use openhl::client::keys::{
    parse_key, parse_key_or, parse_pubkey_or_default, require_key, require_mint, ClientError,
    KeyError,
};
use openhl::client::market::{
    account_details, account_details_with_epoch, allocate_header, allocate_market_instruction,
    create_header, create_market_instruction, describe_market, dump_market_bytes, init_header,
    init_market_instructions, market_address, read_market_args, MarketArgs,
};
use openhl::client::oracle::{
    describe_oracle, oracle_address, oracle_header, oracle_instruction, OracleArgs,
};
use openhl::client::slab::{
    count_leaves, describe_best, find_best, is_searchable, print_slab, slab_address, slab_header,
    slab_instruction, show_slab, SlabArgs,
};
use openhl::client::stats::{describe_stats, stats_address, stats_header, stats_instruction, stats_mode_words};
use openhl::client::tags;
use openhl::client::vault::{
    create_vault_header, create_vault_instruction, deposit_header, deposit_instruction,
    describe_token_account, vault_address, vault_auth_address,
};
use openhl::program::address::{SPL_TOKEN_PROGRAM_ID, SYSTEM_PROGRAM_ID};
use openhl::program::dispatch::try_process_instruction;
use openhl::program::market::MarketParams;
use openhl::program::types::{Account, Instruction, Step};
use openhl::scenario::instruction_dispatch_demo::run_instruction_dispatch_demo_structured;
use openhl::state::{
    tree_tag, CritbitTree, FundingState, Market, Oracle, OrderBook, Slab, MARKET_DISCRIMINATOR,
    ORACLE_DISCRIMINATOR, SLAB_NONE_INDEX,
};
use solana_program::pubkey::Pubkey;

const PROGRAM: [u8; 32] = [7; 32];
const PAYER: [u8; 32] = [1; 32];
const MARKET: [u8; 32] = [2; 32];
const MINT: [u8; 32] = [3; 32];

fn text(key: [u8; 32]) -> String {
    Pubkey::new_from_array(key).to_string()
}

fn pda(seeds: &[&[u8]]) -> Option<([u8; 32], u8)> {
    let (key, bump) = Pubkey::find_program_address(seeds, &Pubkey::new_from_array(PROGRAM));
    Some((key.to_bytes(), bump))
}

fn metas_of(ix: &Instruction) -> Vec<([u8; 32], bool, bool)> {
    ix.accounts.iter().map(|m| (m.pubkey, m.is_signer, m.is_writable)).collect()
}

fn message(e: ClientError) -> String {
    match e {
        ClientError::BadKey { context, why } => format!("{context}: {}", why.text()),
        ClientError::Usage { message } => message,
    }
}

fn complaint(r: Result<Option<Instruction>, ClientError>) -> String {
    match r {
        Ok(_) => "no complaint".to_string(),
        Err(e) => message(e),
    }
}

fn asked(r: Result<Option<Instruction>, ClientError>) -> Instruction {
    match r {
        Ok(Some(ix)) => ix,
        Ok(None) => panic!("nothing asked"),
        Err(e) => panic!("{}", message(e)),
    }
}

fn bytes_of(parts: &[&[u8]]) -> Vec<u8> {
    parts.concat()
}

/// The accounts as the runtime passes them to the program.
fn passed(ix: &Instruction) -> Vec<Account> {
    ix.accounts
        .iter()
        .map(|m| Account {
            key: m.pubkey,
            owner: SYSTEM_PROGRAM_ID,
            is_signer: m.is_signer,
            data: Vec::new(),
        })
        .collect()
}

#[test]
fn keys_are_read_and_written_in_base_58() {
    assert_eq!(parse_key(&text([9; 32]), "x").unwrap(), [9; 32]);
    assert_eq!(message(parse_key("", "parse --program").unwrap_err()), "parse --program: String is the wrong size");
    assert_eq!(message(parse_key("0OIl", "x").unwrap_err()), "x: Invalid Base58 string");
    assert!(matches!(
        parse_key("abc", "x"),
        Err(ClientError::BadKey { why: KeyError::WrongSize, .. })
    ));
    let long = "1".repeat(45);
    assert!(matches!(
        parse_key(&long, "x"),
        Err(ClientError::BadKey { why: KeyError::WrongSize, .. })
    ));
    for sample in ["", "abc", "0OIl", long.as_str(), "!"] {
        let theirs = sample.parse::<Pubkey>().unwrap_err().to_string();
        match parse_key(sample, "x") {
            Err(ClientError::BadKey { why, .. }) => assert_eq!(why.text(), theirs),
            _ => panic!("{sample}"),
        }
    }
}

#[test]
fn optional_and_required_keys() {
    assert_eq!(parse_pubkey_or_default(None).unwrap(), [0; 32]);
    assert_eq!(parse_pubkey_or_default(Some(&text([5; 32]))).unwrap(), [5; 32]);
    assert_eq!(message(parse_pubkey_or_default(Some("?")).unwrap_err()), "parse pubkey: Invalid Base58 string");
    assert_eq!(parse_key_or(None, "c", &[4; 32]).unwrap(), [4; 32]);
    assert_eq!(parse_key_or(Some(&text([5; 32])), "c", &[4; 32]).unwrap(), [5; 32]);
    assert_eq!(message(require_key(None, "missing", "c").unwrap_err()), "missing");
    assert_eq!(require_mint(Some(&text(MINT))).unwrap(), MINT);
    assert_eq!(message(require_mint(None).unwrap_err()), "--mint required for this mode");
    assert_eq!(message(require_mint(Some("?")).unwrap_err()), "parse --mint: Invalid Base58 string");
}

#[test]
fn tilde_stands_for_home() {
    assert_eq!(expand_tilde("~/.config/id.json", Some("/home/me")), "/home/me/.config/id.json");
    assert_eq!(expand_tilde("~/.config/id.json", None), "~/.config/id.json");
    assert_eq!(expand_tilde("/abs", Some("/home/me")), "/abs");
    assert_eq!(expand_tilde("~", Some("/home/me")), "~");
    assert_eq!(expand_tilde("~user/x", Some("/home/me")), "~user/x");
}

#[test]
fn declared_accounts_name_their_mode() {
    let ix = create_vault_instruction(&PROGRAM, &PAYER, &MARKET, &MINT, &[4; 32], &[5; 32]);
    let out = declared_accounts(&ix);
    let mut expected = "AccountMeta declared:\n".to_string();
    for (i, m) in ix.accounts.iter().enumerate() {
        let mode = match (m.is_writable, m.is_signer) {
            (true, true) => "WRITE + SIGNER",
            (true, false) => "WRITE",
            (false, true) => "SIGNER",
            (false, false) => "READ",
        };
        expected.push_str(&format!("  [{i}] {} {}\n", text(m.pubkey), mode));
    }
    assert_eq!(out, expected);
    assert!(declared_accounts(&deposit_instruction(&PROGRAM, &PAYER, &MARKET, &MINT, 1))
        .contains(" SIGNER\n"));
}

fn market_args() -> MarketArgs {
    MarketArgs {
        program: text(PROGRAM),
        authority: None,
        base_mint: None,
        quote_mint: Some(text(MINT)),
        tick_size: 100,
        lot_size: 1,
    }
}

#[test]
fn market_options_are_read_in_order() {
    let (program, params) = read_market_args(&market_args(), "parse --program", &PAYER).unwrap();
    assert_eq!(program, PROGRAM);
    assert_eq!(params.authority, PAYER);
    assert_eq!(params.base_mint, [0; 32]);
    assert_eq!(params.quote_mint, MINT);
    assert_eq!((params.tick_size, params.lot_size), (100, 1));
    let mut bad = market_args();
    bad.quote_mint = Some("?".to_string());
    assert_eq!(
        message(read_market_args(&bad, "c", &PAYER).err().unwrap()),
        "parse pubkey: Invalid Base58 string"
    );
    bad.authority = Some("?".to_string());
    assert_eq!(
        message(read_market_args(&bad, "c", &PAYER).err().unwrap()),
        "parse --authority: Invalid Base58 string"
    );
    bad.program = "?".to_string();
    assert_eq!(
        message(read_market_args(&bad, "c", &PAYER).err().unwrap()),
        "c: Invalid Base58 string"
    );
}

fn params() -> MarketParams {
    MarketParams {
        authority: PAYER,
        base_mint: [8; 32],
        quote_mint: MINT,
        tick_size: 100,
        lot_size: 7,
    }
}

#[test]
fn what_init_market_sends_the_program_accepts() {
    let (assign, init) = init_market_instructions(&PROGRAM, &MARKET, &params());
    let expected = solana_system_interface::instruction::assign(
        &Pubkey::new_from_array(MARKET),
        &Pubkey::new_from_array(PROGRAM),
    );
    assert_eq!(assign.program_id, expected.program_id.to_bytes());
    assert_eq!(assign.data, expected.data);
    assert_eq!(assign.data, bytes_of(&[&[1, 0, 0, 0], &PROGRAM]));
    assert_eq!(metas_of(&assign), vec![(MARKET, true, true)]);
    assert_eq!(metas_of(&init), vec![(MARKET, false, true)]);
    let mut accounts = passed(&init);
    accounts[0].owner = PROGRAM;
    accounts[0].data = vec![0; 256];
    let steps = try_process_instruction(&PROGRAM, &accounts, &init.data).unwrap().unwrap();
    match &steps[0] {
        Step::Write { data, .. } => {
            let m = Market::from_bytes(data).unwrap();
            assert_eq!((m.authority, m.base_mint, m.quote_mint), (PAYER, [8; 32], MINT));
            assert_eq!((m.tick_size, m.lot_size), (100, 7));
        }
        _ => panic!("a write"),
    }
}

#[test]
fn what_create_market_sends_the_program_accepts() {
    let (market, bump) = market_address(&PROGRAM, &[8; 32], &MINT).unwrap();
    assert_eq!(Some((market, bump)), pda(&[b"market", &[8; 32], &MINT]));
    let ix = create_market_instruction(&PROGRAM, &PAYER, &market, &params());
    assert_eq!(
        metas_of(&ix),
        vec![(PAYER, true, true), (market, false, true), (SYSTEM_PROGRAM_ID, false, false)]
    );
    let steps = try_process_instruction(&PROGRAM, &passed(&ix), &ix.data).unwrap().unwrap();
    match &steps[1] {
        Step::Write { data, .. } => assert_eq!(Market::from_bytes(data).unwrap().bump, bump),
        _ => panic!("a write"),
    }
}

#[test]
fn what_the_other_commands_send_the_program_accepts() {
    let (stats, _) = stats_address(&PROGRAM).unwrap();
    assert_eq!(Some(stats), pda(&[b"stats"]).map(|found| found.0));
    let ix = stats_instruction(true, &PROGRAM, &PAYER, &stats);
    let steps = try_process_instruction(&PROGRAM, &passed(&ix), &ix.data).unwrap().unwrap();
    let written = match &steps[1] {
        Step::Write { data, .. } => data.clone(),
        _ => panic!("a write"),
    };
    let ix = stats_instruction(false, &PROGRAM, &PAYER, &stats);
    assert_eq!(metas_of(&ix), vec![(stats, false, true)]);
    let mut accounts = passed(&ix);
    accounts[0].owner = PROGRAM;
    accounts[0].data = written;
    assert!(try_process_instruction(&PROGRAM, &accounts, &ix.data).unwrap().is_ok());

    let (vault, _) = vault_address(&PROGRAM, &MARKET, &MINT).unwrap();
    let (auth, _) = vault_auth_address(&PROGRAM, &MARKET).unwrap();
    let ix = create_vault_instruction(&PROGRAM, &PAYER, &MARKET, &MINT, &vault, &auth);
    let mut accounts = passed(&ix);
    accounts[1].owner = PROGRAM;
    accounts[2].owner = SPL_TOKEN_PROGRAM_ID;
    assert!(try_process_instruction(&PROGRAM, &accounts, &ix.data).unwrap().is_ok());

    let ix = deposit_instruction(&PROGRAM, &PAYER, &[4; 32], &vault, 55);
    assert_eq!(ix.data, bytes_of(&[&[6], &55u64.to_le_bytes()]));
    let mut accounts = passed(&ix);
    accounts[1].owner = SPL_TOKEN_PROGRAM_ID;
    accounts[2].owner = SPL_TOKEN_PROGRAM_ID;
    assert!(try_process_instruction(&PROGRAM, &accounts, &ix.data).unwrap().is_ok());

    let ix = bench_instruction(&PROGRAM, 5, 6);
    let steps = try_process_instruction(&PROGRAM, &[], &ix.data).unwrap().unwrap();
    assert!(matches!(steps[2], Step::BenchAlloc { heap_bytes: 6 }));
    assert!(matches!(steps[5], Step::BenchRounds { rounds: 5 }));
}

#[test]
fn a_limit_goes_in_front() {
    let alone = with_limit(None, bench_instruction(&PROGRAM, 1, 1));
    assert_eq!(alone.len(), 1);
    let both = with_limit(Some(400_000), bench_instruction(&PROGRAM, 1, 1));
    assert_eq!(both.len(), 2);
    let expected =
        solana_compute_budget_interface::ComputeBudgetInstruction::set_compute_unit_limit(400_000);
    assert_eq!(both[0].program_id, expected.program_id.to_bytes());
    assert_eq!(both[0].data, expected.data);
    assert_eq!(both[0].data, bytes_of(&[&[2], &400_000u32.to_le_bytes()]));
    assert!(both[0].accounts.is_empty());
    assert_eq!(both[1].data[0], 2);
    assert_eq!(limit_words(Some(400_000)), "400000");
    assert_eq!(limit_words(None), "default (200k)");
}

#[test]
fn allocation_leaves_the_account_to_the_system_program() {
    let ix = allocate_market_instruction(&PAYER, &MARKET, 2_672_640);
    let expected = solana_system_interface::instruction::create_account(
        &Pubkey::new_from_array(PAYER),
        &Pubkey::new_from_array(MARKET),
        2_672_640,
        256,
        &solana_system_interface::program::ID,
    );
    assert_eq!(ix.data, expected.data);
    assert_eq!(metas_of(&ix), vec![(PAYER, true, true), (MARKET, true, true)]);
}

#[test]
fn a_market_is_dumped_field_by_field() {
    let mut m = Market::zeroed();
    m.discriminator = MARKET_DISCRIMINATOR;
    m.bump = 0xfe;
    m.tick_size = 0x1234;
    let data = m.to_bytes();
    let out = dump_market_bytes(&data, true);
    assert!(out.starts_with(
        "  0x0000  discriminator      [u8; 8]    expected: MARKET\\0\\0\n          4d 41 52 4b 45 54 00 00 \n  0x0008  version            u8\n          00 \n  0x0009  bump               u8         expected: PDA bump\n          fe \n  0x000a  _pad0              [u8; 6]\n"
    ));
    assert!(out.contains("  0x0070  tick_size          u64\n          34 12 00 00 00 00 00 00 \n"));
    assert!(out.contains("  0x0080  _reserved          [u8; 128]\n"));
    assert_eq!(out.lines().count(), 10 + 1 + 1 + 1 + 1 + 2 + 2 + 2 + 1 + 1 + 8);
    assert!(dump_market_bytes(&data, false).contains("  0x0009  bump               u8\n"));
    let cut = dump_market_bytes(&data[..130], false);
    assert!(cut.ends_with("  0x0080  _reserved          [u8; 128]\n          00 00 \n"));
}

#[test]
fn a_market_is_described() {
    let mut m = Market::zeroed();
    m.discriminator = MARKET_DISCRIMINATOR;
    m.version = 1;
    m.bump = 254;
    m.authority = PAYER;
    m.tick_size = 100;
    m.lot_size = 1;
    let out = describe_market(&m, None);
    assert_eq!(
        out,
        format!(
            "\ndecoded Market view:\n  discriminator: {:?}  (ASCII: {:?})\n  version:       1\n  bump:          254\n  authority:     {}\n  base_mint:     {}\n  quote_mint:    {}\n  tick_size:     100\n  lot_size:      1\n",
            m.discriminator,
            "MARKET\0\0",
            text(PAYER),
            text([0; 32]),
            text([0; 32])
        )
    );
    assert!(describe_market(&m, Some(253))
        .contains("  bump:          254  (matches client-side derivation: 253)\n"));
    m.discriminator = [0xff; 8];
    assert!(describe_market(&m, None).contains("(ASCII: \"<non-utf8>\")"));
}

#[test]
fn headers_show_what_was_read() {
    assert_eq!(
        allocate_header("u", &PAYER, &MARKET, 256, 5000, "0.000005"),
        format!(
            "rpc:            u\npayer:          {}\nmarket pubkey:  {}\nspace:          256 bytes\nrent lamports:  5000  (0.000005 SOL)\n\n",
            text(PAYER),
            text(MARKET)
        )
    );
    assert!(init_header("u", &PAYER, &MARKET, &PROGRAM, &PAYER, &MINT, &MINT, 3, 4)
        .ends_with("tick_size:      3\nlot_size:       4\n\n"));
    assert!(create_header("u", &PAYER, &PROGRAM, &MINT, &MINT, &MARKET, 250, &PAYER, 3, 4)
        .contains(&format!("market PDA:     {}  (bump 250)\n", text(MARKET))));
    assert_eq!(
        account_details(&PAYER, 5, true, 256),
        format!(
            "account metadata:\n  owner:        {}\n  lamports:     5\n  executable:   true\n  data length:  256\n\n",
            text(PAYER)
        )
    );
    assert!(account_details_with_epoch(&PAYER, 5, false, 9, 256)
        .contains("  executable:   false\n  rent_epoch:   9\n  data length:  256\n"));
    assert!(bench_header("u", &PAYER, &PROGRAM, 50, 1024, &limit_words(None))
        .ends_with("rounds:     50\nheap_bytes: 1024\ncu_limit:   default (200k)\n\n"));
    assert!(stats_header("u", &PAYER, &PROGRAM, &MARKET, 3, &stats_mode_words(true))
        .ends_with("(bump 3)\nmode:       CreateStats (init)\n\n"));
    assert_eq!(stats_mode_words(false), "BumpStats");
    assert_eq!(describe_stats(8, 2), "\nstats post-state:\n  market_count: 8\n  bump:         2\n");
    assert!(create_vault_header("u", &PAYER, &PROGRAM, &MARKET, &MINT, &[4; 32], 1, &[5; 32], 2)
        .ends_with(&format!("vault_auth PDA:   {}  (bump 2)\n\n", text([5; 32]))));
    assert_eq!(
        describe_token_account(&SPL_TOKEN_PROGRAM_ID, 7, 165),
        "\nvault token account post-state:\n  owner:        TokenkegQfeZyiNwAJbNbGKPFXCWuBvf9Ss623VQ5DA  (expected SPL Token)\n  lamports:     7\n  data length:  165  (expected 165)\n"
    );
    assert!(deposit_header("u", &PAYER, &PROGRAM, &MINT, &MARKET, 12)
        .ends_with("amount:              12\n\n"));
    assert!(book_header("u", &PAYER, &PROGRAM, &MARKET, &MINT, 1)
        .starts_with(&format!("rpc:        u\npayer/user: {}\n", text(PAYER))));
    assert!(match_header("u", &PAYER, &PROGRAM, &MARKET, &MINT, "ask", 1, 2, 3, 4, "5")
        .ends_with("side:        ask (1)\nlimit_price: 2\nsize:        3\nmax_fills:   4\ncu_limit:    5\n\n"));
    assert!(oracle_header("u", &PAYER, &PROGRAM, &MARKET, &MINT, 1)
        .ends_with(&format!("oracle PDA: {}  (bump 1)\n\n", text(MINT))));
    assert!(funding_header("u", &PAYER, &PROGRAM, &MARKET, &MINT, 1)
        .ends_with(&format!("funding PDA: {}  (bump 1)\n\n", text(MINT))));
    assert!(slab_header("u", &PAYER, &PROGRAM, &MARKET, &MINT, 1)
        .ends_with(&format!("slab PDA:   {}  (bump 1)\n\n", text(MINT))));
}

#[test]
fn simulations_are_described() {
    assert_eq!(
        describe_simulation(Some(1234), None),
        "simulation:\n  units_consumed: 1234\n  err:            (none)\n\n"
    );
    assert_eq!(
        describe_simulation(None, Some("Boom")),
        "simulation:\n  units_consumed: 0\n  err:            Boom\n\n"
    );
    assert_eq!(describe_logs(&None), "");
    assert_eq!(
        describe_logs(&Some(vec!["a".to_string(), "b".to_string()])),
        "program logs:\n  a\n  b\n"
    );
}

#[test]
fn only_a_simulation_that_passed_is_sent() {
    let logs = Some(vec!["l".to_string()]);
    let (out, send) = after_simulation(Some(5), None, &logs, true);
    assert!(send);
    assert_eq!(
        out,
        "simulation:\n  units_consumed: 5\n  err:            (none)\n\nprogram logs:\n  l\n\n"
    );
    let (out, send) = after_simulation(Some(5), Some("E"), &None, true);
    assert!(!send);
    assert_eq!(
        out,
        "simulation:\n  units_consumed: 5\n  err:            E\n\n\n(skipping on-chain send because simulation failed)\n"
    );
    let (out, _) = after_simulation(None, None, &None, false);
    assert!(out.ends_with("(none)\n\n"));
    assert_eq!(after_send(Ok("abc")), "on-chain signature: abc\n");
    assert_eq!(after_send(Err("no")), "on-chain send failed (sim had passed): no\n");
}

#[test]
fn client_tags_are_in_the_dispatch_table() {
    let table = run_instruction_dispatch_demo_structured();
    for (tag, name) in [
        (tags::CREATE_ORDER_BOOK, "CreateOrderBook"),
        (tags::PLACE_ORDER, "PlaceOrder"),
        (tags::CANCEL_ORDER, "CancelOrder"),
        (tags::MATCH, "Match"),
        (tags::CREATE_ORACLE, "CreateOracle"),
        (tags::SET_ORACLE_PRICE, "SetOraclePrice"),
        (tags::CLOSE_POSITION, "ClosePosition"),
        (tags::VAULT_DEPOSIT, "VaultDeposit"),
        (tags::REGISTER_BUILDER, "RegisterBuilder"),
        (tags::CREATE_SLAB, "CreateSlab"),
        (tags::SLAB_PLACE_ORDER, "SlabPlaceOrder"),
        (tags::SLAB_MATCH, "SlabMatch"),
    ] {
        assert_eq!(table.find_tag(tag).unwrap().name, name);
    }
}

fn book_args() -> BookArgs {
    BookArgs {
        init: false,
        place: false,
        side: None,
        price: None,
        size: None,
        cancel: false,
        order_id: None,
    }
}

fn book(args: &BookArgs) -> Result<Option<Instruction>, ClientError> {
    book_instruction(args, &PROGRAM, &PAYER, &MARKET, &[4; 32])
}

#[test]
fn book_requests() {
    assert!(matches!(book(&book_args()), Ok(None)));
    let mut a = book_args();
    a.init = true;
    let ix = asked(book(&a));
    assert_eq!(ix.data, vec![7]);
    assert_eq!(
        metas_of(&ix),
        vec![
            (PAYER, true, true),
            (MARKET, false, false),
            ([4; 32], false, true),
            (SYSTEM_PROGRAM_ID, false, false)
        ]
    );
    a.cancel = true;
    assert_eq!(complaint(book(&a)), "--init, --place, --cancel are mutually exclusive");

    let mut a = book_args();
    a.place = true;
    assert_eq!(complaint(book(&a)), "--side must be 'bid' or 'ask', got None");
    a.side = Some("Bid".to_string());
    assert_eq!(complaint(book(&a)), "--side must be 'bid' or 'ask', got Some(\"Bid\")");
    a.side = Some("ask".to_string());
    assert_eq!(complaint(book(&a)), "--price required");
    a.price = Some(258);
    assert_eq!(complaint(book(&a)), "--size required");
    a.size = Some(3);
    let ix = asked(book(&a));
    assert_eq!(ix.data, bytes_of(&[&[8, 1], &258u64.to_le_bytes(), &3u64.to_le_bytes()]));
    assert_eq!(metas_of(&ix), vec![(PAYER, true, false), ([4; 32], false, true)]);

    let mut a = book_args();
    a.cancel = true;
    assert_eq!(complaint(book(&a)), "--order-id required");
    a.order_id = Some(77);
    assert_eq!(asked(book(&a)).data, bytes_of(&[&[9], &77u64.to_le_bytes()]));
    assert_eq!(book_address(&PROGRAM, &MARKET), pda(&[b"book", &MARKET]));
}

#[test]
fn matches_are_asked_for() {
    assert_eq!(parse_taker_side("bid").unwrap(), 0);
    assert_eq!(parse_taker_side("ask").unwrap(), 1);
    assert_eq!(
        message(parse_taker_side("a\"b").unwrap_err()),
        "--side must be 'bid' or 'ask', got \"a\\\"b\""
    );
    let ix = match_instruction(&PROGRAM, &PAYER, &[4; 32], 1, 5, 6, 7);
    assert_eq!(ix.data, bytes_of(&[&[10, 1], &5u64.to_le_bytes(), &6u64.to_le_bytes(), &[7]]));
    assert_eq!(
        describe_match(3, 9),
        "\nbook post-state: active_count=3, next_order_id=9\n"
    );
}

#[test]
fn a_book_is_printed() {
    let mut b = OrderBook::zeroed();
    b.next_order_id = 12;
    b.active_count = 2;
    b.bump = 255;
    b.market = MARKET;
    let head = format!(
        "  next_order_id: 12\n  active_count:  2\n  bump:          255\n  market:        {}\n  slots:\n",
        text(MARKET)
    );
    assert_eq!(print_book(&b), format!("{head}    (empty)\n"));
    b.slots[3].size = 5;
    b.slots[3].price = 100;
    b.slots[3].order_id = 10;
    b.slots[3].owner = PAYER;
    b.slots[31].size = 6;
    b.slots[31].side = 1;
    assert_eq!(
        print_book(&b),
        format!(
            "{head}    [03] BID order_id=10 price=100 size=5 owner={}\n    [31] ASK order_id=0 price=0 size=6 owner={}\n",
            text(PAYER),
            text([0; 32])
        )
    );
}

#[test]
fn oracle_requests() {
    let ask = |init, set, price, conf, expo| {
        oracle_instruction(
            &OracleArgs { init, set, price, conf, expo },
            &PROGRAM,
            &PAYER,
            &MARKET,
            &[4; 32],
        )
    };
    assert!(matches!(ask(false, false, None, None, None), Ok(None)));
    assert_eq!(
        complaint(ask(true, true, None, None, None)),
        "--init and --set are mutually exclusive"
    );
    assert_eq!(asked(ask(true, false, None, None, None)).data, vec![11]);
    assert_eq!(complaint(ask(false, true, None, Some(1), None)), "--price required");
    assert_eq!(
        asked(ask(false, true, Some(-5), None, None)).data,
        bytes_of(&[&[12], &(-5i64).to_le_bytes(), &[0; 8], &[0; 4]])
    );
    assert_eq!(
        asked(ask(false, true, Some(5), Some(6), Some(-8))).data,
        bytes_of(&[&[12], &5i64.to_le_bytes(), &6u64.to_le_bytes(), &(-8i32).to_le_bytes()])
    );
    assert_eq!(oracle_address(&PROGRAM, &MARKET), pda(&[b"oracle", &MARKET]));
    let mut o = Oracle::zeroed();
    o.discriminator = ORACLE_DISCRIMINATOR;
    o.price = -7;
    o.expo = -8;
    o.publish_slot = 90;
    let out = describe_oracle(&o, 100);
    assert!(out.contains("  price:         -7\n  conf:          0\n  expo:          -8\n  publish_slot:  90\n"));
    assert!(out.contains(&format!("  discriminator: {:?}\n", ORACLE_DISCRIMINATOR)));
    assert!(out.ends_with("\n  current_slot:  100\n  age (slots):   10\n"));
    assert!(describe_oracle(&o, 80).ends_with("age (slots):   0\n"));
}

#[test]
fn funding_requests() {
    let ask = |init, window_seconds, update, rate| {
        funding_instruction(
            &FundingArgs { init, window_seconds, update, rate },
            &PROGRAM,
            &PAYER,
            &MARKET,
            &[4; 32],
        )
    };
    assert!(matches!(ask(false, 1, false, None), Ok(None)));
    assert_eq!(
        complaint(ask(true, 1, true, None)),
        "--init and --update are mutually exclusive"
    );
    assert_eq!(
        asked(ask(true, 3600, false, None)).data,
        bytes_of(&[&[14], &3600u64.to_le_bytes()])
    );
    assert_eq!(complaint(ask(false, 1, true, None)), "--rate required");
    assert_eq!(
        asked(ask(false, 1, true, Some(-2))).data,
        bytes_of(&[&[15], &(-2i64).to_le_bytes()])
    );
    assert_eq!(funding_address(&PROGRAM, &MARKET), pda(&[b"funding", &MARKET]));
    let mut f = FundingState::zeroed();
    f.cumulative_funding_index = -3;
    f.current_rate_per_sec = 50_000;
    f.window_seconds = 3600;
    f.last_update_ts = -1;
    f.last_update_slot = 5;
    assert_eq!(
        describe_funding(&f, 9),
        format!(
            "  market:                     {}\n  cumulative_funding_index:   -3 (scaled 1e9)\n  current_rate_per_sec:       50000 (scaled 1e9)\n  window_seconds:             3600\n  last_update_ts:             -1\n  last_update_slot:           5\n\n  current_slot:               9\n  slots_since_update:         4\n",
            text([0; 32])
        )
    );
}

fn slab_args() -> SlabArgs {
    SlabArgs {
        create: false,
        place: false,
        side: None,
        matching: false,
        taker_side: None,
        max_fills: None,
        price: None,
        size: None,
    }
}

fn slab(args: &SlabArgs) -> Result<Option<Instruction>, ClientError> {
    slab_instruction(args, &PROGRAM, &PAYER, &MARKET, &[4; 32])
}

#[test]
fn slab_requests() {
    assert!(matches!(slab(&slab_args()), Ok(None)));
    let mut a = slab_args();
    a.create = true;
    assert_eq!(asked(slab(&a)).data, vec![29]);
    a.matching = true;
    assert_eq!(complaint(slab(&a)), "--create, --place, --match are mutually exclusive");
    let mut a = slab_args();
    a.place = true;
    a.price = Some(5);
    assert_eq!(complaint(slab(&a)), "--side must be 'bid' or 'ask', got None");
    a.side = Some("bid".to_string());
    assert_eq!(complaint(slab(&a)), "--size required");
    a.size = Some(6);
    assert_eq!(
        asked(slab(&a)).data,
        bytes_of(&[&[30, 0], &5u64.to_le_bytes(), &6u64.to_le_bytes()])
    );
    let mut a = slab_args();
    a.matching = true;
    a.taker_side = Some("sell".to_string());
    assert_eq!(complaint(slab(&a)), "--taker-side must be 'bid' or 'ask', got Some(\"sell\")");
    a.taker_side = Some("ask".to_string());
    assert_eq!(complaint(slab(&a)), "--price required");
    a.price = Some(1);
    a.size = Some(2);
    assert_eq!(complaint(slab(&a)), "--max-fills required");
    a.max_fills = Some(3);
    let ix = asked(slab(&a));
    assert_eq!(ix.data, bytes_of(&[&[31, 1], &1u64.to_le_bytes(), &2u64.to_le_bytes(), &[3]]));
    assert_eq!(metas_of(&ix), vec![(PAYER, true, false), ([4; 32], false, true)]);
    assert_eq!(slab_address(&PROGRAM, &MARKET), pda(&[b"slab", &MARKET]));
}

/// Three levels, 5, 6 and 12, under an inner node for bit 3 and one for bit 1.
fn small_tree() -> CritbitTree {
    let mut t = CritbitTree::zeroed();
    t.free_head = 5;
    t.root = 0;
    t.nodes[0].tag = tree_tag::INNER;
    t.nodes[0].split_bit = 3;
    t.nodes[0].left_child = 1;
    t.nodes[0].right_child = 2;
    t.nodes[1].tag = tree_tag::INNER;
    t.nodes[1].split_bit = 1;
    t.nodes[1].left_child = 3;
    t.nodes[1].right_child = 4;
    for (at, price, orders) in [(2, 12, 1), (3, 5, 2), (4, 6, 3)] {
        t.nodes[at].tag = tree_tag::LEAF;
        t.nodes[at].price = price;
        t.nodes[at].order_count = orders;
    }
    t
}

#[test]
fn the_best_price_is_found_in_a_tree() {
    let t = small_tree();
    assert_eq!(find_best(&t, true), Some(2));
    assert_eq!(find_best(&t, false), Some(3));
    assert_eq!(describe_best(&t, true), "price=12 orders=1");
    assert_eq!(describe_best(&t, false), "price=5 orders=2");
    assert_eq!(count_leaves(&t), 3);
    let mut empty = CritbitTree::zeroed();
    empty.root = SLAB_NONE_INDEX;
    assert!(is_searchable(&empty, true));
    assert_eq!(describe_best(&empty, true), "(empty)");
    assert_eq!(count_leaves(&empty), 0);
}

#[test]
fn broken_trees_are_not_searched() {
    // Every node is free and names itself as its child.
    let circle = CritbitTree::zeroed();
    assert!(!is_searchable(&circle, true));
    let mut out = CritbitTree::zeroed();
    out.root = 256;
    assert!(!is_searchable(&out, false));
    let mut chain = CritbitTree::zeroed();
    for i in 0..255 {
        chain.nodes[i].right_child = i as u16 + 1;
    }
    chain.nodes[255].tag = tree_tag::LEAF;
    assert!(is_searchable(&chain, true));
    assert_eq!(find_best(&chain, true), Some(255));
}

#[test]
fn a_slab_is_printed() {
    let mut s = Slab::zeroed();
    s.next_order_id = 4;
    s.active_count = 6;
    s.bump = 250;
    s.market = MARKET;
    s.pool_free_head = 9;
    s.bid_tree = small_tree();
    s.ask_tree.root = SLAB_NONE_INDEX;
    assert_eq!(
        print_slab(&s),
        format!(
            "  next_order_id: 4\n  active_count:  6\n  bump:          250\n  market:        {}\n  best bid:      price=12 orders=1\n  best ask:      (empty)\n  bid levels:    3 (tree-node pool free head 5)\n  ask levels:    0 (tree-node pool free head 0)\n  order-pool free head: 9\n",
            text(MARKET)
        )
    );
    let mut data = s.to_bytes();
    data.push(1);
    assert_eq!(show_slab(Some(&data)), Some(print_slab(&s)));
    assert_eq!(
        show_slab(Some(&data[..100])).unwrap(),
        "  (slab account exists but is wrong size)\n"
    );
    assert_eq!(show_slab(None).unwrap(), "  (slab account does not exist yet)\n");
    assert_eq!(show_slab(Some(&Slab::zeroed().to_bytes())), None);
}
