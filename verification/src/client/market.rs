//! The commands that bring a market to life, and how they show it.

use vstd::prelude::*;
use vstd::string::StringExecFns;

use crate::client::common;
use crate::client::keys;
use crate::client::keys::ClientError;
use crate::program::address;
use crate::program::dispatch;
use crate::program::market::MarketParams;
use crate::program::system;
use crate::program::types;
use crate::program::types::{AccountMeta, Instruction};
use crate::state::Market;
use crate::text;

verus! {

/// The options of `init-market` and `create-market` that say what to create.
#[derive(Debug, Clone)]
pub struct MarketArgs {
    pub program: String,
    pub authority: Option<String>,
    pub base_mint: Option<String>,
    pub quote_mint: Option<String>,
    pub tick_size: u64,
    pub lot_size: u64,
}

/// What the options ask for.
pub struct MarketRequest {
    pub program: Seq<u8>,
    pub authority: Seq<u8>,
    pub base_mint: Seq<u8>,
    pub quote_mint: Seq<u8>,
    pub tick_size: u64,
    pub lot_size: u64,
}

/// Reads the options in order; the first key that cannot be read decides.
/// The payer is the authority unless another is named, and a mint that is not
/// named is the key of zeros.
pub open spec fn market_request(args: MarketArgs, context: Seq<char>, payer: Seq<u8>) -> Result<
    MarketRequest,
    keys::ErrorView,
> {
    match keys::key_named(args.program@, context) {
        Err(e) => Err(e),
        Ok(program) => match keys::key_or(
            keys::opt_string(args.authority),
            "parse --authority"@,
            payer,
        ) {
            Err(e) => Err(e),
            Ok(authority) => match keys::key_or_default(keys::opt_string(args.base_mint)) {
                Err(e) => Err(e),
                Ok(base_mint) => match keys::key_or_default(keys::opt_string(args.quote_mint)) {
                    Err(e) => Err(e),
                    Ok(quote_mint) => Ok(
                        MarketRequest {
                            program,
                            authority,
                            base_mint,
                            quote_mint,
                            tick_size: args.tick_size,
                            lot_size: args.lot_size,
                        },
                    ),
                },
            },
        },
    }
}

/// The mathematical value of what was read from the options.
pub open spec fn market_request_of(r: Result<([u8; 32], MarketParams), ClientError>) -> Result<
    MarketRequest,
    keys::ErrorView,
> {
    match r {
        Ok((program, params)) => Ok(
            MarketRequest {
                program: program@,
                authority: params.authority@,
                base_mint: params.base_mint@,
                quote_mint: params.quote_mint@,
                tick_size: params.tick_size,
                lot_size: params.lot_size,
            },
        ),
        Err(e) => Err(e@),
    }
}

/// Reads the options of `init-market` and `create-market`: the program, and
/// what the market is to be.
pub fn read_market_args(args: &MarketArgs, context: &str, payer: &[u8; 32]) -> (r: Result<
    ([u8; 32], MarketParams),
    ClientError,
>)
    ensures
        market_request_of(r) == market_request(*args, context@, payer@),
{
    let program: [u8; 32] = match keys::parse_key(args.program.as_str(), context) {
        Ok(key) => key,
        Err(e) => return Err(e),
    };
    let authority: [u8; 32] = match keys::parse_key_or(
        keys::borrowed(&args.authority),
        "parse --authority",
        payer,
    ) {
        Ok(key) => key,
        Err(e) => return Err(e),
    };
    let base_mint: [u8; 32] = match keys::parse_pubkey_or_default(keys::borrowed(&args.base_mint)) {
        Ok(key) => key,
        Err(e) => return Err(e),
    };
    let quote_mint: [u8; 32] = match keys::parse_pubkey_or_default(
        keys::borrowed(&args.quote_mint),
    ) {
        Ok(key) => key,
        Err(e) => return Err(e),
    };
    Ok(
        (
            program,
            MarketParams {
                authority,
                base_mint,
                quote_mint,
                tick_size: args.tick_size,
                lot_size: args.lot_size,
            },
        ),
    )
}

/// Creates a blank account of the size of a market, owned by the System
/// program.
pub fn allocate_market_instruction(payer: &[u8; 32], market: &[u8; 32], rent_lamports: u64) -> (r:
    Instruction)
    ensures
        r@ == system::create_account_view(
            payer@,
            market@,
            rent_lamports as nat,
            Market::LEN as nat,
            address::SYSTEM_PROGRAM_ID@,
        ),
{
    system::create_account(
        payer,
        market,
        rent_lamports,
        Market::LEN as u64,
        &address::SYSTEM_PROGRAM_ID,
    )
}

/// `Initialize` for an account that the program owns.
pub open spec fn initialize_view(
    program: Seq<u8>,
    market: Seq<u8>,
    params: MarketParams,
) -> types::InstructionView {
    types::InstructionView {
        program_id: program,
        accounts: seq![types::writable(market, false)],
        data: seq![dispatch::TAG_INITIALIZE] + params.payload(),
    }
}

/// `CreateMarket` for the derived address `market`.
pub open spec fn create_market_view(
    program: Seq<u8>,
    payer: Seq<u8>,
    market: Seq<u8>,
    params: MarketParams,
) -> types::InstructionView {
    types::InstructionView {
        program_id: program,
        accounts: seq![
            types::writable(payer, true),
            types::writable(market, false),
            types::readonly(address::SYSTEM_PROGRAM_ID@, false),
        ],
        data: seq![dispatch::TAG_CREATE_MARKET] + params.payload(),
    }
}

fn tagged(tag: u8, payload: &[u8]) -> (r: Vec<u8>)
    ensures
        r@ == seq![tag] + payload@,
{
    let mut data: Vec<u8> = vec![tag];
    crate::bytes::push_bytes(&mut data, payload);
    data
}

/// The two instructions of one transaction that hand an account over to the
/// program and initialize it.
pub fn init_market_instructions(program: &[u8; 32], market: &[u8; 32], params: &MarketParams) -> (r: (
    Instruction,
    Instruction,
))
    ensures
        r.0@ == system::assign_view(market@, program@),
        r.1@ == initialize_view(program@, market@, *params),
{
    let accounts: Vec<AccountMeta> = vec![AccountMeta::new(*market, false)];
    assert(types::metas(accounts@) =~= seq![types::writable(market@, false)]);
    let data: Vec<u8> = tagged(dispatch::TAG_INITIALIZE, &params.encode());
    (system::assign(market, program), common::instruction(program, accounts, data))
}

/// The instruction that creates a market at its derived address.
pub fn create_market_instruction(
    program: &[u8; 32],
    payer: &[u8; 32],
    market: &[u8; 32],
    params: &MarketParams,
) -> (r: Instruction)
    ensures
        r@ == create_market_view(program@, payer@, market@, *params),
{
    let accounts: Vec<AccountMeta> = vec![
        AccountMeta::new(*payer, true),
        AccountMeta::new(*market, false),
        AccountMeta::new_readonly(address::SYSTEM_PROGRAM_ID, false),
    ];
    assert(types::metas(accounts@) =~= seq![
        types::writable(payer@, true),
        types::writable(market@, false),
        types::readonly(address::SYSTEM_PROGRAM_ID@, false),
    ]);
    let data: Vec<u8> = tagged(dispatch::TAG_CREATE_MARKET, &params.encode());
    common::instruction(program, accounts, data)
}

/// The address of the market of a pair of mints, and its bump.
pub fn market_address(program: &[u8; 32], base_mint: &[u8; 32], quote_mint: &[u8; 32]) -> (r: Option<
    ([u8; 32], u8),
>)
    ensures
        address::derived(r) == address::program_address(
            seq![address::MARKET_SEED@, base_mint@, quote_mint@],
            program@,
        ),
{
    address::derive_with_keys(&address::MARKET_SEED, base_mint, quote_mint, program)
}

/// A hexadecimal digit.
pub open spec fn hex_digit(d: nat) -> char {
    if d < 10 {
        (48 + d) as char
    } else {
        (87 + d) as char
    }
}

/// The two hexadecimal digits of a byte.
pub open spec fn hex_byte(b: u8) -> Seq<char> {
    seq![hex_digit((b / 16) as nat), hex_digit((b % 16) as nat)]
}

/// Bytes in hexadecimal, a space after each.
pub open spec fn hex_bytes(s: Seq<u8>) -> Seq<char>
    decreases s.len(),
{
    if s.len() == 0 {
        seq![]
    } else {
        hex_bytes(s.drop_last()) + hex_byte(s.last()) + " "@
    }
}

/// Bytes in hexadecimal, sixteen in a line.
pub open spec fn hex_lines(s: Seq<u8>) -> Seq<char>
    decreases s.len(),
{
    if s.len() == 0 {
        seq![]
    } else {
        let n = if s.len() < 16 {
            s.len() as int
        } else {
            16
        };
        "          "@ + hex_bytes(s.take(n)) + "\n"@ + hex_lines(s.skip(n))
    }
}

/// One field of a dump: offset and label, then its bytes, as far as the data
/// goes.
pub open spec fn region_text(data: Seq<u8>, at: int, len: int, label: Seq<char>) -> Seq<char> {
    let end = if at + len < data.len() {
        at + len
    } else {
        data.len() as int
    };
    "  0x"@ + hex_byte((at / 256) as u8) + hex_byte((at % 256) as u8) + "  "@ + label + "\n"@
        + hex_lines(data.subrange(at, end))
}

/// What the line on the bump of a market says.
pub open spec fn bump_label(derived: bool) -> Seq<char> {
    if derived {
        "bump               u8         expected: PDA bump"@
    } else {
        "bump               u8"@
    }
}

/// The data of a market account in hexadecimal, field by field.
pub open spec fn dump_text(data: Seq<u8>, derived: bool) -> Seq<char> {
    region_text(data, 0, 8, "discriminator      [u8; 8]    expected: MARKET\\0\\0"@)
        + region_text(data, 8, 1, "version            u8"@) + region_text(
        data,
        9,
        1,
        bump_label(derived),
    ) + region_text(data, 10, 6, "_pad0              [u8; 6]"@) + region_text(
        data,
        16,
        32,
        "authority          [u8; 32]"@,
    ) + region_text(data, 48, 32, "base_mint          [u8; 32]"@) + region_text(
        data,
        80,
        32,
        "quote_mint         [u8; 32]"@,
    ) + region_text(data, 112, 8, "tick_size          u64"@) + region_text(
        data,
        120,
        8,
        "lot_size           u64"@,
    ) + region_text(data, 128, 128, "_reserved          [u8; 128]"@)
}

fn push_hex(out: &mut String, b: u8)
    ensures
        final(out)@ == old(out)@ + hex_byte(b),
{
    let high: u8 = b / 16;
    let low: u8 = b % 16;
    out.push(
        if high < 10 {
            (48 + high) as char
        } else {
            (87 + high) as char
        },
    );
    out.push(
        if low < 10 {
            (48 + low) as char
        } else {
            (87 + low) as char
        },
    );
    assert(out@ =~= old(out)@ + hex_byte(b));
}

fn hex_of(s: &[u8], from: usize, to: usize) -> (r: String)
    requires
        from <= to <= s@.len(),
    ensures
        r@ == hex_bytes(s@.subrange(from as int, to as int)),
{
    let mut r: String = String::new();
    let mut i: usize = from;
    while i < to
        invariant
            from <= i <= to <= s@.len(),
            r@ == hex_bytes(s@.subrange(from as int, i as int)),
        decreases to - i,
    {
        assert(s@.subrange(from as int, i + 1).drop_last() =~= s@.subrange(from as int, i as int));
        push_hex(&mut r, s[i]);
        r.append(" ");
        i += 1;
    }
    r
}

fn region(data: &[u8], at: usize, len: usize, label: &str) -> (r: String)
    requires
        at <= data@.len(),
        at <= 0xffff,
        len <= 0xffff,
    ensures
        r@ == region_text(data@, at as int, len as int, label@),
{
    let end: usize = if at + len < data.len() {
        at + len
    } else {
        data.len()
    };
    let ghost all = data@.subrange(at as int, end as int);
    let mut lines: String = String::new();
    let mut i: usize = at;
    assert(all.skip(0) =~= all);
    assert(lines@ + hex_lines(all) =~= hex_lines(all));
    while i < end
        invariant
            at <= i <= end <= data@.len(),
            all == data@.subrange(at as int, end as int),
            lines@ + hex_lines(all.skip(i - at)) == hex_lines(all),
        decreases end - i,
    {
        let n: usize = if end - i < 16 {
            end - i
        } else {
            16
        };
        let ghost shown = lines@;
        let ghost rest = all.skip(i - at);
        let row: String = hex_of(data, i, i + n);
        lines.append("          ");
        lines.append(row.as_str());
        lines.append("\n");
        proof {
            assert(rest.take(n as int) =~= data@.subrange(i as int, i + n));
            assert(rest.skip(n as int) =~= all.skip(i + n - at));
            assert(lines@ + hex_lines(all.skip(i + n - at)) =~= shown + hex_lines(rest));
        }
        i += n;
    }
    assert(lines@ + hex_lines(all.skip(i - at)) =~= lines@);
    let mut r: String = "  0x".to_owned();
    push_hex(&mut r, (at / 256) as u8);
    push_hex(&mut r, (at % 256) as u8);
    r.append("  ");
    r.append(label);
    r.append("\n");
    r.append(lines.as_str());
    r
}

/// The data of a market account in hexadecimal, field by field. The data has
/// to reach the last field.
pub fn dump_market_bytes(data: &[u8], derived: bool) -> (r: String)
    requires
        data@.len() >= 128,
    ensures
        r@ == dump_text(data@, derived),
{
    let mut r: String = region(
        data,
        0,
        8,
        "discriminator      [u8; 8]    expected: MARKET\\0\\0",
    );
    r.append(region(data, 8, 1, "version            u8").as_str());
    let bump: &str = if derived {
        "bump               u8         expected: PDA bump"
    } else {
        "bump               u8"
    };
    r.append(region(data, 9, 1, bump).as_str());
    r.append(region(data, 10, 6, "_pad0              [u8; 6]").as_str());
    r.append(region(data, 16, 32, "authority          [u8; 32]").as_str());
    r.append(region(data, 48, 32, "base_mint          [u8; 32]").as_str());
    r.append(region(data, 80, 32, "quote_mint         [u8; 32]").as_str());
    r.append(region(data, 112, 8, "tick_size          u64").as_str());
    r.append(region(data, 120, 8, "lot_size           u64").as_str());
    r.append(region(data, 128, 128, "_reserved          [u8; 128]").as_str());
    r
}

/// What `allocate-market` prints before it sends anything. `sol` is the rent
/// in SOL.
pub open spec fn allocate_header_text(
    rpc: Seq<char>,
    payer: Seq<u8>,
    market: Seq<u8>,
    space: nat,
    rent_lamports: nat,
    sol: Seq<char>,
) -> Seq<char> {
    "rpc:            "@ + rpc + "\npayer:          "@ + address::key_text(payer)
        + "\nmarket pubkey:  "@ + address::key_text(market) + "\nspace:          "@
        + text::decimal(space) + " bytes\nrent lamports:  "@ + text::decimal(rent_lamports)
        + "  ("@ + sol + " SOL)\n\n"@
}

/// What `allocate-market` prints before it sends anything. `sol` is the rent
/// in SOL.
pub fn allocate_header(
    rpc: &str,
    payer: &[u8; 32],
    market: &[u8; 32],
    space: usize,
    rent_lamports: u64,
    sol: &str,
) -> (r: String)
    ensures
        r@ == allocate_header_text(
            rpc@,
            payer@,
            market@,
            space as nat,
            rent_lamports as nat,
            sol@,
        ),
{
    let mut r: String = "rpc:            ".to_owned();
    r.append(rpc);
    r.append("\npayer:          ");
    r.append(address::show_key(payer).as_str());
    r.append("\nmarket pubkey:  ");
    r.append(address::show_key(market).as_str());
    r.append("\nspace:          ");
    r.append(text::decimal_text(space as u128).as_str());
    r.append(" bytes\nrent lamports:  ");
    r.append(text::decimal_text(rent_lamports as u128).as_str());
    r.append("  (");
    r.append(sol);
    r.append(" SOL)\n\n");
    r
}

/// What `init-market` prints before it sends anything.
pub open spec fn init_header_text(
    rpc: Seq<char>,
    payer: Seq<u8>,
    market: Seq<u8>,
    program: Seq<u8>,
    authority: Seq<u8>,
    base_mint: Seq<u8>,
    quote_mint: Seq<u8>,
    tick_size: nat,
    lot_size: nat,
) -> Seq<char> {
    "rpc:            "@ + rpc + "\npayer:          "@ + address::key_text(payer)
        + "\nmarket:         "@ + address::key_text(market) + "\nprogram:        "@
        + address::key_text(program) + "\nauthority:      "@ + address::key_text(authority)
        + "\nbase_mint:      "@ + address::key_text(base_mint) + "\nquote_mint:     "@
        + address::key_text(quote_mint) + "\ntick_size:      "@ + text::decimal(tick_size)
        + "\nlot_size:       "@ + text::decimal(lot_size) + "\n\n"@
}

/// What `init-market` prints before it sends anything.
pub fn init_header(
    rpc: &str,
    payer: &[u8; 32],
    market: &[u8; 32],
    program: &[u8; 32],
    authority: &[u8; 32],
    base_mint: &[u8; 32],
    quote_mint: &[u8; 32],
    tick_size: u64,
    lot_size: u64,
) -> (r: String)
    ensures
        r@ == init_header_text(
            rpc@,
            payer@,
            market@,
            program@,
            authority@,
            base_mint@,
            quote_mint@,
            tick_size as nat,
            lot_size as nat,
        ),
{
    let mut r: String = "rpc:            ".to_owned();
    r.append(rpc);
    r.append("\npayer:          ");
    r.append(address::show_key(payer).as_str());
    r.append("\nmarket:         ");
    r.append(address::show_key(market).as_str());
    r.append("\nprogram:        ");
    r.append(address::show_key(program).as_str());
    r.append("\nauthority:      ");
    r.append(address::show_key(authority).as_str());
    r.append("\nbase_mint:      ");
    r.append(address::show_key(base_mint).as_str());
    r.append("\nquote_mint:     ");
    r.append(address::show_key(quote_mint).as_str());
    r.append("\ntick_size:      ");
    r.append(text::decimal_text(tick_size as u128).as_str());
    r.append("\nlot_size:       ");
    r.append(text::decimal_text(lot_size as u128).as_str());
    r.append("\n\n");
    r
}

/// What `create-market` prints before it sends anything.
pub open spec fn create_header_text(
    rpc: Seq<char>,
    payer: Seq<u8>,
    program: Seq<u8>,
    base_mint: Seq<u8>,
    quote_mint: Seq<u8>,
    market: Seq<u8>,
    bump: nat,
    authority: Seq<u8>,
    tick_size: nat,
    lot_size: nat,
) -> Seq<char> {
    "rpc:            "@ + rpc + "\npayer:          "@ + address::key_text(payer)
        + "\nprogram:        "@ + address::key_text(program) + "\nbase_mint:      "@
        + address::key_text(base_mint) + "\nquote_mint:     "@ + address::key_text(quote_mint)
        + "\nmarket PDA:     "@ + address::key_text(market) + "  (bump "@ + text::decimal(bump)
        + ")\nauthority:      "@ + address::key_text(authority) + "\ntick_size:      "@
        + text::decimal(tick_size) + "\nlot_size:       "@ + text::decimal(lot_size) + "\n\n"@
}

/// What `create-market` prints before it sends anything.
pub fn create_header(
    rpc: &str,
    payer: &[u8; 32],
    program: &[u8; 32],
    base_mint: &[u8; 32],
    quote_mint: &[u8; 32],
    market: &[u8; 32],
    bump: u8,
    authority: &[u8; 32],
    tick_size: u64,
    lot_size: u64,
) -> (r: String)
    ensures
        r@ == create_header_text(
            rpc@,
            payer@,
            program@,
            base_mint@,
            quote_mint@,
            market@,
            bump as nat,
            authority@,
            tick_size as nat,
            lot_size as nat,
        ),
{
    let mut r: String = "rpc:            ".to_owned();
    r.append(rpc);
    r.append("\npayer:          ");
    r.append(address::show_key(payer).as_str());
    r.append("\nprogram:        ");
    r.append(address::show_key(program).as_str());
    r.append("\nbase_mint:      ");
    r.append(address::show_key(base_mint).as_str());
    r.append("\nquote_mint:     ");
    r.append(address::show_key(quote_mint).as_str());
    r.append("\nmarket PDA:     ");
    r.append(address::show_key(market).as_str());
    r.append("  (bump ");
    r.append(text::decimal_text(bump as u128).as_str());
    r.append(")\nauthority:      ");
    r.append(address::show_key(authority).as_str());
    r.append("\ntick_size:      ");
    r.append(text::decimal_text(tick_size as u128).as_str());
    r.append("\nlot_size:       ");
    r.append(text::decimal_text(lot_size as u128).as_str());
    r.append("\n\n");
    r
}

/// What is known of an account besides its data.
pub open spec fn account_details_text(
    owner: Seq<u8>,
    lamports: nat,
    executable: bool,
    data_len: nat,
) -> Seq<char> {
    "account metadata:\n  owner:        "@ + address::key_text(owner) + "\n  lamports:     "@
        + text::decimal(lamports) + "\n  executable:   "@ + text::bool_word(executable)
        + "\n  data length:  "@ + text::decimal(data_len) + "\n\n"@
}

/// What is known of an account besides its data.
pub fn account_details(
    owner: &[u8; 32],
    lamports: u64,
    executable: bool,
    data_len: usize,
) -> (r: String)
    ensures
        r@ == account_details_text(owner@, lamports as nat, executable, data_len as nat),
{
    let mut r: String = "account metadata:\n  owner:        ".to_owned();
    r.append(address::show_key(owner).as_str());
    r.append("\n  lamports:     ");
    r.append(text::decimal_text(lamports as u128).as_str());
    r.append("\n  executable:   ");
    r.append(text::bool_text(executable).as_str());
    r.append("\n  data length:  ");
    r.append(text::decimal_text(data_len as u128).as_str());
    r.append("\n\n");
    r
}

/// As `account_details`, with the epoch at which rent is due.
pub open spec fn account_details_with_epoch_text(
    owner: Seq<u8>,
    lamports: nat,
    executable: bool,
    rent_epoch: nat,
    data_len: nat,
) -> Seq<char> {
    "account metadata:\n  owner:        "@ + address::key_text(owner) + "\n  lamports:     "@
        + text::decimal(lamports) + "\n  executable:   "@ + text::bool_word(executable)
        + "\n  rent_epoch:   "@ + text::decimal(rent_epoch) + "\n  data length:  "@
        + text::decimal(data_len) + "\n\n"@
}

/// As `account_details`, with the epoch at which rent is due.
pub fn account_details_with_epoch(
    owner: &[u8; 32],
    lamports: u64,
    executable: bool,
    rent_epoch: u64,
    data_len: usize,
) -> (r: String)
    ensures
        r@ == account_details_with_epoch_text(
            owner@,
            lamports as nat,
            executable,
            rent_epoch as nat,
            data_len as nat,
        ),
{
    let mut r: String = "account metadata:\n  owner:        ".to_owned();
    r.append(address::show_key(owner).as_str());
    r.append("\n  lamports:     ");
    r.append(text::decimal_text(lamports as u128).as_str());
    r.append("\n  executable:   ");
    r.append(text::bool_text(executable).as_str());
    r.append("\n  rent_epoch:   ");
    r.append(text::decimal_text(rent_epoch as u128).as_str());
    r.append("\n  data length:  ");
    r.append(text::decimal_text(data_len as u128).as_str());
    r.append("\n\n");
    r
}

/// The bump of a market, and the bump that the client derived, if it did.
pub open spec fn bump_text(bump: u8, derived: Option<u8>) -> Seq<char> {
    match derived {
        Some(d) => text::decimal(bump as nat) + "  (matches client-side derivation: "@
            + text::decimal(d as nat) + ")"@,
        None => text::decimal(bump as nat),
    }
}

/// A market, field by field. `derived` is the bump that the client derived.
pub open spec fn market_text(market: Market, derived: Option<u8>) -> Seq<char> {
    "\ndecoded Market view:\n  discriminator: ["@ + text::comma_list(market.discriminator@)
        + "]  (ASCII: "@ + text::quoted_text(text::utf8_or_placeholder(market.discriminator@))
        + ")\n  version:       "@ + text::decimal(market.version as nat)
        + "\n  bump:          "@ + bump_text(market.bump, derived) + "\n  authority:     "@
        + address::key_text(market.authority@) + "\n  base_mint:     "@ + address::key_text(
        market.base_mint@,
    ) + "\n  quote_mint:    "@ + address::key_text(market.quote_mint@) + "\n  tick_size:     "@
        + text::decimal(market.tick_size as nat) + "\n  lot_size:      "@ + text::decimal(
        market.lot_size as nat,
    ) + "\n"@
}

/// A market, field by field. `derived` is the bump that the client derived.
pub fn describe_market(market: &Market, derived: Option<u8>) -> (r: String)
    ensures
        r@ == market_text(*market, derived),
{
    let mut bump: String = text::decimal_text(market.bump as u128);
    if let Some(d) = derived {
        bump.append("  (matches client-side derivation: ");
        bump.append(text::decimal_text(d as u128).as_str());
        bump.append(")");
    }
    let mut r: String = "\ndecoded Market view:\n  discriminator: [".to_owned();
    r.append(text::comma_text(&market.discriminator).as_str());
    r.append("]  (ASCII: ");
    r.append(text::quoted(text::utf8_text(&market.discriminator).as_str()).as_str());
    r.append(")\n  version:       ");
    r.append(text::decimal_text(market.version as u128).as_str());
    r.append("\n  bump:          ");
    r.append(bump.as_str());
    r.append("\n  authority:     ");
    r.append(address::show_key(&market.authority).as_str());
    r.append("\n  base_mint:     ");
    r.append(address::show_key(&market.base_mint).as_str());
    r.append("\n  quote_mint:    ");
    r.append(address::show_key(&market.quote_mint).as_str());
    r.append("\n  tick_size:     ");
    r.append(text::decimal_text(market.tick_size as u128).as_str());
    r.append("\n  lot_size:      ");
    r.append(text::decimal_text(market.lot_size as u128).as_str());
    r.append("\n");
    r
}

} // verus!
