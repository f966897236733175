//! The commands for the flat order book.

use vstd::prelude::*;
use vstd::string::StringExecFns;

use crate::bytes;
use crate::client::common;
use crate::client::keys;
use crate::client::keys::ClientError;
use crate::client::tags;
use crate::program::address;
use crate::program::types;
use crate::program::types::{AccountMeta, Instruction};
use crate::state::{side, Order, OrderBook, ORDER_CAPACITY};
use crate::text;

verus! {

/// The options of `book` that say what to do.
#[derive(Debug, Clone)]
pub struct BookArgs {
    pub init: bool,
    pub place: bool,
    pub side: Option<String>,
    pub price: Option<u64>,
    pub size: Option<u64>,
    pub cancel: bool,
    pub order_id: Option<u64>,
}

/// The accounts of an instruction that one signer sends for one account.
pub open spec fn signer_and_account(signer: Seq<u8>, account: Seq<u8>) -> Seq<types::MetaView> {
    seq![types::readonly(signer, true), types::writable(account, false)]
}

/// The accounts of an instruction that creates an account of a market.
pub open spec fn creation_accounts(payer: Seq<u8>, market: Seq<u8>, account: Seq<u8>) -> Seq<
    types::MetaView,
> {
    seq![
        types::writable(payer, true),
        types::readonly(market, false),
        types::writable(account, false),
        types::readonly(address::SYSTEM_PROGRAM_ID@, false),
    ]
}

/// The accounts of an instruction that one signer sends for one account.
pub fn signer_and_account_metas(signer: &[u8; 32], account: &[u8; 32]) -> (r: Vec<AccountMeta>)
    ensures
        types::metas(r@) == signer_and_account(signer@, account@),
{
    let r: Vec<AccountMeta> = vec![
        AccountMeta::new_readonly(*signer, true),
        AccountMeta::new(*account, false),
    ];
    assert(types::metas(r@) =~= signer_and_account(signer@, account@));
    r
}

/// The accounts of an instruction that creates an account of a market.
pub fn creation_metas(payer: &[u8; 32], market: &[u8; 32], account: &[u8; 32]) -> (r: Vec<
    AccountMeta,
>)
    ensures
        types::metas(r@) == creation_accounts(payer@, market@, account@),
{
    let r: Vec<AccountMeta> = vec![
        AccountMeta::new(*payer, true),
        AccountMeta::new_readonly(*market, false),
        AccountMeta::new(*account, false),
        AccountMeta::new_readonly(address::SYSTEM_PROGRAM_ID, false),
    ];
    assert(types::metas(r@) =~= creation_accounts(payer@, market@, account@));
    r
}

/// The data of an order: tag, side, price and size.
pub open spec fn order_data(tag: u8, side: u8, price: nat, size: nat) -> Seq<u8> {
    seq![tag, side] + bytes::le_bytes(price, 8) + bytes::le_bytes(size, 8)
}

/// The data of an order: tag, side, price and size.
pub fn order_bytes(tag: u8, side: u8, price: u64, size: u64) -> (r: Vec<u8>)
    ensures
        r@ == order_data(tag, side, price as nat, size as nat),
{
    let mut data: Vec<u8> = vec![tag, side];
    bytes::push_u64(&mut data, price);
    bytes::push_u64(&mut data, size);
    data
}

/// The data of an instruction that carries one number.
pub open spec fn amount_data(tag: u8, amount: nat) -> Seq<u8> {
    seq![tag] + bytes::le_bytes(amount, 8)
}

/// The data of an instruction that carries one number.
pub fn amount_bytes(tag: u8, amount: u64) -> (r: Vec<u8>)
    ensures
        r@ == amount_data(tag, amount as nat),
{
    let mut data: Vec<u8> = vec![tag];
    bytes::push_u64(&mut data, amount);
    data
}

/// What `book` asks of the program.
pub open spec fn book_request(
    args: BookArgs,
    program: Seq<u8>,
    payer: Seq<u8>,
    market: Seq<u8>,
    book: Seq<u8>,
) -> keys::Request {
    if common::set_count(seq![args.init, args.place, args.cancel]) > 1 {
        Err(keys::usage("--init, --place, --cancel are mutually exclusive"@))
    } else if args.init {
        Ok(
            Some(
                types::InstructionView {
                    program_id: program,
                    accounts: creation_accounts(payer, market, book),
                    data: seq![tags::CREATE_ORDER_BOOK],
                },
            ),
        )
    } else if args.place {
        match (common::side_named(keys::opt_string(args.side)), args.price, args.size) {
            (None, _, _) => Err(common::bad_side("--side"@, keys::opt_string(args.side))),
            (_, None, _) => Err(keys::usage("--price required"@)),
            (_, _, None) => Err(keys::usage("--size required"@)),
            (Some(side), Some(price), Some(size)) => Ok(
                Some(
                    types::InstructionView {
                        program_id: program,
                        accounts: signer_and_account(payer, book),
                        data: order_data(tags::PLACE_ORDER, side, price as nat, size as nat),
                    },
                ),
            ),
        }
    } else if args.cancel {
        match args.order_id {
            None => Err(keys::usage("--order-id required"@)),
            Some(order_id) => Ok(
                Some(
                    types::InstructionView {
                        program_id: program,
                        accounts: signer_and_account(payer, book),
                        data: amount_data(tags::CANCEL_ORDER, order_id as nat),
                    },
                ),
            ),
        }
    } else {
        Ok(None)
    }
}

/// What `book` asks of the program; nothing if it only shows the book.
pub fn book_instruction(
    args: &BookArgs,
    program: &[u8; 32],
    payer: &[u8; 32],
    market: &[u8; 32],
    book: &[u8; 32],
) -> (r: Result<Option<Instruction>, ClientError>)
    ensures
        keys::request(r) == book_request(*args, program@, payer@, market@, book@),
{
    let flags: [bool; 3] = [args.init, args.place, args.cancel];
    assert(flags@ =~= seq![args.init, args.place, args.cancel]);
    if common::more_than_one(&flags) {
        return Err(keys::usage_error("--init, --place, --cancel are mutually exclusive"));
    }
    if args.init {
        let data: Vec<u8> = vec![tags::CREATE_ORDER_BOOK];
        assert(data@ =~= seq![tags::CREATE_ORDER_BOOK]);
        Ok(Some(common::instruction(program, creation_metas(payer, market, book), data)))
    } else if args.place {
        let side: u8 = match common::side_byte(keys::borrowed(&args.side)) {
            Some(side) => side,
            None => return Err(common::side_error("--side", keys::borrowed(&args.side))),
        };
        let price: u64 = match args.price {
            Some(price) => price,
            None => return Err(keys::usage_error("--price required")),
        };
        let size: u64 = match args.size {
            Some(size) => size,
            None => return Err(keys::usage_error("--size required")),
        };
        let data: Vec<u8> = order_bytes(tags::PLACE_ORDER, side, price, size);
        Ok(Some(common::instruction(program, signer_and_account_metas(payer, book), data)))
    } else if args.cancel {
        let order_id: u64 = match args.order_id {
            Some(order_id) => order_id,
            None => return Err(keys::usage_error("--order-id required")),
        };
        let data: Vec<u8> = amount_bytes(tags::CANCEL_ORDER, order_id);
        Ok(Some(common::instruction(program, signer_and_account_metas(payer, book), data)))
    } else {
        Ok(None)
    }
}

/// The address of the order book of a market, and its bump.
pub fn book_address(program: &[u8; 32], market: &[u8; 32]) -> (r: Option<([u8; 32], u8)>)
    ensures
        address::derived(r) == address::program_address(
            seq![address::BOOK_SEED@, market@],
            program@,
        ),
{
    address::derive_with_key(&address::BOOK_SEED, market, program)
}

/// A number below one hundred with two digits.
pub open spec fn two_digits(n: nat) -> Seq<char> {
    if n < 10 {
        "0"@ + text::decimal(n)
    } else {
        text::decimal(n)
    }
}

fn two_digit_text(n: usize) -> (r: String)
    ensures
        r@ == two_digits(n as nat),
{
    if n < 10 {
        let mut r: String = "0".to_owned();
        r.append(text::decimal_text(n as u128).as_str());
        r
    } else {
        text::decimal_text(n as u128)
    }
}

/// The side of an order, in words.
pub open spec fn side_word(side: u8) -> Seq<char> {
    if side == side::BID {
        "BID"@
    } else {
        "ASK"@
    }
}

/// The line on one order; none for a free slot.
pub open spec fn slot_text(index: nat, slot: Order) -> Seq<char> {
    if slot.size == 0 {
        seq![]
    } else {
        "    ["@ + two_digits(index) + "] "@ + side_word(slot.side) + " order_id="@ + text::decimal(
            slot.order_id as nat,
        ) + " price="@ + text::decimal(slot.price as nat) + " size="@ + text::decimal(
            slot.size as nat,
        ) + " owner="@ + address::key_text(slot.owner@) + "\n"@
    }
}

/// The lines on the first `n` slots.
pub open spec fn slots_text(slots: Seq<Order>, n: nat) -> Seq<char>
    decreases n,
{
    if n == 0 {
        seq![]
    } else {
        slots_text(slots, (n - 1) as nat) + slot_text((n - 1) as nat, slots[n - 1])
    }
}

/// No order rests in the book.
pub open spec fn no_orders(slots: Seq<Order>) -> bool {
    forall|i: int| 0 <= i < slots.len() ==> (#[trigger] slots[i]).size == 0
}

/// An order book, as it stands.
pub open spec fn book_text(book: OrderBook) -> Seq<char> {
    "  next_order_id: "@ + text::decimal(book.next_order_id as nat) + "\n  active_count:  "@
        + text::decimal(book.active_count as nat) + "\n  bump:          "@ + text::decimal(
        book.bump as nat,
    ) + "\n  market:        "@ + address::key_text(book.market@) + "\n  slots:\n"@ + (
    if no_orders(book.slots@) {
        "    (empty)\n"@
    } else {
        slots_text(book.slots@, ORDER_CAPACITY as nat)
    })
}

fn slot_line(index: usize, slot: &Order) -> (r: String)
    ensures
        r@ == slot_text(index as nat, *slot),
{
    if slot.size == 0 {
        return String::new();
    }
    let mut r: String = "    [".to_owned();
    r.append(two_digit_text(index).as_str());
    r.append("] ");
    if slot.side == side::BID {
        r.append("BID");
    } else {
        r.append("ASK");
    }
    r.append(" order_id=");
    r.append(text::decimal_text(slot.order_id as u128).as_str());
    r.append(" price=");
    r.append(text::decimal_text(slot.price as u128).as_str());
    r.append(" size=");
    r.append(text::decimal_text(slot.size as u128).as_str());
    r.append(" owner=");
    r.append(address::show_key(&slot.owner).as_str());
    r.append("\n");
    r
}

/// An order book, as it stands.
pub fn print_book(book: &OrderBook) -> (r: String)
    ensures
        r@ == book_text(*book),
{
    let mut lines: String = String::new();
    let mut empty: bool = true;
    let mut i: usize = 0;
    while i < ORDER_CAPACITY
        invariant
            i <= ORDER_CAPACITY,
            lines@ == slots_text(book.slots@, i as nat),
            empty == forall|j: int| 0 <= j < i ==> (#[trigger] book.slots@[j]).size == 0,
        decreases ORDER_CAPACITY - i,
    {
        let slot: &Order = &book.slots[i];
        if slot.size != 0 {
            empty = false;
        }
        lines.append(slot_line(i, slot).as_str());
        i += 1;
    }
    let mut r: String = "  next_order_id: ".to_owned();
    r.append(text::decimal_text(book.next_order_id as u128).as_str());
    r.append("\n  active_count:  ");
    r.append(text::decimal_text(book.active_count as u128).as_str());
    r.append("\n  bump:          ");
    r.append(text::decimal_text(book.bump as u128).as_str());
    r.append("\n  market:        ");
    r.append(address::show_key(&book.market).as_str());
    r.append("\n  slots:\n");
    if empty {
        r.append("    (empty)\n");
    } else {
        r.append(lines.as_str());
    }
    r
}

/// The side that `match-cli` takes, or the complaint about it.
pub open spec fn taker_side(side: Seq<char>) -> Result<u8, keys::ErrorView> {
    match common::side_named(Some(side)) {
        Some(b) => Ok(b),
        None => Err(
            keys::usage("--side must be 'bid' or 'ask', got "@ + text::quoted_text(side)),
        ),
    }
}

/// Reads the side that `match-cli` takes.
pub fn parse_taker_side(side: &str) -> (r: Result<u8, ClientError>)
    ensures
        match r {
            Ok(b) => taker_side(side@) == Ok::<u8, keys::ErrorView>(b),
            Err(e) => taker_side(side@) == Err::<u8, keys::ErrorView>(e@),
        },
{
    match common::side_byte(Some(side)) {
        Some(b) => Ok(b),
        None => {
            let mut message: String = "--side must be 'bid' or 'ask', got ".to_owned();
            message.append(text::quoted(side).as_str());
            Err(ClientError::Usage { message })
        },
    }
}

/// The data of a match: tag, side, price limit, size and how often to fill.
pub open spec fn match_data(tag: u8, side: u8, price: nat, size: nat, max_fills: u8) -> Seq<u8> {
    order_data(tag, side, price, size) + seq![max_fills]
}

/// The data of a match: tag, side, price limit, size and how often to fill.
pub fn match_bytes(tag: u8, side: u8, price: u64, size: u64, max_fills: u8) -> (r: Vec<u8>)
    ensures
        r@ == match_data(tag, side, price as nat, size as nat, max_fills),
{
    let mut data: Vec<u8> = order_bytes(tag, side, price, size);
    data.push(max_fills);
    assert(data@ =~= match_data(tag, side, price as nat, size as nat, max_fills));
    data
}

/// `Match` against the book.
pub open spec fn match_view(
    program: Seq<u8>,
    taker: Seq<u8>,
    book: Seq<u8>,
    side: u8,
    limit_price: nat,
    size: nat,
    max_fills: u8,
) -> types::InstructionView {
    types::InstructionView {
        program_id: program,
        accounts: signer_and_account(taker, book),
        data: match_data(tags::MATCH, side, limit_price, size, max_fills),
    }
}

/// The instruction that matches an order against the book.
pub fn match_instruction(
    program: &[u8; 32],
    taker: &[u8; 32],
    book: &[u8; 32],
    side: u8,
    limit_price: u64,
    size: u64,
    max_fills: u8,
) -> (r: Instruction)
    ensures
        r@ == match_view(
            program@,
            taker@,
            book@,
            side,
            limit_price as nat,
            size as nat,
            max_fills,
        ),
{
    let data: Vec<u8> = match_bytes(tags::MATCH, side, limit_price, size, max_fills);
    common::instruction(program, signer_and_account_metas(taker, book), data)
}

/// What `book` prints before it sends anything.
pub open spec fn book_header_text(
    rpc: Seq<char>,
    payer: Seq<u8>,
    program: Seq<u8>,
    market: Seq<u8>,
    book: Seq<u8>,
    bump: nat,
) -> Seq<char> {
    "rpc:        "@ + rpc + "\npayer/user: "@ + address::key_text(payer) + "\nprogram:    "@
        + address::key_text(program) + "\nmarket:     "@ + address::key_text(market) + "\nbook PDA:   "@
        + address::key_text(book) + "  (bump "@ + text::decimal(bump) + ")\n\n"@
}

/// What `book` prints before it sends anything.
pub fn book_header(
    rpc: &str,
    payer: &[u8; 32],
    program: &[u8; 32],
    market: &[u8; 32],
    book: &[u8; 32],
    bump: u8,
) -> (r: String)
    ensures
        r@ == book_header_text(rpc@, payer@, program@, market@, book@, bump as nat),
{
    let mut r: String = "rpc:        ".to_owned();
    r.append(rpc);
    r.append("\npayer/user: ");
    r.append(address::show_key(payer).as_str());
    r.append("\nprogram:    ");
    r.append(address::show_key(program).as_str());
    r.append("\nmarket:     ");
    r.append(address::show_key(market).as_str());
    r.append("\nbook PDA:   ");
    r.append(address::show_key(book).as_str());
    r.append("  (bump ");
    r.append(text::decimal_text(bump as u128).as_str());
    r.append(")\n\n");
    r
}

/// What `match-cli` prints before it sends anything. `limit` is the limit on
/// compute units, in words.
pub open spec fn match_header_text(
    rpc: Seq<char>,
    taker: Seq<u8>,
    program: Seq<u8>,
    market: Seq<u8>,
    book: Seq<u8>,
    side: Seq<char>,
    side_byte: nat,
    limit_price: nat,
    size: nat,
    max_fills: nat,
    limit: Seq<char>,
) -> Seq<char> {
    "rpc:         "@ + rpc + "\ntaker:       "@ + address::key_text(taker) + "\nprogram:     "@
        + address::key_text(program) + "\nmarket:      "@ + address::key_text(market)
        + "\nbook PDA:    "@ + address::key_text(book) + "\nside:        "@ + side + " ("@
        + text::decimal(side_byte) + ")\nlimit_price: "@ + text::decimal(limit_price)
        + "\nsize:        "@ + text::decimal(size) + "\nmax_fills:   "@ + text::decimal(max_fills)
        + "\ncu_limit:    "@ + limit + "\n\n"@
}

/// What `match-cli` prints before it sends anything. `limit` is the limit on
/// compute units, in words.
pub fn match_header(
    rpc: &str,
    taker: &[u8; 32],
    program: &[u8; 32],
    market: &[u8; 32],
    book: &[u8; 32],
    side: &str,
    side_byte: u8,
    limit_price: u64,
    size: u64,
    max_fills: u8,
    limit: &str,
) -> (r: String)
    ensures
        r@ == match_header_text(
            rpc@,
            taker@,
            program@,
            market@,
            book@,
            side@,
            side_byte as nat,
            limit_price as nat,
            size as nat,
            max_fills as nat,
            limit@,
        ),
{
    let mut r: String = "rpc:         ".to_owned();
    r.append(rpc);
    r.append("\ntaker:       ");
    r.append(address::show_key(taker).as_str());
    r.append("\nprogram:     ");
    r.append(address::show_key(program).as_str());
    r.append("\nmarket:      ");
    r.append(address::show_key(market).as_str());
    r.append("\nbook PDA:    ");
    r.append(address::show_key(book).as_str());
    r.append("\nside:        ");
    r.append(side);
    r.append(" (");
    r.append(text::decimal_text(side_byte as u128).as_str());
    r.append(")\nlimit_price: ");
    r.append(text::decimal_text(limit_price as u128).as_str());
    r.append("\nsize:        ");
    r.append(text::decimal_text(size as u128).as_str());
    r.append("\nmax_fills:   ");
    r.append(text::decimal_text(max_fills as u128).as_str());
    r.append("\ncu_limit:    ");
    r.append(limit);
    r.append("\n\n");
    r
}

/// The book after a match.
pub open spec fn describe_match_text(active_count: nat, next_order_id: nat) -> Seq<char> {
    "\nbook post-state: active_count="@ + text::decimal(active_count) + ", next_order_id="@
        + text::decimal(next_order_id) + "\n"@
}

/// The book after a match.
pub fn describe_match(active_count: u32, next_order_id: u64) -> (r: String)
    ensures
        r@ == describe_match_text(active_count as nat, next_order_id as nat),
{
    let mut r: String = "\nbook post-state: active_count=".to_owned();
    r.append(text::decimal_text(active_count as u128).as_str());
    r.append(", next_order_id=");
    r.append(text::decimal_text(next_order_id as u128).as_str());
    r.append("\n");
    r
}

} // verus!
