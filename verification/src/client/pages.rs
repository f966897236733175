//! What the pages of the commands show: under which label stands which value, and
//! that nothing else does.

use vstd::prelude::*;

use crate::client::bench;
use crate::client::book;
use crate::client::builder;
use crate::client::common;
use crate::client::funding;
use crate::client::market;
use crate::client::oracle;
use crate::client::position;
use crate::client::position::PositionMetrics;
use crate::client::slab;
use crate::client::stats;
use crate::client::trading_vault;
use crate::client::vault;
use crate::program::address;
use crate::program::types;
use crate::state::{
    BuilderProfile, FundingState, InsuranceFund, Market, Oracle, Order, OrderBook, Position, Slab,
    TradingVault, VaultShare,
};
use crate::reading;
use crate::text;

verus! {


/// The line on an order shows its slot with two digits, its side in words, and its
/// id, price, size and owner. There is none for a free slot.
pub proof fn order_is_shown(
    index: nat,
    order: Order,
)
    requires
        order.size > 0,
    ensures
        reading::made_of(
            book::slot_text(index, order),
            seq![
                "    ["@,
                book::two_digits(index),
                "] "@,
                book::side_word(order.side),
                " order_id="@,
                text::decimal(order.order_id as nat),
                " price="@,
                text::decimal(order.price as nat),
                " size="@,
                text::decimal(order.size as nat),
                " owner="@,
                address::key_text(order.owner@),
                "\n"@,
            ],
        ),
        reading::reads(book::slot_text(index, order), "    ["@, book::two_digits(index), "] "@),
        reading::reads(book::slot_text(index, order), "] "@, book::side_word(order.side), " order_id="@),
        reading::reads(book::slot_text(index, order), " order_id="@, text::decimal(order.order_id as nat), " price="@),
        reading::reads(book::slot_text(index, order), " price="@, text::decimal(order.price as nat), " size="@),
        reading::reads(book::slot_text(index, order), " size="@, text::decimal(order.size as nat), " owner="@),
        reading::reads(book::slot_text(index, order), " owner="@, address::key_text(order.owner@), "\n"@),
{
    let pieces = seq![
        "    ["@,
        book::two_digits(index),
        "] "@,
        book::side_word(order.side),
        " order_id="@,
        text::decimal(order.order_id as nat),
        " price="@,
        text::decimal(order.price as nat),
        " size="@,
        text::decimal(order.size as nat),
        " owner="@,
        address::key_text(order.owner@),
        "\n"@,
    ];
    reveal_with_fuel(reading::joined, 14);
    assert(seq![] + pieces[0] =~= pieces[0]);
    assert(book::slot_text(index, order) == reading::joined(pieces, 13));
    reading::lemma_pieces(pieces);
    assert(reading::reads(reading::joined(pieces, 13), pieces[0], pieces[1], pieces[2]));
    assert(reading::reads(reading::joined(pieces, 13), pieces[2], pieces[3], pieces[4]));
    assert(reading::reads(reading::joined(pieces, 13), pieces[4], pieces[5], pieces[6]));
    assert(reading::reads(reading::joined(pieces, 13), pieces[6], pieces[7], pieces[8]));
    assert(reading::reads(reading::joined(pieces, 13), pieces[8], pieces[9], pieces[10]));
    assert(reading::reads(reading::joined(pieces, 13), pieces[10], pieces[11], pieces[12]));
}

/// A bid is called one, and so is an ask; a slot below ten gets a leading zero.
pub proof fn order_words_are_right(side: u8, index: nat)
    ensures
        side == 0 ==> book::side_word(side) == "BID"@,
        side == 1 ==> book::side_word(side) == "ASK"@,
        index < 10 ==> book::two_digits(index) == "0"@ + text::decimal(index),
        index >= 10 ==> book::two_digits(index) == text::decimal(index),
{
}

/// The book lists every resting order, in the order of the slots, and nothing
/// of a free slot.
pub proof fn every_order_is_listed(slots: Seq<Order>, n: nat, i: int)
    requires
        0 <= i < n <= slots.len(),
    ensures
        slots[i].size > 0 ==> exists|before: Seq<char>, after: Seq<char>| #[trigger]
            (before + book::slot_text(i as nat, slots[i]) + after) == book::slots_text(slots, n),
        slots[i].size == 0 ==> book::slot_text(i as nat, slots[i]).len() == 0,
        book::slots_text(slots, n).len() >= book::slots_text(slots, i as nat).len(),
        book::slots_text(slots, n).take(book::slots_text(slots, i as nat).len() as int)
            == book::slots_text(slots, i as nat),
    decreases n,
{
    let line = book::slot_text(i as nat, slots[i]);
    let page = book::slots_text(slots, n);
    let last = book::slot_text((n - 1) as nat, slots[n - 1]);
    let earlier = book::slots_text(slots, (n - 1) as nat);
    assert(page == earlier + last);
    if i == n - 1 {
        assert(earlier + line + seq![] =~= page);
        assert(page.take(earlier.len() as int) =~= earlier);
    } else {
        every_order_is_listed(slots, (n - 1) as nat, i);
        let first = book::slots_text(slots, i as nat);
        assert(page.take(first.len() as int) =~= earlier.take(first.len() as int));
        if slots[i].size > 0 {
            let (before, after) = choose|before: Seq<char>, after: Seq<char>| #[trigger]
                (before + line + after) == earlier;
            assert(before + line + (after + last) =~= page);
        }
    }
}

/// The book ends with its orders, or says that there are none.
pub proof fn book_ends_with_its_orders(b: OrderBook)
    ensures
        ({
            let page = book::book_text(b);
            let list = if forall|i: int| 0 <= i < 32 ==> (#[trigger] b.slots@[i]).size == 0 {
                "    (empty)\n"@
            } else {
                book::slots_text(b.slots@, 32)
            };
            &&& page.len() >= list.len()
            &&& page.skip(page.len() - list.len()) == list
        }),
{
    let page = book::book_text(b);
    let list = if book::no_orders(b.slots@) {
        "    (empty)\n"@
    } else {
        book::slots_text(b.slots@, 32)
    };
    assert(page.skip(page.len() - list.len()) =~= list);
}

/// The page of an order book shows each field under its label, then its orders.
pub proof fn book_is_shown(
    b: OrderBook,
)
    ensures
        reading::made_of(
            book::book_text(b),
            seq![
                "  next_order_id: "@,
                text::decimal(b.next_order_id as nat),
                "\n  active_count:  "@,
                text::decimal(b.active_count as nat),
                "\n  bump:          "@,
                text::decimal(b.bump as nat),
                "\n  market:        "@,
                address::key_text(b.market@),
                "\n  slots:\n"@,
                if forall|i: int| 0 <= i < 32 ==> (#[trigger] b.slots@[i]).size == 0 { "    (empty)\n"@ } else { book::slots_text(b.slots@, 32) },
            ],
        ),
        reading::reads(book::book_text(b), "  next_order_id: "@, text::decimal(b.next_order_id as nat), "\n  active_count:  "@),
        reading::reads(book::book_text(b), "\n  active_count:  "@, text::decimal(b.active_count as nat), "\n  bump:          "@),
        reading::reads(book::book_text(b), "\n  bump:          "@, text::decimal(b.bump as nat), "\n  market:        "@),
        reading::reads(book::book_text(b), "\n  market:        "@, address::key_text(b.market@), "\n  slots:\n"@),
{
    let pieces = seq![
        "  next_order_id: "@,
        text::decimal(b.next_order_id as nat),
        "\n  active_count:  "@,
        text::decimal(b.active_count as nat),
        "\n  bump:          "@,
        text::decimal(b.bump as nat),
        "\n  market:        "@,
        address::key_text(b.market@),
        "\n  slots:\n"@,
        if forall|i: int| 0 <= i < 32 ==> (#[trigger] b.slots@[i]).size == 0 { "    (empty)\n"@ } else { book::slots_text(b.slots@, 32) },
    ];
    reveal_with_fuel(reading::joined, 11);
    assert(seq![] + pieces[0] =~= pieces[0]);
    assert(book::book_text(b) == reading::joined(pieces, 10));
    reading::lemma_pieces(pieces);
    assert(reading::reads(reading::joined(pieces, 10), pieces[0], pieces[1], pieces[2]));
    assert(reading::reads(reading::joined(pieces, 10), pieces[2], pieces[3], pieces[4]));
    assert(reading::reads(reading::joined(pieces, 10), pieces[4], pieces[5], pieces[6]));
    assert(reading::reads(reading::joined(pieces, 10), pieces[6], pieces[7], pieces[8]));
}

/// The slots of a book are listed in order, each once; a free one has no line.
pub proof fn slots_are_listed_in_order(slots: Seq<Order>, n: nat)
    requires
        n <= slots.len(),
    ensures
        book::slots_text(slots, n) == reading::joined(
            Seq::new(slots.len(), |i: int| book::slot_text(i as nat, slots[i])),
            n,
        ),
        forall|i: int|
            0 <= i < slots.len() && (#[trigger] slots[i]).size == 0 ==> book::slot_text(
                i as nat,
                slots[i],
            ) == Seq::<char>::empty(),
    decreases n,
{
    if n > 0 {
        slots_are_listed_in_order(slots, (n - 1) as nat);
        let lines = Seq::new(slots.len(), |i: int| book::slot_text(i as nat, slots[i]));
        assert(book::slots_text(slots, n) =~= reading::joined(lines, n));
    }
}

/// The line after a match shows how many orders rest and which id comes next.
pub proof fn match_result_is_shown(
    active: nat,
    next_id: nat,
)
    ensures
        reading::made_of(
            book::describe_match_text(active, next_id),
            seq![
                "\nbook post-state: active_count="@,
                text::decimal(active),
                ", next_order_id="@,
                text::decimal(next_id),
                "\n"@,
            ],
        ),
        reading::reads(book::describe_match_text(active, next_id), "\nbook post-state: active_count="@, text::decimal(active), ", next_order_id="@),
        reading::reads(book::describe_match_text(active, next_id), ", next_order_id="@, text::decimal(next_id), "\n"@),
{
    let pieces = seq![
        "\nbook post-state: active_count="@,
        text::decimal(active),
        ", next_order_id="@,
        text::decimal(next_id),
        "\n"@,
    ];
    reveal_with_fuel(reading::joined, 6);
    assert(seq![] + pieces[0] =~= pieces[0]);
    assert(book::describe_match_text(active, next_id) == reading::joined(pieces, 5));
    reading::lemma_pieces(pieces);
    assert(reading::reads(reading::joined(pieces, 5), pieces[0], pieces[1], pieces[2]));
    assert(reading::reads(reading::joined(pieces, 5), pieces[2], pieces[3], pieces[4]));
}

/// The header of `book` shows each value under its label.
pub proof fn book_header_is_shown(
    rpc: Seq<char>,
    payer: Seq<u8>,
    program: Seq<u8>,
    market: Seq<u8>,
    book_key: Seq<u8>,
    bump: nat,
)
    ensures
        reading::made_of(
            book::book_header_text(rpc, payer, program, market, book_key, bump),
            seq![
                "rpc:        "@,
                rpc,
                "\npayer/user: "@,
                address::key_text(payer),
                "\nprogram:    "@,
                address::key_text(program),
                "\nmarket:     "@,
                address::key_text(market),
                "\nbook PDA:   "@,
                address::key_text(book_key),
                "  (bump "@,
                text::decimal(bump),
                ")\n\n"@,
            ],
        ),
        reading::reads(book::book_header_text(rpc, payer, program, market, book_key, bump), "rpc:        "@, rpc, "\npayer/user: "@),
        reading::reads(book::book_header_text(rpc, payer, program, market, book_key, bump), "\npayer/user: "@, address::key_text(payer), "\nprogram:    "@),
        reading::reads(book::book_header_text(rpc, payer, program, market, book_key, bump), "\nprogram:    "@, address::key_text(program), "\nmarket:     "@),
        reading::reads(book::book_header_text(rpc, payer, program, market, book_key, bump), "\nmarket:     "@, address::key_text(market), "\nbook PDA:   "@),
        reading::reads(book::book_header_text(rpc, payer, program, market, book_key, bump), "\nbook PDA:   "@, address::key_text(book_key), "  (bump "@),
        reading::reads(book::book_header_text(rpc, payer, program, market, book_key, bump), "  (bump "@, text::decimal(bump), ")\n\n"@),
{
    let pieces = seq![
        "rpc:        "@,
        rpc,
        "\npayer/user: "@,
        address::key_text(payer),
        "\nprogram:    "@,
        address::key_text(program),
        "\nmarket:     "@,
        address::key_text(market),
        "\nbook PDA:   "@,
        address::key_text(book_key),
        "  (bump "@,
        text::decimal(bump),
        ")\n\n"@,
    ];
    reveal_with_fuel(reading::joined, 14);
    assert(seq![] + pieces[0] =~= pieces[0]);
    assert(book::book_header_text(rpc, payer, program, market, book_key, bump) == reading::joined(pieces, 13));
    reading::lemma_pieces(pieces);
    assert(reading::reads(reading::joined(pieces, 13), pieces[0], pieces[1], pieces[2]));
    assert(reading::reads(reading::joined(pieces, 13), pieces[2], pieces[3], pieces[4]));
    assert(reading::reads(reading::joined(pieces, 13), pieces[4], pieces[5], pieces[6]));
    assert(reading::reads(reading::joined(pieces, 13), pieces[6], pieces[7], pieces[8]));
    assert(reading::reads(reading::joined(pieces, 13), pieces[8], pieces[9], pieces[10]));
    assert(reading::reads(reading::joined(pieces, 13), pieces[10], pieces[11], pieces[12]));
}

/// The header of `match-cli` shows each value under its label.
pub proof fn match_header_is_shown(
    rpc: Seq<char>,
    taker: Seq<u8>,
    program: Seq<u8>,
    market: Seq<u8>,
    book_key: Seq<u8>,
    side: Seq<char>,
    side_byte: nat,
    limit_price: nat,
    size: nat,
    max_fills: nat,
    limit: Seq<char>,
)
    ensures
        reading::made_of(
            book::match_header_text(rpc, taker, program, market, book_key, side, side_byte, limit_price, size, max_fills, limit),
            seq![
                "rpc:         "@,
                rpc,
                "\ntaker:       "@,
                address::key_text(taker),
                "\nprogram:     "@,
                address::key_text(program),
                "\nmarket:      "@,
                address::key_text(market),
                "\nbook PDA:    "@,
                address::key_text(book_key),
                "\nside:        "@,
                side,
                " ("@,
                text::decimal(side_byte),
                ")\nlimit_price: "@,
                text::decimal(limit_price),
                "\nsize:        "@,
                text::decimal(size),
                "\nmax_fills:   "@,
                text::decimal(max_fills),
                "\ncu_limit:    "@,
                limit,
                "\n\n"@,
            ],
        ),
        reading::reads(book::match_header_text(rpc, taker, program, market, book_key, side, side_byte, limit_price, size, max_fills, limit), "rpc:         "@, rpc, "\ntaker:       "@),
        reading::reads(book::match_header_text(rpc, taker, program, market, book_key, side, side_byte, limit_price, size, max_fills, limit), "\ntaker:       "@, address::key_text(taker), "\nprogram:     "@),
        reading::reads(book::match_header_text(rpc, taker, program, market, book_key, side, side_byte, limit_price, size, max_fills, limit), "\nprogram:     "@, address::key_text(program), "\nmarket:      "@),
        reading::reads(book::match_header_text(rpc, taker, program, market, book_key, side, side_byte, limit_price, size, max_fills, limit), "\nmarket:      "@, address::key_text(market), "\nbook PDA:    "@),
        reading::reads(book::match_header_text(rpc, taker, program, market, book_key, side, side_byte, limit_price, size, max_fills, limit), "\nbook PDA:    "@, address::key_text(book_key), "\nside:        "@),
        reading::reads(book::match_header_text(rpc, taker, program, market, book_key, side, side_byte, limit_price, size, max_fills, limit), "\nside:        "@, side, " ("@),
        reading::reads(book::match_header_text(rpc, taker, program, market, book_key, side, side_byte, limit_price, size, max_fills, limit), " ("@, text::decimal(side_byte), ")\nlimit_price: "@),
        reading::reads(book::match_header_text(rpc, taker, program, market, book_key, side, side_byte, limit_price, size, max_fills, limit), ")\nlimit_price: "@, text::decimal(limit_price), "\nsize:        "@),
        reading::reads(book::match_header_text(rpc, taker, program, market, book_key, side, side_byte, limit_price, size, max_fills, limit), "\nsize:        "@, text::decimal(size), "\nmax_fills:   "@),
        reading::reads(book::match_header_text(rpc, taker, program, market, book_key, side, side_byte, limit_price, size, max_fills, limit), "\nmax_fills:   "@, text::decimal(max_fills), "\ncu_limit:    "@),
        reading::reads(book::match_header_text(rpc, taker, program, market, book_key, side, side_byte, limit_price, size, max_fills, limit), "\ncu_limit:    "@, limit, "\n\n"@),
{
    let pieces = seq![
        "rpc:         "@,
        rpc,
        "\ntaker:       "@,
        address::key_text(taker),
        "\nprogram:     "@,
        address::key_text(program),
        "\nmarket:      "@,
        address::key_text(market),
        "\nbook PDA:    "@,
        address::key_text(book_key),
        "\nside:        "@,
        side,
        " ("@,
        text::decimal(side_byte),
        ")\nlimit_price: "@,
        text::decimal(limit_price),
        "\nsize:        "@,
        text::decimal(size),
        "\nmax_fills:   "@,
        text::decimal(max_fills),
        "\ncu_limit:    "@,
        limit,
        "\n\n"@,
    ];
    reveal_with_fuel(reading::joined, 24);
    assert(seq![] + pieces[0] =~= pieces[0]);
    assert(book::match_header_text(rpc, taker, program, market, book_key, side, side_byte, limit_price, size, max_fills, limit) == reading::joined(pieces, 23));
    reading::lemma_pieces(pieces);
    assert(reading::reads(reading::joined(pieces, 23), pieces[0], pieces[1], pieces[2]));
    assert(reading::reads(reading::joined(pieces, 23), pieces[2], pieces[3], pieces[4]));
    assert(reading::reads(reading::joined(pieces, 23), pieces[4], pieces[5], pieces[6]));
    assert(reading::reads(reading::joined(pieces, 23), pieces[6], pieces[7], pieces[8]));
    assert(reading::reads(reading::joined(pieces, 23), pieces[8], pieces[9], pieces[10]));
    assert(reading::reads(reading::joined(pieces, 23), pieces[10], pieces[11], pieces[12]));
    assert(reading::reads(reading::joined(pieces, 23), pieces[12], pieces[13], pieces[14]));
    assert(reading::reads(reading::joined(pieces, 23), pieces[14], pieces[15], pieces[16]));
    assert(reading::reads(reading::joined(pieces, 23), pieces[16], pieces[17], pieces[18]));
    assert(reading::reads(reading::joined(pieces, 23), pieces[18], pieces[19], pieces[20]));
    assert(reading::reads(reading::joined(pieces, 23), pieces[20], pieces[21], pieces[22]));
}

/// The page of an oracle shows its price with its sign, its confidence and exponent,
/// and how many slots ago it was published, none if that slot is not over yet.
pub proof fn oracle_is_shown(
    o: Oracle,
    current_slot: u64,
)
    ensures
        reading::made_of(
            oracle::oracle_text(o, current_slot),
            seq![
                "  market:        "@,
                address::key_text(o.market@),
                "\n  price:         "@,
                text::decimal_int(o.price as int),
                "\n  conf:          "@,
                text::decimal(o.conf as nat),
                "\n  expo:          "@,
                text::decimal_int(o.expo as int),
                "\n  publish_slot:  "@,
                text::decimal(o.publish_slot as nat),
                "\n  bump:          "@,
                text::decimal(o.bump as nat),
                "\n  discriminator: ["@,
                text::comma_list(o.discriminator@),
                "]\n\n  current_slot:  "@,
                text::decimal(current_slot as nat),
                "\n  age (slots):   "@,
                text::decimal(if current_slot >= o.publish_slot { (current_slot - o.publish_slot) as nat } else { 0 }),
                "\n"@,
            ],
        ),
        reading::reads(oracle::oracle_text(o, current_slot), "  market:        "@, address::key_text(o.market@), "\n  price:         "@),
        reading::reads(oracle::oracle_text(o, current_slot), "\n  price:         "@, text::decimal_int(o.price as int), "\n  conf:          "@),
        reading::reads(oracle::oracle_text(o, current_slot), "\n  conf:          "@, text::decimal(o.conf as nat), "\n  expo:          "@),
        reading::reads(oracle::oracle_text(o, current_slot), "\n  expo:          "@, text::decimal_int(o.expo as int), "\n  publish_slot:  "@),
        reading::reads(oracle::oracle_text(o, current_slot), "\n  publish_slot:  "@, text::decimal(o.publish_slot as nat), "\n  bump:          "@),
        reading::reads(oracle::oracle_text(o, current_slot), "\n  bump:          "@, text::decimal(o.bump as nat), "\n  discriminator: ["@),
        reading::reads(oracle::oracle_text(o, current_slot), "\n  discriminator: ["@, text::comma_list(o.discriminator@), "]\n\n  current_slot:  "@),
        reading::reads(oracle::oracle_text(o, current_slot), "]\n\n  current_slot:  "@, text::decimal(current_slot as nat), "\n  age (slots):   "@),
        reading::reads(oracle::oracle_text(o, current_slot), "\n  age (slots):   "@, text::decimal(if current_slot >= o.publish_slot { (current_slot - o.publish_slot) as nat } else { 0 }), "\n"@),
{
    let pieces = seq![
        "  market:        "@,
        address::key_text(o.market@),
        "\n  price:         "@,
        text::decimal_int(o.price as int),
        "\n  conf:          "@,
        text::decimal(o.conf as nat),
        "\n  expo:          "@,
        text::decimal_int(o.expo as int),
        "\n  publish_slot:  "@,
        text::decimal(o.publish_slot as nat),
        "\n  bump:          "@,
        text::decimal(o.bump as nat),
        "\n  discriminator: ["@,
        text::comma_list(o.discriminator@),
        "]\n\n  current_slot:  "@,
        text::decimal(current_slot as nat),
        "\n  age (slots):   "@,
        text::decimal(if current_slot >= o.publish_slot { (current_slot - o.publish_slot) as nat } else { 0 }),
        "\n"@,
    ];
    reveal_with_fuel(reading::joined, 20);
    assert(seq![] + pieces[0] =~= pieces[0]);
    assert(oracle::oracle_text(o, current_slot) == reading::joined(pieces, 19));
    reading::lemma_pieces(pieces);
    assert(reading::reads(reading::joined(pieces, 19), pieces[0], pieces[1], pieces[2]));
    assert(reading::reads(reading::joined(pieces, 19), pieces[2], pieces[3], pieces[4]));
    assert(reading::reads(reading::joined(pieces, 19), pieces[4], pieces[5], pieces[6]));
    assert(reading::reads(reading::joined(pieces, 19), pieces[6], pieces[7], pieces[8]));
    assert(reading::reads(reading::joined(pieces, 19), pieces[8], pieces[9], pieces[10]));
    assert(reading::reads(reading::joined(pieces, 19), pieces[10], pieces[11], pieces[12]));
    assert(reading::reads(reading::joined(pieces, 19), pieces[12], pieces[13], pieces[14]));
    assert(reading::reads(reading::joined(pieces, 19), pieces[14], pieces[15], pieces[16]));
    assert(reading::reads(reading::joined(pieces, 19), pieces[16], pieces[17], pieces[18]));
}

/// The header of `oracle` shows each value under its label.
pub proof fn oracle_header_is_shown(
    rpc: Seq<char>,
    payer: Seq<u8>,
    program: Seq<u8>,
    market: Seq<u8>,
    oracle_key: Seq<u8>,
    bump: nat,
)
    ensures
        reading::made_of(
            oracle::oracle_header_text(rpc, payer, program, market, oracle_key, bump),
            seq![
                "rpc:        "@,
                rpc,
                "\npayer:      "@,
                address::key_text(payer),
                "\nprogram:    "@,
                address::key_text(program),
                "\nmarket:     "@,
                address::key_text(market),
                "\noracle PDA: "@,
                address::key_text(oracle_key),
                "  (bump "@,
                text::decimal(bump),
                ")\n\n"@,
            ],
        ),
        reading::reads(oracle::oracle_header_text(rpc, payer, program, market, oracle_key, bump), "rpc:        "@, rpc, "\npayer:      "@),
        reading::reads(oracle::oracle_header_text(rpc, payer, program, market, oracle_key, bump), "\npayer:      "@, address::key_text(payer), "\nprogram:    "@),
        reading::reads(oracle::oracle_header_text(rpc, payer, program, market, oracle_key, bump), "\nprogram:    "@, address::key_text(program), "\nmarket:     "@),
        reading::reads(oracle::oracle_header_text(rpc, payer, program, market, oracle_key, bump), "\nmarket:     "@, address::key_text(market), "\noracle PDA: "@),
        reading::reads(oracle::oracle_header_text(rpc, payer, program, market, oracle_key, bump), "\noracle PDA: "@, address::key_text(oracle_key), "  (bump "@),
        reading::reads(oracle::oracle_header_text(rpc, payer, program, market, oracle_key, bump), "  (bump "@, text::decimal(bump), ")\n\n"@),
{
    let pieces = seq![
        "rpc:        "@,
        rpc,
        "\npayer:      "@,
        address::key_text(payer),
        "\nprogram:    "@,
        address::key_text(program),
        "\nmarket:     "@,
        address::key_text(market),
        "\noracle PDA: "@,
        address::key_text(oracle_key),
        "  (bump "@,
        text::decimal(bump),
        ")\n\n"@,
    ];
    reveal_with_fuel(reading::joined, 14);
    assert(seq![] + pieces[0] =~= pieces[0]);
    assert(oracle::oracle_header_text(rpc, payer, program, market, oracle_key, bump) == reading::joined(pieces, 13));
    reading::lemma_pieces(pieces);
    assert(reading::reads(reading::joined(pieces, 13), pieces[0], pieces[1], pieces[2]));
    assert(reading::reads(reading::joined(pieces, 13), pieces[2], pieces[3], pieces[4]));
    assert(reading::reads(reading::joined(pieces, 13), pieces[4], pieces[5], pieces[6]));
    assert(reading::reads(reading::joined(pieces, 13), pieces[6], pieces[7], pieces[8]));
    assert(reading::reads(reading::joined(pieces, 13), pieces[8], pieces[9], pieces[10]));
    assert(reading::reads(reading::joined(pieces, 13), pieces[10], pieces[11], pieces[12]));
}

/// The page of a funding accumulator shows index and rate with their signs, and how
/// many slots ago it was updated, none if that slot is not over yet.
pub proof fn funding_is_shown(
    f: FundingState,
    current_slot: u64,
)
    ensures
        reading::made_of(
            funding::funding_text(f, current_slot),
            seq![
                "  market:                     "@,
                address::key_text(f.market@),
                "\n  cumulative_funding_index:   "@,
                text::decimal_int(f.cumulative_funding_index as int),
                " (scaled 1e9)\n  current_rate_per_sec:       "@,
                text::decimal_int(f.current_rate_per_sec as int),
                " (scaled 1e9)\n  window_seconds:             "@,
                text::decimal(f.window_seconds as nat),
                "\n  last_update_ts:             "@,
                text::decimal_int(f.last_update_ts as int),
                "\n  last_update_slot:           "@,
                text::decimal(f.last_update_slot as nat),
                "\n\n  current_slot:               "@,
                text::decimal(current_slot as nat),
                "\n  slots_since_update:         "@,
                text::decimal(if current_slot >= f.last_update_slot { (current_slot - f.last_update_slot) as nat } else { 0 }),
                "\n"@,
            ],
        ),
        reading::reads(funding::funding_text(f, current_slot), "  market:                     "@, address::key_text(f.market@), "\n  cumulative_funding_index:   "@),
        reading::reads(funding::funding_text(f, current_slot), "\n  cumulative_funding_index:   "@, text::decimal_int(f.cumulative_funding_index as int), " (scaled 1e9)\n  current_rate_per_sec:       "@),
        reading::reads(funding::funding_text(f, current_slot), " (scaled 1e9)\n  current_rate_per_sec:       "@, text::decimal_int(f.current_rate_per_sec as int), " (scaled 1e9)\n  window_seconds:             "@),
        reading::reads(funding::funding_text(f, current_slot), " (scaled 1e9)\n  window_seconds:             "@, text::decimal(f.window_seconds as nat), "\n  last_update_ts:             "@),
        reading::reads(funding::funding_text(f, current_slot), "\n  last_update_ts:             "@, text::decimal_int(f.last_update_ts as int), "\n  last_update_slot:           "@),
        reading::reads(funding::funding_text(f, current_slot), "\n  last_update_slot:           "@, text::decimal(f.last_update_slot as nat), "\n\n  current_slot:               "@),
        reading::reads(funding::funding_text(f, current_slot), "\n\n  current_slot:               "@, text::decimal(current_slot as nat), "\n  slots_since_update:         "@),
        reading::reads(funding::funding_text(f, current_slot), "\n  slots_since_update:         "@, text::decimal(if current_slot >= f.last_update_slot { (current_slot - f.last_update_slot) as nat } else { 0 }), "\n"@),
{
    let pieces = seq![
        "  market:                     "@,
        address::key_text(f.market@),
        "\n  cumulative_funding_index:   "@,
        text::decimal_int(f.cumulative_funding_index as int),
        " (scaled 1e9)\n  current_rate_per_sec:       "@,
        text::decimal_int(f.current_rate_per_sec as int),
        " (scaled 1e9)\n  window_seconds:             "@,
        text::decimal(f.window_seconds as nat),
        "\n  last_update_ts:             "@,
        text::decimal_int(f.last_update_ts as int),
        "\n  last_update_slot:           "@,
        text::decimal(f.last_update_slot as nat),
        "\n\n  current_slot:               "@,
        text::decimal(current_slot as nat),
        "\n  slots_since_update:         "@,
        text::decimal(if current_slot >= f.last_update_slot { (current_slot - f.last_update_slot) as nat } else { 0 }),
        "\n"@,
    ];
    reveal_with_fuel(reading::joined, 18);
    assert(seq![] + pieces[0] =~= pieces[0]);
    assert(funding::funding_text(f, current_slot) == reading::joined(pieces, 17));
    reading::lemma_pieces(pieces);
    assert(reading::reads(reading::joined(pieces, 17), pieces[0], pieces[1], pieces[2]));
    assert(reading::reads(reading::joined(pieces, 17), pieces[2], pieces[3], pieces[4]));
    assert(reading::reads(reading::joined(pieces, 17), pieces[4], pieces[5], pieces[6]));
    assert(reading::reads(reading::joined(pieces, 17), pieces[6], pieces[7], pieces[8]));
    assert(reading::reads(reading::joined(pieces, 17), pieces[8], pieces[9], pieces[10]));
    assert(reading::reads(reading::joined(pieces, 17), pieces[10], pieces[11], pieces[12]));
    assert(reading::reads(reading::joined(pieces, 17), pieces[12], pieces[13], pieces[14]));
    assert(reading::reads(reading::joined(pieces, 17), pieces[14], pieces[15], pieces[16]));
}

/// The header of `funding` shows each value under its label.
pub proof fn funding_header_is_shown(
    rpc: Seq<char>,
    payer: Seq<u8>,
    program: Seq<u8>,
    market: Seq<u8>,
    funding_key: Seq<u8>,
    bump: nat,
)
    ensures
        reading::made_of(
            funding::funding_header_text(rpc, payer, program, market, funding_key, bump),
            seq![
                "rpc:         "@,
                rpc,
                "\npayer:       "@,
                address::key_text(payer),
                "\nprogram:     "@,
                address::key_text(program),
                "\nmarket:      "@,
                address::key_text(market),
                "\nfunding PDA: "@,
                address::key_text(funding_key),
                "  (bump "@,
                text::decimal(bump),
                ")\n\n"@,
            ],
        ),
        reading::reads(funding::funding_header_text(rpc, payer, program, market, funding_key, bump), "rpc:         "@, rpc, "\npayer:       "@),
        reading::reads(funding::funding_header_text(rpc, payer, program, market, funding_key, bump), "\npayer:       "@, address::key_text(payer), "\nprogram:     "@),
        reading::reads(funding::funding_header_text(rpc, payer, program, market, funding_key, bump), "\nprogram:     "@, address::key_text(program), "\nmarket:      "@),
        reading::reads(funding::funding_header_text(rpc, payer, program, market, funding_key, bump), "\nmarket:      "@, address::key_text(market), "\nfunding PDA: "@),
        reading::reads(funding::funding_header_text(rpc, payer, program, market, funding_key, bump), "\nfunding PDA: "@, address::key_text(funding_key), "  (bump "@),
        reading::reads(funding::funding_header_text(rpc, payer, program, market, funding_key, bump), "  (bump "@, text::decimal(bump), ")\n\n"@),
{
    let pieces = seq![
        "rpc:         "@,
        rpc,
        "\npayer:       "@,
        address::key_text(payer),
        "\nprogram:     "@,
        address::key_text(program),
        "\nmarket:      "@,
        address::key_text(market),
        "\nfunding PDA: "@,
        address::key_text(funding_key),
        "  (bump "@,
        text::decimal(bump),
        ")\n\n"@,
    ];
    reveal_with_fuel(reading::joined, 14);
    assert(seq![] + pieces[0] =~= pieces[0]);
    assert(funding::funding_header_text(rpc, payer, program, market, funding_key, bump) == reading::joined(pieces, 13));
    reading::lemma_pieces(pieces);
    assert(reading::reads(reading::joined(pieces, 13), pieces[0], pieces[1], pieces[2]));
    assert(reading::reads(reading::joined(pieces, 13), pieces[2], pieces[3], pieces[4]));
    assert(reading::reads(reading::joined(pieces, 13), pieces[4], pieces[5], pieces[6]));
    assert(reading::reads(reading::joined(pieces, 13), pieces[6], pieces[7], pieces[8]));
    assert(reading::reads(reading::joined(pieces, 13), pieces[8], pieces[9], pieces[10]));
    assert(reading::reads(reading::joined(pieces, 13), pieces[10], pieces[11], pieces[12]));
}

/// The header of `position` shows each value under its label.
pub proof fn position_header_is_shown(
    rpc: Seq<char>,
    payer: Seq<u8>,
    program: Seq<u8>,
    market: Seq<u8>,
    user: Seq<u8>,
    position_key: Seq<u8>,
    bump: nat,
    oracle_key: Seq<u8>,
    funding_key: Seq<u8>,
)
    ensures
        reading::made_of(
            position::position_header_text(rpc, payer, program, market, user, position_key, bump, oracle_key, funding_key),
            seq![
                "rpc:           "@,
                rpc,
                "\npayer:         "@,
                address::key_text(payer),
                "\nprogram:       "@,
                address::key_text(program),
                "\nmarket:        "@,
                address::key_text(market),
                "\nposition user: "@,
                address::key_text(user),
                "\nposition PDA:  "@,
                address::key_text(position_key),
                "  (bump "@,
                text::decimal(bump),
                ")\noracle PDA:    "@,
                address::key_text(oracle_key),
                "\nfunding PDA:   "@,
                address::key_text(funding_key),
                "\n"@,
            ],
        ),
        reading::reads(position::position_header_text(rpc, payer, program, market, user, position_key, bump, oracle_key, funding_key), "rpc:           "@, rpc, "\npayer:         "@),
        reading::reads(position::position_header_text(rpc, payer, program, market, user, position_key, bump, oracle_key, funding_key), "\npayer:         "@, address::key_text(payer), "\nprogram:       "@),
        reading::reads(position::position_header_text(rpc, payer, program, market, user, position_key, bump, oracle_key, funding_key), "\nprogram:       "@, address::key_text(program), "\nmarket:        "@),
        reading::reads(position::position_header_text(rpc, payer, program, market, user, position_key, bump, oracle_key, funding_key), "\nmarket:        "@, address::key_text(market), "\nposition user: "@),
        reading::reads(position::position_header_text(rpc, payer, program, market, user, position_key, bump, oracle_key, funding_key), "\nposition user: "@, address::key_text(user), "\nposition PDA:  "@),
        reading::reads(position::position_header_text(rpc, payer, program, market, user, position_key, bump, oracle_key, funding_key), "\nposition PDA:  "@, address::key_text(position_key), "  (bump "@),
        reading::reads(position::position_header_text(rpc, payer, program, market, user, position_key, bump, oracle_key, funding_key), "  (bump "@, text::decimal(bump), ")\noracle PDA:    "@),
        reading::reads(position::position_header_text(rpc, payer, program, market, user, position_key, bump, oracle_key, funding_key), ")\noracle PDA:    "@, address::key_text(oracle_key), "\nfunding PDA:   "@),
        reading::reads(position::position_header_text(rpc, payer, program, market, user, position_key, bump, oracle_key, funding_key), "\nfunding PDA:   "@, address::key_text(funding_key), "\n"@),
{
    let pieces = seq![
        "rpc:           "@,
        rpc,
        "\npayer:         "@,
        address::key_text(payer),
        "\nprogram:       "@,
        address::key_text(program),
        "\nmarket:        "@,
        address::key_text(market),
        "\nposition user: "@,
        address::key_text(user),
        "\nposition PDA:  "@,
        address::key_text(position_key),
        "  (bump "@,
        text::decimal(bump),
        ")\noracle PDA:    "@,
        address::key_text(oracle_key),
        "\nfunding PDA:   "@,
        address::key_text(funding_key),
        "\n"@,
    ];
    reveal_with_fuel(reading::joined, 20);
    assert(seq![] + pieces[0] =~= pieces[0]);
    assert(position::position_header_text(rpc, payer, program, market, user, position_key, bump, oracle_key, funding_key) == reading::joined(pieces, 19));
    reading::lemma_pieces(pieces);
    assert(reading::reads(reading::joined(pieces, 19), pieces[0], pieces[1], pieces[2]));
    assert(reading::reads(reading::joined(pieces, 19), pieces[2], pieces[3], pieces[4]));
    assert(reading::reads(reading::joined(pieces, 19), pieces[4], pieces[5], pieces[6]));
    assert(reading::reads(reading::joined(pieces, 19), pieces[6], pieces[7], pieces[8]));
    assert(reading::reads(reading::joined(pieces, 19), pieces[8], pieces[9], pieces[10]));
    assert(reading::reads(reading::joined(pieces, 19), pieces[10], pieces[11], pieces[12]));
    assert(reading::reads(reading::joined(pieces, 19), pieces[12], pieces[13], pieces[14]));
    assert(reading::reads(reading::joined(pieces, 19), pieces[14], pieces[15], pieces[16]));
    assert(reading::reads(reading::joined(pieces, 19), pieces[16], pieces[17], pieces[18]));
}

/// The header of `position` shows each value under its label.
pub proof fn position_mint_header_is_shown(
    mint: Seq<u8>,
    vault_key: Seq<u8>,
    vault_auth: Seq<u8>,
    fund: Seq<u8>,
    fund_token: Seq<u8>,
)
    ensures
        reading::made_of(
            position::position_mint_header_text(mint, vault_key, vault_auth, fund, fund_token),
            seq![
                "mint:          "@,
                address::key_text(mint),
                "\nvault PDA:     "@,
                address::key_text(vault_key),
                "\nvault_auth:    "@,
                address::key_text(vault_auth),
                "\nfund PDA:      "@,
                address::key_text(fund),
                "\nfund_token:    "@,
                address::key_text(fund_token),
                "\n\n"@,
            ],
        ),
        reading::reads(position::position_mint_header_text(mint, vault_key, vault_auth, fund, fund_token), "mint:          "@, address::key_text(mint), "\nvault PDA:     "@),
        reading::reads(position::position_mint_header_text(mint, vault_key, vault_auth, fund, fund_token), "\nvault PDA:     "@, address::key_text(vault_key), "\nvault_auth:    "@),
        reading::reads(position::position_mint_header_text(mint, vault_key, vault_auth, fund, fund_token), "\nvault_auth:    "@, address::key_text(vault_auth), "\nfund PDA:      "@),
        reading::reads(position::position_mint_header_text(mint, vault_key, vault_auth, fund, fund_token), "\nfund PDA:      "@, address::key_text(fund), "\nfund_token:    "@),
        reading::reads(position::position_mint_header_text(mint, vault_key, vault_auth, fund, fund_token), "\nfund_token:    "@, address::key_text(fund_token), "\n\n"@),
{
    let pieces = seq![
        "mint:          "@,
        address::key_text(mint),
        "\nvault PDA:     "@,
        address::key_text(vault_key),
        "\nvault_auth:    "@,
        address::key_text(vault_auth),
        "\nfund PDA:      "@,
        address::key_text(fund),
        "\nfund_token:    "@,
        address::key_text(fund_token),
        "\n\n"@,
    ];
    reveal_with_fuel(reading::joined, 12);
    assert(seq![] + pieces[0] =~= pieces[0]);
    assert(position::position_mint_header_text(mint, vault_key, vault_auth, fund, fund_token) == reading::joined(pieces, 11));
    reading::lemma_pieces(pieces);
    assert(reading::reads(reading::joined(pieces, 11), pieces[0], pieces[1], pieces[2]));
    assert(reading::reads(reading::joined(pieces, 11), pieces[2], pieces[3], pieces[4]));
    assert(reading::reads(reading::joined(pieces, 11), pieces[4], pieces[5], pieces[6]));
    assert(reading::reads(reading::joined(pieces, 11), pieces[6], pieces[7], pieces[8]));
    assert(reading::reads(reading::joined(pieces, 11), pieces[8], pieces[9], pieces[10]));
}

/// The page of a position shows each field under its label, the size with its sign.
pub proof fn position_is_shown(
    p: Position,
)
    ensures
        reading::made_of(
            position::position_text(p),
            seq![
                "  user:                   "@,
                address::key_text(p.user@),
                "\n  market:                 "@,
                address::key_text(p.market@),
                "\n  size:                   "@,
                text::decimal_int(p.size as int),
                "\n  entry_price:            "@,
                text::decimal(p.entry_price as nat),
                "\n  collateral:             "@,
                text::decimal(p.collateral as nat),
                "\n  funding_snapshot_index: "@,
                text::decimal_int(p.funding_snapshot_index as int),
                "\n"@,
            ],
        ),
        reading::reads(position::position_text(p), "  user:                   "@, address::key_text(p.user@), "\n  market:                 "@),
        reading::reads(position::position_text(p), "\n  market:                 "@, address::key_text(p.market@), "\n  size:                   "@),
        reading::reads(position::position_text(p), "\n  size:                   "@, text::decimal_int(p.size as int), "\n  entry_price:            "@),
        reading::reads(position::position_text(p), "\n  entry_price:            "@, text::decimal(p.entry_price as nat), "\n  collateral:             "@),
        reading::reads(position::position_text(p), "\n  collateral:             "@, text::decimal(p.collateral as nat), "\n  funding_snapshot_index: "@),
        reading::reads(position::position_text(p), "\n  funding_snapshot_index: "@, text::decimal_int(p.funding_snapshot_index as int), "\n"@),
{
    let pieces = seq![
        "  user:                   "@,
        address::key_text(p.user@),
        "\n  market:                 "@,
        address::key_text(p.market@),
        "\n  size:                   "@,
        text::decimal_int(p.size as int),
        "\n  entry_price:            "@,
        text::decimal(p.entry_price as nat),
        "\n  collateral:             "@,
        text::decimal(p.collateral as nat),
        "\n  funding_snapshot_index: "@,
        text::decimal_int(p.funding_snapshot_index as int),
        "\n"@,
    ];
    reveal_with_fuel(reading::joined, 14);
    assert(seq![] + pieces[0] =~= pieces[0]);
    assert(position::position_text(p) == reading::joined(pieces, 13));
    reading::lemma_pieces(pieces);
    assert(reading::reads(reading::joined(pieces, 13), pieces[0], pieces[1], pieces[2]));
    assert(reading::reads(reading::joined(pieces, 13), pieces[2], pieces[3], pieces[4]));
    assert(reading::reads(reading::joined(pieces, 13), pieces[4], pieces[5], pieces[6]));
    assert(reading::reads(reading::joined(pieces, 13), pieces[6], pieces[7], pieces[8]));
    assert(reading::reads(reading::joined(pieces, 13), pieces[8], pieces[9], pieces[10]));
    assert(reading::reads(reading::joined(pieces, 13), pieces[10], pieces[11], pieces[12]));
}

/// The numbers that decide on a position are shown under their labels, and the
/// verdict is `YES` exactly if it can be liquidated.
pub proof fn metrics_are_shown(
    m: PositionMetrics,
    mark: i64,
)
    ensures
        reading::made_of(
            position::metrics_text(m, mark),
            seq![
                "\n  mark:                   "@,
                text::decimal_int(mark as int),
                "\n  notional:               "@,
                text::decimal(m.notional as nat),
                "\n  price_pnl:              "@,
                text::decimal_int(m.price_pnl as int),
                " (funding pnl skipped here)\n  equity (ex-funding):    "@,
                text::decimal_int(m.equity as int),
                "\n  maintenance margin:     "@,
                text::decimal(m.maintenance as nat),
                "\n  liquidatable:           "@,
                if m.liquidatable { "YES"@ } else { "no"@ },
                "\n  liquidation penalty:    "@,
                text::decimal(m.penalty as nat),
                "\n"@,
            ],
        ),
        reading::reads(position::metrics_text(m, mark), "\n  mark:                   "@, text::decimal_int(mark as int), "\n  notional:               "@),
        reading::reads(position::metrics_text(m, mark), "\n  notional:               "@, text::decimal(m.notional as nat), "\n  price_pnl:              "@),
        reading::reads(position::metrics_text(m, mark), "\n  price_pnl:              "@, text::decimal_int(m.price_pnl as int), " (funding pnl skipped here)\n  equity (ex-funding):    "@),
        reading::reads(position::metrics_text(m, mark), " (funding pnl skipped here)\n  equity (ex-funding):    "@, text::decimal_int(m.equity as int), "\n  maintenance margin:     "@),
        reading::reads(position::metrics_text(m, mark), "\n  maintenance margin:     "@, text::decimal(m.maintenance as nat), "\n  liquidatable:           "@),
        reading::reads(position::metrics_text(m, mark), "\n  liquidatable:           "@, if m.liquidatable { "YES"@ } else { "no"@ }, "\n  liquidation penalty:    "@),
        reading::reads(position::metrics_text(m, mark), "\n  liquidation penalty:    "@, text::decimal(m.penalty as nat), "\n"@),
{
    let pieces = seq![
        "\n  mark:                   "@,
        text::decimal_int(mark as int),
        "\n  notional:               "@,
        text::decimal(m.notional as nat),
        "\n  price_pnl:              "@,
        text::decimal_int(m.price_pnl as int),
        " (funding pnl skipped here)\n  equity (ex-funding):    "@,
        text::decimal_int(m.equity as int),
        "\n  maintenance margin:     "@,
        text::decimal(m.maintenance as nat),
        "\n  liquidatable:           "@,
        if m.liquidatable { "YES"@ } else { "no"@ },
        "\n  liquidation penalty:    "@,
        text::decimal(m.penalty as nat),
        "\n"@,
    ];
    reveal_with_fuel(reading::joined, 16);
    assert(seq![] + pieces[0] =~= pieces[0]);
    assert(position::metrics_text(m, mark) == reading::joined(pieces, 15));
    reading::lemma_pieces(pieces);
    assert(reading::reads(reading::joined(pieces, 15), pieces[0], pieces[1], pieces[2]));
    assert(reading::reads(reading::joined(pieces, 15), pieces[2], pieces[3], pieces[4]));
    assert(reading::reads(reading::joined(pieces, 15), pieces[4], pieces[5], pieces[6]));
    assert(reading::reads(reading::joined(pieces, 15), pieces[6], pieces[7], pieces[8]));
    assert(reading::reads(reading::joined(pieces, 15), pieces[8], pieces[9], pieces[10]));
    assert(reading::reads(reading::joined(pieces, 15), pieces[10], pieces[11], pieces[12]));
    assert(reading::reads(reading::joined(pieces, 15), pieces[12], pieces[13], pieces[14]));
}

/// The page of an insurance fund shows each field under its label.
pub proof fn fund_is_shown(
    f: InsuranceFund,
)
    ensures
        reading::made_of(
            position::fund_text(f),
            seq![
                "  market:                 "@,
                address::key_text(f.market@),
                "\n  mint:                   "@,
                address::key_text(f.mint@),
                "\n  balance:                "@,
                text::decimal(f.balance as nat),
                "\n  total_deposits:         "@,
                text::decimal(f.total_deposits as nat),
                "\n  total_drawdowns:        "@,
                text::decimal(f.total_drawdowns as nat),
                "\n"@,
            ],
        ),
        reading::reads(position::fund_text(f), "  market:                 "@, address::key_text(f.market@), "\n  mint:                   "@),
        reading::reads(position::fund_text(f), "\n  mint:                   "@, address::key_text(f.mint@), "\n  balance:                "@),
        reading::reads(position::fund_text(f), "\n  balance:                "@, text::decimal(f.balance as nat), "\n  total_deposits:         "@),
        reading::reads(position::fund_text(f), "\n  total_deposits:         "@, text::decimal(f.total_deposits as nat), "\n  total_drawdowns:        "@),
        reading::reads(position::fund_text(f), "\n  total_drawdowns:        "@, text::decimal(f.total_drawdowns as nat), "\n"@),
{
    let pieces = seq![
        "  market:                 "@,
        address::key_text(f.market@),
        "\n  mint:                   "@,
        address::key_text(f.mint@),
        "\n  balance:                "@,
        text::decimal(f.balance as nat),
        "\n  total_deposits:         "@,
        text::decimal(f.total_deposits as nat),
        "\n  total_drawdowns:        "@,
        text::decimal(f.total_drawdowns as nat),
        "\n"@,
    ];
    reveal_with_fuel(reading::joined, 12);
    assert(seq![] + pieces[0] =~= pieces[0]);
    assert(position::fund_text(f) == reading::joined(pieces, 11));
    reading::lemma_pieces(pieces);
    assert(reading::reads(reading::joined(pieces, 11), pieces[0], pieces[1], pieces[2]));
    assert(reading::reads(reading::joined(pieces, 11), pieces[2], pieces[3], pieces[4]));
    assert(reading::reads(reading::joined(pieces, 11), pieces[4], pieces[5], pieces[6]));
    assert(reading::reads(reading::joined(pieces, 11), pieces[6], pieces[7], pieces[8]));
    assert(reading::reads(reading::joined(pieces, 11), pieces[8], pieces[9], pieces[10]));
}

/// The line above an insurance fund names it.
pub proof fn fund_header_is_shown(
    fund: Seq<u8>,
)
    ensures
        reading::made_of(
            position::fund_header_text(fund),
            seq![
                "\ninsurance fund ("@,
                address::key_text(fund),
                "):\n"@,
            ],
        ),
        reading::reads(position::fund_header_text(fund), "\ninsurance fund ("@, address::key_text(fund), "):\n"@),
{
    let pieces = seq![
        "\ninsurance fund ("@,
        address::key_text(fund),
        "):\n"@,
    ];
    reveal_with_fuel(reading::joined, 4);
    assert(seq![] + pieces[0] =~= pieces[0]);
    assert(position::fund_header_text(fund) == reading::joined(pieces, 3));
    reading::lemma_pieces(pieces);
    assert(reading::reads(reading::joined(pieces, 3), pieces[0], pieces[1], pieces[2]));
}

/// The page of a trading vault shows each field under its label.
pub proof fn trading_vault_is_shown(
    v: TradingVault,
)
    ensures
        reading::made_of(
            trading_vault::vault_text(v),
            seq![
                "  market:         "@,
                address::key_text(v.market@),
                "\n  manager:        "@,
                address::key_text(v.manager@),
                "\n  mint:           "@,
                address::key_text(v.mint@),
                "\n  total_shares:   "@,
                text::decimal(v.total_shares as nat),
                "\n  total_assets:   "@,
                text::decimal(v.total_assets as nat),
                "\n"@,
                trading_vault::nav_text(trading_vault::nav(v.total_assets as nat, v.total_shares as nat)),
            ],
        ),
        reading::reads(trading_vault::vault_text(v), "  market:         "@, address::key_text(v.market@), "\n  manager:        "@),
        reading::reads(trading_vault::vault_text(v), "\n  manager:        "@, address::key_text(v.manager@), "\n  mint:           "@),
        reading::reads(trading_vault::vault_text(v), "\n  mint:           "@, address::key_text(v.mint@), "\n  total_shares:   "@),
        reading::reads(trading_vault::vault_text(v), "\n  total_shares:   "@, text::decimal(v.total_shares as nat), "\n  total_assets:   "@),
        reading::reads(trading_vault::vault_text(v), "\n  total_assets:   "@, text::decimal(v.total_assets as nat), "\n"@),
{
    let pieces = seq![
        "  market:         "@,
        address::key_text(v.market@),
        "\n  manager:        "@,
        address::key_text(v.manager@),
        "\n  mint:           "@,
        address::key_text(v.mint@),
        "\n  total_shares:   "@,
        text::decimal(v.total_shares as nat),
        "\n  total_assets:   "@,
        text::decimal(v.total_assets as nat),
        "\n"@,
        trading_vault::nav_text(trading_vault::nav(v.total_assets as nat, v.total_shares as nat)),
    ];
    reveal_with_fuel(reading::joined, 13);
    assert(seq![] + pieces[0] =~= pieces[0]);
    assert(trading_vault::vault_text(v) == reading::joined(pieces, 12));
    reading::lemma_pieces(pieces);
    assert(reading::reads(reading::joined(pieces, 12), pieces[0], pieces[1], pieces[2]));
    assert(reading::reads(reading::joined(pieces, 12), pieces[2], pieces[3], pieces[4]));
    assert(reading::reads(reading::joined(pieces, 12), pieces[4], pieces[5], pieces[6]));
    assert(reading::reads(reading::joined(pieces, 12), pieces[6], pieces[7], pieces[8]));
    assert(reading::reads(reading::joined(pieces, 12), pieces[8], pieces[9], pieces[10]));
}

/// The page of a share shows each field under its label.
pub proof fn share_is_shown(
    v: VaultShare,
)
    ensures
        reading::made_of(
            trading_vault::share_text(v),
            seq![
                "  owner:        "@,
                address::key_text(v.owner@),
                "\n  shares:       "@,
                text::decimal(v.shares as nat),
                "\n  cost_basis:   "@,
                text::decimal(v.cost_basis as nat),
                "\n"@,
            ],
        ),
        reading::reads(trading_vault::share_text(v), "  owner:        "@, address::key_text(v.owner@), "\n  shares:       "@),
        reading::reads(trading_vault::share_text(v), "\n  shares:       "@, text::decimal(v.shares as nat), "\n  cost_basis:   "@),
        reading::reads(trading_vault::share_text(v), "\n  cost_basis:   "@, text::decimal(v.cost_basis as nat), "\n"@),
{
    let pieces = seq![
        "  owner:        "@,
        address::key_text(v.owner@),
        "\n  shares:       "@,
        text::decimal(v.shares as nat),
        "\n  cost_basis:   "@,
        text::decimal(v.cost_basis as nat),
        "\n"@,
    ];
    reveal_with_fuel(reading::joined, 8);
    assert(seq![] + pieces[0] =~= pieces[0]);
    assert(trading_vault::share_text(v) == reading::joined(pieces, 7));
    reading::lemma_pieces(pieces);
    assert(reading::reads(reading::joined(pieces, 7), pieces[0], pieces[1], pieces[2]));
    assert(reading::reads(reading::joined(pieces, 7), pieces[2], pieces[3], pieces[4]));
    assert(reading::reads(reading::joined(pieces, 7), pieces[4], pieces[5], pieces[6]));
}

/// The header of `vault` shows each value under its label.
pub proof fn vault_header_is_shown(
    rpc: Seq<char>,
    payer: Seq<u8>,
    program: Seq<u8>,
    market: Seq<u8>,
    manager: Seq<u8>,
    vault_key: Seq<u8>,
    bump: nat,
    share: Seq<u8>,
)
    ensures
        reading::made_of(
            trading_vault::vault_header_text(rpc, payer, program, market, manager, vault_key, bump, share),
            seq![
                "rpc:        "@,
                rpc,
                "\npayer:      "@,
                address::key_text(payer),
                "\nprogram:    "@,
                address::key_text(program),
                "\nmarket:     "@,
                address::key_text(market),
                "\nmanager:    "@,
                address::key_text(manager),
                "\nvault PDA:  "@,
                address::key_text(vault_key),
                "  (bump "@,
                text::decimal(bump),
                ")\nshare PDA:  "@,
                address::key_text(share),
                "  (for payer="@,
                address::key_text(payer),
                ")\n\n"@,
            ],
        ),
        reading::reads(trading_vault::vault_header_text(rpc, payer, program, market, manager, vault_key, bump, share), "rpc:        "@, rpc, "\npayer:      "@),
        reading::reads(trading_vault::vault_header_text(rpc, payer, program, market, manager, vault_key, bump, share), "\npayer:      "@, address::key_text(payer), "\nprogram:    "@),
        reading::reads(trading_vault::vault_header_text(rpc, payer, program, market, manager, vault_key, bump, share), "\nprogram:    "@, address::key_text(program), "\nmarket:     "@),
        reading::reads(trading_vault::vault_header_text(rpc, payer, program, market, manager, vault_key, bump, share), "\nmarket:     "@, address::key_text(market), "\nmanager:    "@),
        reading::reads(trading_vault::vault_header_text(rpc, payer, program, market, manager, vault_key, bump, share), "\nmanager:    "@, address::key_text(manager), "\nvault PDA:  "@),
        reading::reads(trading_vault::vault_header_text(rpc, payer, program, market, manager, vault_key, bump, share), "\nvault PDA:  "@, address::key_text(vault_key), "  (bump "@),
        reading::reads(trading_vault::vault_header_text(rpc, payer, program, market, manager, vault_key, bump, share), "  (bump "@, text::decimal(bump), ")\nshare PDA:  "@),
        reading::reads(trading_vault::vault_header_text(rpc, payer, program, market, manager, vault_key, bump, share), ")\nshare PDA:  "@, address::key_text(share), "  (for payer="@),
        reading::reads(trading_vault::vault_header_text(rpc, payer, program, market, manager, vault_key, bump, share), "  (for payer="@, address::key_text(payer), ")\n\n"@),
{
    let pieces = seq![
        "rpc:        "@,
        rpc,
        "\npayer:      "@,
        address::key_text(payer),
        "\nprogram:    "@,
        address::key_text(program),
        "\nmarket:     "@,
        address::key_text(market),
        "\nmanager:    "@,
        address::key_text(manager),
        "\nvault PDA:  "@,
        address::key_text(vault_key),
        "  (bump "@,
        text::decimal(bump),
        ")\nshare PDA:  "@,
        address::key_text(share),
        "  (for payer="@,
        address::key_text(payer),
        ")\n\n"@,
    ];
    reveal_with_fuel(reading::joined, 20);
    assert(seq![] + pieces[0] =~= pieces[0]);
    assert(trading_vault::vault_header_text(rpc, payer, program, market, manager, vault_key, bump, share) == reading::joined(pieces, 19));
    reading::lemma_pieces(pieces);
    assert(reading::reads(reading::joined(pieces, 19), pieces[0], pieces[1], pieces[2]));
    assert(reading::reads(reading::joined(pieces, 19), pieces[2], pieces[3], pieces[4]));
    assert(reading::reads(reading::joined(pieces, 19), pieces[4], pieces[5], pieces[6]));
    assert(reading::reads(reading::joined(pieces, 19), pieces[6], pieces[7], pieces[8]));
    assert(reading::reads(reading::joined(pieces, 19), pieces[8], pieces[9], pieces[10]));
    assert(reading::reads(reading::joined(pieces, 19), pieces[10], pieces[11], pieces[12]));
    assert(reading::reads(reading::joined(pieces, 19), pieces[12], pieces[13], pieces[14]));
    assert(reading::reads(reading::joined(pieces, 19), pieces[14], pieces[15], pieces[16]));
    assert(reading::reads(reading::joined(pieces, 19), pieces[16], pieces[17], pieces[18]));
}

/// The page of a builder profile shows each field under its label.
pub proof fn profile_is_shown(
    b: BuilderProfile,
)
    ensures
        reading::made_of(
            builder::profile_text(b),
            seq![
                "  builder:            "@,
                address::key_text(b.builder@),
                "\n  max_fee_share_bps:  "@,
                text::decimal(b.max_fee_share_bps as nat),
                "\n  accumulated_fees:   "@,
                text::decimal(b.accumulated_fees as nat),
                "\n  total_volume:       "@,
                text::decimal(b.total_volume as nat),
                "\n"@,
            ],
        ),
        reading::reads(builder::profile_text(b), "  builder:            "@, address::key_text(b.builder@), "\n  max_fee_share_bps:  "@),
        reading::reads(builder::profile_text(b), "\n  max_fee_share_bps:  "@, text::decimal(b.max_fee_share_bps as nat), "\n  accumulated_fees:   "@),
        reading::reads(builder::profile_text(b), "\n  accumulated_fees:   "@, text::decimal(b.accumulated_fees as nat), "\n  total_volume:       "@),
        reading::reads(builder::profile_text(b), "\n  total_volume:       "@, text::decimal(b.total_volume as nat), "\n"@),
{
    let pieces = seq![
        "  builder:            "@,
        address::key_text(b.builder@),
        "\n  max_fee_share_bps:  "@,
        text::decimal(b.max_fee_share_bps as nat),
        "\n  accumulated_fees:   "@,
        text::decimal(b.accumulated_fees as nat),
        "\n  total_volume:       "@,
        text::decimal(b.total_volume as nat),
        "\n"@,
    ];
    reveal_with_fuel(reading::joined, 10);
    assert(seq![] + pieces[0] =~= pieces[0]);
    assert(builder::profile_text(b) == reading::joined(pieces, 9));
    reading::lemma_pieces(pieces);
    assert(reading::reads(reading::joined(pieces, 9), pieces[0], pieces[1], pieces[2]));
    assert(reading::reads(reading::joined(pieces, 9), pieces[2], pieces[3], pieces[4]));
    assert(reading::reads(reading::joined(pieces, 9), pieces[4], pieces[5], pieces[6]));
    assert(reading::reads(reading::joined(pieces, 9), pieces[6], pieces[7], pieces[8]));
}

/// The header of `builder` shows each value under its label.
pub proof fn builder_header_is_shown(
    rpc: Seq<char>,
    payer: Seq<u8>,
    program: Seq<u8>,
    builder_key: Seq<u8>,
    profile: Seq<u8>,
)
    ensures
        reading::made_of(
            builder::builder_header_text(rpc, payer, program, builder_key, profile),
            seq![
                "rpc:         "@,
                rpc,
                "\npayer:       "@,
                address::key_text(payer),
                "\nprogram:     "@,
                address::key_text(program),
                "\nbuilder:     "@,
                address::key_text(builder_key),
                "\nprofile PDA: "@,
                address::key_text(profile),
                "\n\n"@,
            ],
        ),
        reading::reads(builder::builder_header_text(rpc, payer, program, builder_key, profile), "rpc:         "@, rpc, "\npayer:       "@),
        reading::reads(builder::builder_header_text(rpc, payer, program, builder_key, profile), "\npayer:       "@, address::key_text(payer), "\nprogram:     "@),
        reading::reads(builder::builder_header_text(rpc, payer, program, builder_key, profile), "\nprogram:     "@, address::key_text(program), "\nbuilder:     "@),
        reading::reads(builder::builder_header_text(rpc, payer, program, builder_key, profile), "\nbuilder:     "@, address::key_text(builder_key), "\nprofile PDA: "@),
        reading::reads(builder::builder_header_text(rpc, payer, program, builder_key, profile), "\nprofile PDA: "@, address::key_text(profile), "\n\n"@),
{
    let pieces = seq![
        "rpc:         "@,
        rpc,
        "\npayer:       "@,
        address::key_text(payer),
        "\nprogram:     "@,
        address::key_text(program),
        "\nbuilder:     "@,
        address::key_text(builder_key),
        "\nprofile PDA: "@,
        address::key_text(profile),
        "\n\n"@,
    ];
    reveal_with_fuel(reading::joined, 12);
    assert(seq![] + pieces[0] =~= pieces[0]);
    assert(builder::builder_header_text(rpc, payer, program, builder_key, profile) == reading::joined(pieces, 11));
    reading::lemma_pieces(pieces);
    assert(reading::reads(reading::joined(pieces, 11), pieces[0], pieces[1], pieces[2]));
    assert(reading::reads(reading::joined(pieces, 11), pieces[2], pieces[3], pieces[4]));
    assert(reading::reads(reading::joined(pieces, 11), pieces[4], pieces[5], pieces[6]));
    assert(reading::reads(reading::joined(pieces, 11), pieces[6], pieces[7], pieces[8]));
    assert(reading::reads(reading::joined(pieces, 11), pieces[8], pieces[9], pieces[10]));
}

/// The header of `builder` shows each value under its label.
pub proof fn fee_vault_header_is_shown(
    fee_vault: Seq<u8>,
    fee_vault_auth: Seq<u8>,
)
    ensures
        reading::made_of(
            builder::fee_vault_header_text(fee_vault, fee_vault_auth),
            seq![
                "fee_vault PDA:        "@,
                address::key_text(fee_vault),
                "\nfee_vault_auth PDA:   "@,
                address::key_text(fee_vault_auth),
                "\n"@,
            ],
        ),
        reading::reads(builder::fee_vault_header_text(fee_vault, fee_vault_auth), "fee_vault PDA:        "@, address::key_text(fee_vault), "\nfee_vault_auth PDA:   "@),
        reading::reads(builder::fee_vault_header_text(fee_vault, fee_vault_auth), "\nfee_vault_auth PDA:   "@, address::key_text(fee_vault_auth), "\n"@),
{
    let pieces = seq![
        "fee_vault PDA:        "@,
        address::key_text(fee_vault),
        "\nfee_vault_auth PDA:   "@,
        address::key_text(fee_vault_auth),
        "\n"@,
    ];
    reveal_with_fuel(reading::joined, 6);
    assert(seq![] + pieces[0] =~= pieces[0]);
    assert(builder::fee_vault_header_text(fee_vault, fee_vault_auth) == reading::joined(pieces, 5));
    reading::lemma_pieces(pieces);
    assert(reading::reads(reading::joined(pieces, 5), pieces[0], pieces[1], pieces[2]));
    assert(reading::reads(reading::joined(pieces, 5), pieces[2], pieces[3], pieces[4]));
}

/// The page of a slab shows each field under its label.
pub proof fn slab_is_shown(
    s: Slab,
)
    ensures
        reading::made_of(
            slab::slab_text(s),
            seq![
                "  next_order_id: "@,
                text::decimal(s.next_order_id as nat),
                "\n  active_count:  "@,
                text::decimal(s.active_count as nat),
                "\n  bump:          "@,
                text::decimal(s.bump as nat),
                "\n  market:        "@,
                address::key_text(s.market@),
                "\n  best bid:      "@,
                slab::best_text(s.bid_tree, true),
                "\n  best ask:      "@,
                slab::best_text(s.ask_tree, false),
                "\n  bid levels:    "@,
                text::decimal(slab::leaf_count(s.bid_tree.nodes@)),
                " (tree-node pool free head "@,
                text::decimal(s.bid_tree.free_head as nat),
                ")\n  ask levels:    "@,
                text::decimal(slab::leaf_count(s.ask_tree.nodes@)),
                " (tree-node pool free head "@,
                text::decimal(s.ask_tree.free_head as nat),
                ")\n  order-pool free head: "@,
                text::decimal(s.pool_free_head as nat),
                "\n"@,
            ],
        ),
        reading::reads(slab::slab_text(s), "  next_order_id: "@, text::decimal(s.next_order_id as nat), "\n  active_count:  "@),
        reading::reads(slab::slab_text(s), "\n  active_count:  "@, text::decimal(s.active_count as nat), "\n  bump:          "@),
        reading::reads(slab::slab_text(s), "\n  bump:          "@, text::decimal(s.bump as nat), "\n  market:        "@),
        reading::reads(slab::slab_text(s), "\n  market:        "@, address::key_text(s.market@), "\n  best bid:      "@),
        reading::reads(slab::slab_text(s), "\n  best bid:      "@, slab::best_text(s.bid_tree, true), "\n  best ask:      "@),
        reading::reads(slab::slab_text(s), "\n  best ask:      "@, slab::best_text(s.ask_tree, false), "\n  bid levels:    "@),
        reading::reads(slab::slab_text(s), "\n  bid levels:    "@, text::decimal(slab::leaf_count(s.bid_tree.nodes@)), " (tree-node pool free head "@),
        reading::reads(slab::slab_text(s), " (tree-node pool free head "@, text::decimal(s.bid_tree.free_head as nat), ")\n  ask levels:    "@),
        reading::reads(slab::slab_text(s), ")\n  ask levels:    "@, text::decimal(slab::leaf_count(s.ask_tree.nodes@)), " (tree-node pool free head "@),
        reading::reads(slab::slab_text(s), " (tree-node pool free head "@, text::decimal(s.ask_tree.free_head as nat), ")\n  order-pool free head: "@),
        reading::reads(slab::slab_text(s), ")\n  order-pool free head: "@, text::decimal(s.pool_free_head as nat), "\n"@),
{
    let pieces = seq![
        "  next_order_id: "@,
        text::decimal(s.next_order_id as nat),
        "\n  active_count:  "@,
        text::decimal(s.active_count as nat),
        "\n  bump:          "@,
        text::decimal(s.bump as nat),
        "\n  market:        "@,
        address::key_text(s.market@),
        "\n  best bid:      "@,
        slab::best_text(s.bid_tree, true),
        "\n  best ask:      "@,
        slab::best_text(s.ask_tree, false),
        "\n  bid levels:    "@,
        text::decimal(slab::leaf_count(s.bid_tree.nodes@)),
        " (tree-node pool free head "@,
        text::decimal(s.bid_tree.free_head as nat),
        ")\n  ask levels:    "@,
        text::decimal(slab::leaf_count(s.ask_tree.nodes@)),
        " (tree-node pool free head "@,
        text::decimal(s.ask_tree.free_head as nat),
        ")\n  order-pool free head: "@,
        text::decimal(s.pool_free_head as nat),
        "\n"@,
    ];
    reveal_with_fuel(reading::joined, 24);
    assert(seq![] + pieces[0] =~= pieces[0]);
    assert(slab::slab_text(s) == reading::joined(pieces, 23));
    reading::lemma_pieces(pieces);
    assert(reading::reads(reading::joined(pieces, 23), pieces[0], pieces[1], pieces[2]));
    assert(reading::reads(reading::joined(pieces, 23), pieces[2], pieces[3], pieces[4]));
    assert(reading::reads(reading::joined(pieces, 23), pieces[4], pieces[5], pieces[6]));
    assert(reading::reads(reading::joined(pieces, 23), pieces[6], pieces[7], pieces[8]));
    assert(reading::reads(reading::joined(pieces, 23), pieces[8], pieces[9], pieces[10]));
    assert(reading::reads(reading::joined(pieces, 23), pieces[10], pieces[11], pieces[12]));
    assert(reading::reads(reading::joined(pieces, 23), pieces[12], pieces[13], pieces[14]));
    assert(reading::reads(reading::joined(pieces, 23), pieces[14], pieces[15], pieces[16]));
    assert(reading::reads(reading::joined(pieces, 23), pieces[16], pieces[17], pieces[18]));
    assert(reading::reads(reading::joined(pieces, 23), pieces[18], pieces[19], pieces[20]));
    assert(reading::reads(reading::joined(pieces, 23), pieces[20], pieces[21], pieces[22]));
}

/// The header of `slab` shows each value under its label.
pub proof fn slab_header_is_shown(
    rpc: Seq<char>,
    payer: Seq<u8>,
    program: Seq<u8>,
    market: Seq<u8>,
    slab_key: Seq<u8>,
    bump: nat,
)
    ensures
        reading::made_of(
            slab::slab_header_text(rpc, payer, program, market, slab_key, bump),
            seq![
                "rpc:        "@,
                rpc,
                "\npayer/user: "@,
                address::key_text(payer),
                "\nprogram:    "@,
                address::key_text(program),
                "\nmarket:     "@,
                address::key_text(market),
                "\nslab PDA:   "@,
                address::key_text(slab_key),
                "  (bump "@,
                text::decimal(bump),
                ")\n\n"@,
            ],
        ),
        reading::reads(slab::slab_header_text(rpc, payer, program, market, slab_key, bump), "rpc:        "@, rpc, "\npayer/user: "@),
        reading::reads(slab::slab_header_text(rpc, payer, program, market, slab_key, bump), "\npayer/user: "@, address::key_text(payer), "\nprogram:    "@),
        reading::reads(slab::slab_header_text(rpc, payer, program, market, slab_key, bump), "\nprogram:    "@, address::key_text(program), "\nmarket:     "@),
        reading::reads(slab::slab_header_text(rpc, payer, program, market, slab_key, bump), "\nmarket:     "@, address::key_text(market), "\nslab PDA:   "@),
        reading::reads(slab::slab_header_text(rpc, payer, program, market, slab_key, bump), "\nslab PDA:   "@, address::key_text(slab_key), "  (bump "@),
        reading::reads(slab::slab_header_text(rpc, payer, program, market, slab_key, bump), "  (bump "@, text::decimal(bump), ")\n\n"@),
{
    let pieces = seq![
        "rpc:        "@,
        rpc,
        "\npayer/user: "@,
        address::key_text(payer),
        "\nprogram:    "@,
        address::key_text(program),
        "\nmarket:     "@,
        address::key_text(market),
        "\nslab PDA:   "@,
        address::key_text(slab_key),
        "  (bump "@,
        text::decimal(bump),
        ")\n\n"@,
    ];
    reveal_with_fuel(reading::joined, 14);
    assert(seq![] + pieces[0] =~= pieces[0]);
    assert(slab::slab_header_text(rpc, payer, program, market, slab_key, bump) == reading::joined(pieces, 13));
    reading::lemma_pieces(pieces);
    assert(reading::reads(reading::joined(pieces, 13), pieces[0], pieces[1], pieces[2]));
    assert(reading::reads(reading::joined(pieces, 13), pieces[2], pieces[3], pieces[4]));
    assert(reading::reads(reading::joined(pieces, 13), pieces[4], pieces[5], pieces[6]));
    assert(reading::reads(reading::joined(pieces, 13), pieces[6], pieces[7], pieces[8]));
    assert(reading::reads(reading::joined(pieces, 13), pieces[8], pieces[9], pieces[10]));
    assert(reading::reads(reading::joined(pieces, 13), pieces[10], pieces[11], pieces[12]));
}

/// The header of `allocate-market` shows each value under its label.
pub proof fn allocate_header_is_shown(
    rpc: Seq<char>,
    payer: Seq<u8>,
    market_key: Seq<u8>,
    space: nat,
    rent: nat,
    sol: Seq<char>,
)
    ensures
        reading::made_of(
            market::allocate_header_text(rpc, payer, market_key, space, rent, sol),
            seq![
                "rpc:            "@,
                rpc,
                "\npayer:          "@,
                address::key_text(payer),
                "\nmarket pubkey:  "@,
                address::key_text(market_key),
                "\nspace:          "@,
                text::decimal(space),
                " bytes\nrent lamports:  "@,
                text::decimal(rent),
                "  ("@,
                sol,
                " SOL)\n\n"@,
            ],
        ),
        reading::reads(market::allocate_header_text(rpc, payer, market_key, space, rent, sol), "rpc:            "@, rpc, "\npayer:          "@),
        reading::reads(market::allocate_header_text(rpc, payer, market_key, space, rent, sol), "\npayer:          "@, address::key_text(payer), "\nmarket pubkey:  "@),
        reading::reads(market::allocate_header_text(rpc, payer, market_key, space, rent, sol), "\nmarket pubkey:  "@, address::key_text(market_key), "\nspace:          "@),
        reading::reads(market::allocate_header_text(rpc, payer, market_key, space, rent, sol), "\nspace:          "@, text::decimal(space), " bytes\nrent lamports:  "@),
        reading::reads(market::allocate_header_text(rpc, payer, market_key, space, rent, sol), " bytes\nrent lamports:  "@, text::decimal(rent), "  ("@),
        reading::reads(market::allocate_header_text(rpc, payer, market_key, space, rent, sol), "  ("@, sol, " SOL)\n\n"@),
{
    let pieces = seq![
        "rpc:            "@,
        rpc,
        "\npayer:          "@,
        address::key_text(payer),
        "\nmarket pubkey:  "@,
        address::key_text(market_key),
        "\nspace:          "@,
        text::decimal(space),
        " bytes\nrent lamports:  "@,
        text::decimal(rent),
        "  ("@,
        sol,
        " SOL)\n\n"@,
    ];
    reveal_with_fuel(reading::joined, 14);
    assert(seq![] + pieces[0] =~= pieces[0]);
    assert(market::allocate_header_text(rpc, payer, market_key, space, rent, sol) == reading::joined(pieces, 13));
    reading::lemma_pieces(pieces);
    assert(reading::reads(reading::joined(pieces, 13), pieces[0], pieces[1], pieces[2]));
    assert(reading::reads(reading::joined(pieces, 13), pieces[2], pieces[3], pieces[4]));
    assert(reading::reads(reading::joined(pieces, 13), pieces[4], pieces[5], pieces[6]));
    assert(reading::reads(reading::joined(pieces, 13), pieces[6], pieces[7], pieces[8]));
    assert(reading::reads(reading::joined(pieces, 13), pieces[8], pieces[9], pieces[10]));
    assert(reading::reads(reading::joined(pieces, 13), pieces[10], pieces[11], pieces[12]));
}

/// The header of `init-market` shows each value under its label.
pub proof fn init_header_is_shown(
    rpc: Seq<char>,
    payer: Seq<u8>,
    market_key: Seq<u8>,
    program: Seq<u8>,
    authority: Seq<u8>,
    base_mint: Seq<u8>,
    quote_mint: Seq<u8>,
    tick_size: nat,
    lot_size: nat,
)
    ensures
        reading::made_of(
            market::init_header_text(rpc, payer, market_key, program, authority, base_mint, quote_mint, tick_size, lot_size),
            seq![
                "rpc:            "@,
                rpc,
                "\npayer:          "@,
                address::key_text(payer),
                "\nmarket:         "@,
                address::key_text(market_key),
                "\nprogram:        "@,
                address::key_text(program),
                "\nauthority:      "@,
                address::key_text(authority),
                "\nbase_mint:      "@,
                address::key_text(base_mint),
                "\nquote_mint:     "@,
                address::key_text(quote_mint),
                "\ntick_size:      "@,
                text::decimal(tick_size),
                "\nlot_size:       "@,
                text::decimal(lot_size),
                "\n\n"@,
            ],
        ),
        reading::reads(market::init_header_text(rpc, payer, market_key, program, authority, base_mint, quote_mint, tick_size, lot_size), "rpc:            "@, rpc, "\npayer:          "@),
        reading::reads(market::init_header_text(rpc, payer, market_key, program, authority, base_mint, quote_mint, tick_size, lot_size), "\npayer:          "@, address::key_text(payer), "\nmarket:         "@),
        reading::reads(market::init_header_text(rpc, payer, market_key, program, authority, base_mint, quote_mint, tick_size, lot_size), "\nmarket:         "@, address::key_text(market_key), "\nprogram:        "@),
        reading::reads(market::init_header_text(rpc, payer, market_key, program, authority, base_mint, quote_mint, tick_size, lot_size), "\nprogram:        "@, address::key_text(program), "\nauthority:      "@),
        reading::reads(market::init_header_text(rpc, payer, market_key, program, authority, base_mint, quote_mint, tick_size, lot_size), "\nauthority:      "@, address::key_text(authority), "\nbase_mint:      "@),
        reading::reads(market::init_header_text(rpc, payer, market_key, program, authority, base_mint, quote_mint, tick_size, lot_size), "\nbase_mint:      "@, address::key_text(base_mint), "\nquote_mint:     "@),
        reading::reads(market::init_header_text(rpc, payer, market_key, program, authority, base_mint, quote_mint, tick_size, lot_size), "\nquote_mint:     "@, address::key_text(quote_mint), "\ntick_size:      "@),
        reading::reads(market::init_header_text(rpc, payer, market_key, program, authority, base_mint, quote_mint, tick_size, lot_size), "\ntick_size:      "@, text::decimal(tick_size), "\nlot_size:       "@),
        reading::reads(market::init_header_text(rpc, payer, market_key, program, authority, base_mint, quote_mint, tick_size, lot_size), "\nlot_size:       "@, text::decimal(lot_size), "\n\n"@),
{
    let pieces = seq![
        "rpc:            "@,
        rpc,
        "\npayer:          "@,
        address::key_text(payer),
        "\nmarket:         "@,
        address::key_text(market_key),
        "\nprogram:        "@,
        address::key_text(program),
        "\nauthority:      "@,
        address::key_text(authority),
        "\nbase_mint:      "@,
        address::key_text(base_mint),
        "\nquote_mint:     "@,
        address::key_text(quote_mint),
        "\ntick_size:      "@,
        text::decimal(tick_size),
        "\nlot_size:       "@,
        text::decimal(lot_size),
        "\n\n"@,
    ];
    reveal_with_fuel(reading::joined, 20);
    assert(seq![] + pieces[0] =~= pieces[0]);
    assert(market::init_header_text(rpc, payer, market_key, program, authority, base_mint, quote_mint, tick_size, lot_size) == reading::joined(pieces, 19));
    reading::lemma_pieces(pieces);
    assert(reading::reads(reading::joined(pieces, 19), pieces[0], pieces[1], pieces[2]));
    assert(reading::reads(reading::joined(pieces, 19), pieces[2], pieces[3], pieces[4]));
    assert(reading::reads(reading::joined(pieces, 19), pieces[4], pieces[5], pieces[6]));
    assert(reading::reads(reading::joined(pieces, 19), pieces[6], pieces[7], pieces[8]));
    assert(reading::reads(reading::joined(pieces, 19), pieces[8], pieces[9], pieces[10]));
    assert(reading::reads(reading::joined(pieces, 19), pieces[10], pieces[11], pieces[12]));
    assert(reading::reads(reading::joined(pieces, 19), pieces[12], pieces[13], pieces[14]));
    assert(reading::reads(reading::joined(pieces, 19), pieces[14], pieces[15], pieces[16]));
    assert(reading::reads(reading::joined(pieces, 19), pieces[16], pieces[17], pieces[18]));
}

/// The header of `create-market` shows each value under its label.
pub proof fn create_header_is_shown(
    rpc: Seq<char>,
    payer: Seq<u8>,
    program: Seq<u8>,
    base_mint: Seq<u8>,
    quote_mint: Seq<u8>,
    market_key: Seq<u8>,
    bump: nat,
    authority: Seq<u8>,
    tick_size: nat,
    lot_size: nat,
)
    ensures
        reading::made_of(
            market::create_header_text(rpc, payer, program, base_mint, quote_mint, market_key, bump, authority, tick_size, lot_size),
            seq![
                "rpc:            "@,
                rpc,
                "\npayer:          "@,
                address::key_text(payer),
                "\nprogram:        "@,
                address::key_text(program),
                "\nbase_mint:      "@,
                address::key_text(base_mint),
                "\nquote_mint:     "@,
                address::key_text(quote_mint),
                "\nmarket PDA:     "@,
                address::key_text(market_key),
                "  (bump "@,
                text::decimal(bump),
                ")\nauthority:      "@,
                address::key_text(authority),
                "\ntick_size:      "@,
                text::decimal(tick_size),
                "\nlot_size:       "@,
                text::decimal(lot_size),
                "\n\n"@,
            ],
        ),
        reading::reads(market::create_header_text(rpc, payer, program, base_mint, quote_mint, market_key, bump, authority, tick_size, lot_size), "rpc:            "@, rpc, "\npayer:          "@),
        reading::reads(market::create_header_text(rpc, payer, program, base_mint, quote_mint, market_key, bump, authority, tick_size, lot_size), "\npayer:          "@, address::key_text(payer), "\nprogram:        "@),
        reading::reads(market::create_header_text(rpc, payer, program, base_mint, quote_mint, market_key, bump, authority, tick_size, lot_size), "\nprogram:        "@, address::key_text(program), "\nbase_mint:      "@),
        reading::reads(market::create_header_text(rpc, payer, program, base_mint, quote_mint, market_key, bump, authority, tick_size, lot_size), "\nbase_mint:      "@, address::key_text(base_mint), "\nquote_mint:     "@),
        reading::reads(market::create_header_text(rpc, payer, program, base_mint, quote_mint, market_key, bump, authority, tick_size, lot_size), "\nquote_mint:     "@, address::key_text(quote_mint), "\nmarket PDA:     "@),
        reading::reads(market::create_header_text(rpc, payer, program, base_mint, quote_mint, market_key, bump, authority, tick_size, lot_size), "\nmarket PDA:     "@, address::key_text(market_key), "  (bump "@),
        reading::reads(market::create_header_text(rpc, payer, program, base_mint, quote_mint, market_key, bump, authority, tick_size, lot_size), "  (bump "@, text::decimal(bump), ")\nauthority:      "@),
        reading::reads(market::create_header_text(rpc, payer, program, base_mint, quote_mint, market_key, bump, authority, tick_size, lot_size), ")\nauthority:      "@, address::key_text(authority), "\ntick_size:      "@),
        reading::reads(market::create_header_text(rpc, payer, program, base_mint, quote_mint, market_key, bump, authority, tick_size, lot_size), "\ntick_size:      "@, text::decimal(tick_size), "\nlot_size:       "@),
        reading::reads(market::create_header_text(rpc, payer, program, base_mint, quote_mint, market_key, bump, authority, tick_size, lot_size), "\nlot_size:       "@, text::decimal(lot_size), "\n\n"@),
{
    let pieces = seq![
        "rpc:            "@,
        rpc,
        "\npayer:          "@,
        address::key_text(payer),
        "\nprogram:        "@,
        address::key_text(program),
        "\nbase_mint:      "@,
        address::key_text(base_mint),
        "\nquote_mint:     "@,
        address::key_text(quote_mint),
        "\nmarket PDA:     "@,
        address::key_text(market_key),
        "  (bump "@,
        text::decimal(bump),
        ")\nauthority:      "@,
        address::key_text(authority),
        "\ntick_size:      "@,
        text::decimal(tick_size),
        "\nlot_size:       "@,
        text::decimal(lot_size),
        "\n\n"@,
    ];
    reveal_with_fuel(reading::joined, 22);
    assert(seq![] + pieces[0] =~= pieces[0]);
    assert(market::create_header_text(rpc, payer, program, base_mint, quote_mint, market_key, bump, authority, tick_size, lot_size) == reading::joined(pieces, 21));
    reading::lemma_pieces(pieces);
    assert(reading::reads(reading::joined(pieces, 21), pieces[0], pieces[1], pieces[2]));
    assert(reading::reads(reading::joined(pieces, 21), pieces[2], pieces[3], pieces[4]));
    assert(reading::reads(reading::joined(pieces, 21), pieces[4], pieces[5], pieces[6]));
    assert(reading::reads(reading::joined(pieces, 21), pieces[6], pieces[7], pieces[8]));
    assert(reading::reads(reading::joined(pieces, 21), pieces[8], pieces[9], pieces[10]));
    assert(reading::reads(reading::joined(pieces, 21), pieces[10], pieces[11], pieces[12]));
    assert(reading::reads(reading::joined(pieces, 21), pieces[12], pieces[13], pieces[14]));
    assert(reading::reads(reading::joined(pieces, 21), pieces[14], pieces[15], pieces[16]));
    assert(reading::reads(reading::joined(pieces, 21), pieces[16], pieces[17], pieces[18]));
    assert(reading::reads(reading::joined(pieces, 21), pieces[18], pieces[19], pieces[20]));
}

/// What is known of an account is shown under its labels.
pub proof fn account_details_are_shown(
    owner: Seq<u8>,
    lamports: nat,
    executable: bool,
    data_len: nat,
)
    ensures
        reading::made_of(
            market::account_details_text(owner, lamports, executable, data_len),
            seq![
                "account metadata:\n  owner:        "@,
                address::key_text(owner),
                "\n  lamports:     "@,
                text::decimal(lamports),
                "\n  executable:   "@,
                if executable { "true"@ } else { "false"@ },
                "\n  data length:  "@,
                text::decimal(data_len),
                "\n\n"@,
            ],
        ),
        reading::reads(market::account_details_text(owner, lamports, executable, data_len), "account metadata:\n  owner:        "@, address::key_text(owner), "\n  lamports:     "@),
        reading::reads(market::account_details_text(owner, lamports, executable, data_len), "\n  lamports:     "@, text::decimal(lamports), "\n  executable:   "@),
        reading::reads(market::account_details_text(owner, lamports, executable, data_len), "\n  executable:   "@, if executable { "true"@ } else { "false"@ }, "\n  data length:  "@),
        reading::reads(market::account_details_text(owner, lamports, executable, data_len), "\n  data length:  "@, text::decimal(data_len), "\n\n"@),
{
    let pieces = seq![
        "account metadata:\n  owner:        "@,
        address::key_text(owner),
        "\n  lamports:     "@,
        text::decimal(lamports),
        "\n  executable:   "@,
        if executable { "true"@ } else { "false"@ },
        "\n  data length:  "@,
        text::decimal(data_len),
        "\n\n"@,
    ];
    reveal_with_fuel(reading::joined, 10);
    assert(seq![] + pieces[0] =~= pieces[0]);
    assert(market::account_details_text(owner, lamports, executable, data_len) == reading::joined(pieces, 9));
    reading::lemma_pieces(pieces);
    assert(reading::reads(reading::joined(pieces, 9), pieces[0], pieces[1], pieces[2]));
    assert(reading::reads(reading::joined(pieces, 9), pieces[2], pieces[3], pieces[4]));
    assert(reading::reads(reading::joined(pieces, 9), pieces[4], pieces[5], pieces[6]));
    assert(reading::reads(reading::joined(pieces, 9), pieces[6], pieces[7], pieces[8]));
}

/// As above, with the epoch at which rent is due.
pub proof fn account_details_with_epoch_are_shown(
    owner: Seq<u8>,
    lamports: nat,
    executable: bool,
    epoch: nat,
    data_len: nat,
)
    ensures
        reading::made_of(
            market::account_details_with_epoch_text(owner, lamports, executable, epoch, data_len),
            seq![
                "account metadata:\n  owner:        "@,
                address::key_text(owner),
                "\n  lamports:     "@,
                text::decimal(lamports),
                "\n  executable:   "@,
                if executable { "true"@ } else { "false"@ },
                "\n  rent_epoch:   "@,
                text::decimal(epoch),
                "\n  data length:  "@,
                text::decimal(data_len),
                "\n\n"@,
            ],
        ),
        reading::reads(market::account_details_with_epoch_text(owner, lamports, executable, epoch, data_len), "account metadata:\n  owner:        "@, address::key_text(owner), "\n  lamports:     "@),
        reading::reads(market::account_details_with_epoch_text(owner, lamports, executable, epoch, data_len), "\n  lamports:     "@, text::decimal(lamports), "\n  executable:   "@),
        reading::reads(market::account_details_with_epoch_text(owner, lamports, executable, epoch, data_len), "\n  executable:   "@, if executable { "true"@ } else { "false"@ }, "\n  rent_epoch:   "@),
        reading::reads(market::account_details_with_epoch_text(owner, lamports, executable, epoch, data_len), "\n  rent_epoch:   "@, text::decimal(epoch), "\n  data length:  "@),
        reading::reads(market::account_details_with_epoch_text(owner, lamports, executable, epoch, data_len), "\n  data length:  "@, text::decimal(data_len), "\n\n"@),
{
    let pieces = seq![
        "account metadata:\n  owner:        "@,
        address::key_text(owner),
        "\n  lamports:     "@,
        text::decimal(lamports),
        "\n  executable:   "@,
        if executable { "true"@ } else { "false"@ },
        "\n  rent_epoch:   "@,
        text::decimal(epoch),
        "\n  data length:  "@,
        text::decimal(data_len),
        "\n\n"@,
    ];
    reveal_with_fuel(reading::joined, 12);
    assert(seq![] + pieces[0] =~= pieces[0]);
    assert(market::account_details_with_epoch_text(owner, lamports, executable, epoch, data_len) == reading::joined(pieces, 11));
    reading::lemma_pieces(pieces);
    assert(reading::reads(reading::joined(pieces, 11), pieces[0], pieces[1], pieces[2]));
    assert(reading::reads(reading::joined(pieces, 11), pieces[2], pieces[3], pieces[4]));
    assert(reading::reads(reading::joined(pieces, 11), pieces[4], pieces[5], pieces[6]));
    assert(reading::reads(reading::joined(pieces, 11), pieces[6], pieces[7], pieces[8]));
    assert(reading::reads(reading::joined(pieces, 11), pieces[8], pieces[9], pieces[10]));
}

/// The page of a market shows each field under its label.
pub proof fn market_is_shown(
    m: Market,
    derived: Option<u8>,
)
    ensures
        reading::made_of(
            market::market_text(m, derived),
            seq![
                "\ndecoded Market view:\n  discriminator: ["@,
                text::comma_list(m.discriminator@),
                "]  (ASCII: "@,
                text::quoted_text(text::utf8_or_placeholder(m.discriminator@)),
                ")\n  version:       "@,
                text::decimal(m.version as nat),
                "\n  bump:          "@,
                market::bump_text(m.bump, derived),
                "\n  authority:     "@,
                address::key_text(m.authority@),
                "\n  base_mint:     "@,
                address::key_text(m.base_mint@),
                "\n  quote_mint:    "@,
                address::key_text(m.quote_mint@),
                "\n  tick_size:     "@,
                text::decimal(m.tick_size as nat),
                "\n  lot_size:      "@,
                text::decimal(m.lot_size as nat),
                "\n"@,
            ],
        ),
        reading::reads(market::market_text(m, derived), "\ndecoded Market view:\n  discriminator: ["@, text::comma_list(m.discriminator@), "]  (ASCII: "@),
        reading::reads(market::market_text(m, derived), "]  (ASCII: "@, text::quoted_text(text::utf8_or_placeholder(m.discriminator@)), ")\n  version:       "@),
        reading::reads(market::market_text(m, derived), ")\n  version:       "@, text::decimal(m.version as nat), "\n  bump:          "@),
        reading::reads(market::market_text(m, derived), "\n  bump:          "@, market::bump_text(m.bump, derived), "\n  authority:     "@),
        reading::reads(market::market_text(m, derived), "\n  authority:     "@, address::key_text(m.authority@), "\n  base_mint:     "@),
        reading::reads(market::market_text(m, derived), "\n  base_mint:     "@, address::key_text(m.base_mint@), "\n  quote_mint:    "@),
        reading::reads(market::market_text(m, derived), "\n  quote_mint:    "@, address::key_text(m.quote_mint@), "\n  tick_size:     "@),
        reading::reads(market::market_text(m, derived), "\n  tick_size:     "@, text::decimal(m.tick_size as nat), "\n  lot_size:      "@),
        reading::reads(market::market_text(m, derived), "\n  lot_size:      "@, text::decimal(m.lot_size as nat), "\n"@),
{
    let pieces = seq![
        "\ndecoded Market view:\n  discriminator: ["@,
        text::comma_list(m.discriminator@),
        "]  (ASCII: "@,
        text::quoted_text(text::utf8_or_placeholder(m.discriminator@)),
        ")\n  version:       "@,
        text::decimal(m.version as nat),
        "\n  bump:          "@,
        market::bump_text(m.bump, derived),
        "\n  authority:     "@,
        address::key_text(m.authority@),
        "\n  base_mint:     "@,
        address::key_text(m.base_mint@),
        "\n  quote_mint:    "@,
        address::key_text(m.quote_mint@),
        "\n  tick_size:     "@,
        text::decimal(m.tick_size as nat),
        "\n  lot_size:      "@,
        text::decimal(m.lot_size as nat),
        "\n"@,
    ];
    reveal_with_fuel(reading::joined, 20);
    assert(seq![] + pieces[0] =~= pieces[0]);
    assert(market::market_text(m, derived) == reading::joined(pieces, 19));
    reading::lemma_pieces(pieces);
    assert(reading::reads(reading::joined(pieces, 19), pieces[0], pieces[1], pieces[2]));
    assert(reading::reads(reading::joined(pieces, 19), pieces[2], pieces[3], pieces[4]));
    assert(reading::reads(reading::joined(pieces, 19), pieces[4], pieces[5], pieces[6]));
    assert(reading::reads(reading::joined(pieces, 19), pieces[6], pieces[7], pieces[8]));
    assert(reading::reads(reading::joined(pieces, 19), pieces[8], pieces[9], pieces[10]));
    assert(reading::reads(reading::joined(pieces, 19), pieces[10], pieces[11], pieces[12]));
    assert(reading::reads(reading::joined(pieces, 19), pieces[12], pieces[13], pieces[14]));
    assert(reading::reads(reading::joined(pieces, 19), pieces[14], pieces[15], pieces[16]));
    assert(reading::reads(reading::joined(pieces, 19), pieces[16], pieces[17], pieces[18]));
}

/// Beside the bump of a market stands the one that was derived for it.
pub proof fn derived_bump_is_shown(
    bump: u8,
    derived: u8,
)
    ensures
        reading::made_of(
            market::bump_text(bump, Some(derived)),
            seq![
                text::decimal(bump as nat),
                "  (matches client-side derivation: "@,
                text::decimal(derived as nat),
                ")"@,
            ],
        ),
        reading::reads(market::bump_text(bump, Some(derived)), text::decimal(bump as nat), "  (matches client-side derivation: "@, text::decimal(derived as nat)),
{
    let pieces = seq![
        text::decimal(bump as nat),
        "  (matches client-side derivation: "@,
        text::decimal(derived as nat),
        ")"@,
    ];
    reveal_with_fuel(reading::joined, 5);
    assert(seq![] + pieces[0] =~= pieces[0]);
    assert(market::bump_text(bump, Some(derived)) == reading::joined(pieces, 4));
    reading::lemma_pieces(pieces);
    assert(reading::reads(reading::joined(pieces, 4), pieces[0], pieces[1], pieces[2]));
}

/// The header of `stats` shows each value under its label.
pub proof fn stats_header_is_shown(
    rpc: Seq<char>,
    payer: Seq<u8>,
    program: Seq<u8>,
    stats_key: Seq<u8>,
    bump: nat,
    mode: Seq<char>,
)
    ensures
        reading::made_of(
            stats::stats_header_text(rpc, payer, program, stats_key, bump, mode),
            seq![
                "rpc:        "@,
                rpc,
                "\npayer:      "@,
                address::key_text(payer),
                "\nprogram:    "@,
                address::key_text(program),
                "\nstats PDA:  "@,
                address::key_text(stats_key),
                "  (bump "@,
                text::decimal(bump),
                ")\nmode:       "@,
                mode,
                "\n\n"@,
            ],
        ),
        reading::reads(stats::stats_header_text(rpc, payer, program, stats_key, bump, mode), "rpc:        "@, rpc, "\npayer:      "@),
        reading::reads(stats::stats_header_text(rpc, payer, program, stats_key, bump, mode), "\npayer:      "@, address::key_text(payer), "\nprogram:    "@),
        reading::reads(stats::stats_header_text(rpc, payer, program, stats_key, bump, mode), "\nprogram:    "@, address::key_text(program), "\nstats PDA:  "@),
        reading::reads(stats::stats_header_text(rpc, payer, program, stats_key, bump, mode), "\nstats PDA:  "@, address::key_text(stats_key), "  (bump "@),
        reading::reads(stats::stats_header_text(rpc, payer, program, stats_key, bump, mode), "  (bump "@, text::decimal(bump), ")\nmode:       "@),
        reading::reads(stats::stats_header_text(rpc, payer, program, stats_key, bump, mode), ")\nmode:       "@, mode, "\n\n"@),
{
    let pieces = seq![
        "rpc:        "@,
        rpc,
        "\npayer:      "@,
        address::key_text(payer),
        "\nprogram:    "@,
        address::key_text(program),
        "\nstats PDA:  "@,
        address::key_text(stats_key),
        "  (bump "@,
        text::decimal(bump),
        ")\nmode:       "@,
        mode,
        "\n\n"@,
    ];
    reveal_with_fuel(reading::joined, 14);
    assert(seq![] + pieces[0] =~= pieces[0]);
    assert(stats::stats_header_text(rpc, payer, program, stats_key, bump, mode) == reading::joined(pieces, 13));
    reading::lemma_pieces(pieces);
    assert(reading::reads(reading::joined(pieces, 13), pieces[0], pieces[1], pieces[2]));
    assert(reading::reads(reading::joined(pieces, 13), pieces[2], pieces[3], pieces[4]));
    assert(reading::reads(reading::joined(pieces, 13), pieces[4], pieces[5], pieces[6]));
    assert(reading::reads(reading::joined(pieces, 13), pieces[6], pieces[7], pieces[8]));
    assert(reading::reads(reading::joined(pieces, 13), pieces[8], pieces[9], pieces[10]));
    assert(reading::reads(reading::joined(pieces, 13), pieces[10], pieces[11], pieces[12]));
}

/// The page of the counter shows count and bump under their labels.
pub proof fn stats_are_shown(
    count: nat,
    bump: nat,
)
    ensures
        reading::made_of(
            stats::describe_stats_text(count, bump),
            seq![
                "\nstats post-state:\n  market_count: "@,
                text::decimal(count),
                "\n  bump:         "@,
                text::decimal(bump),
                "\n"@,
            ],
        ),
        reading::reads(stats::describe_stats_text(count, bump), "\nstats post-state:\n  market_count: "@, text::decimal(count), "\n  bump:         "@),
        reading::reads(stats::describe_stats_text(count, bump), "\n  bump:         "@, text::decimal(bump), "\n"@),
{
    let pieces = seq![
        "\nstats post-state:\n  market_count: "@,
        text::decimal(count),
        "\n  bump:         "@,
        text::decimal(bump),
        "\n"@,
    ];
    reveal_with_fuel(reading::joined, 6);
    assert(seq![] + pieces[0] =~= pieces[0]);
    assert(stats::describe_stats_text(count, bump) == reading::joined(pieces, 5));
    reading::lemma_pieces(pieces);
    assert(reading::reads(reading::joined(pieces, 5), pieces[0], pieces[1], pieces[2]));
    assert(reading::reads(reading::joined(pieces, 5), pieces[2], pieces[3], pieces[4]));
}

/// The header of `create-vault` shows each value under its label.
pub proof fn create_vault_header_is_shown(
    rpc: Seq<char>,
    payer: Seq<u8>,
    program: Seq<u8>,
    market_key: Seq<u8>,
    mint: Seq<u8>,
    vault_key: Seq<u8>,
    vault_bump: nat,
    vault_auth: Seq<u8>,
    auth_bump: nat,
)
    ensures
        reading::made_of(
            vault::create_vault_header_text(rpc, payer, program, market_key, mint, vault_key, vault_bump, vault_auth, auth_bump),
            seq![
                "rpc:              "@,
                rpc,
                "\npayer:            "@,
                address::key_text(payer),
                "\nprogram:          "@,
                address::key_text(program),
                "\nmarket:           "@,
                address::key_text(market_key),
                "\nmint:             "@,
                address::key_text(mint),
                "\nvault PDA:        "@,
                address::key_text(vault_key),
                "  (bump "@,
                text::decimal(vault_bump),
                ")\nvault_auth PDA:   "@,
                address::key_text(vault_auth),
                "  (bump "@,
                text::decimal(auth_bump),
                ")\n\n"@,
            ],
        ),
        reading::reads(vault::create_vault_header_text(rpc, payer, program, market_key, mint, vault_key, vault_bump, vault_auth, auth_bump), "rpc:              "@, rpc, "\npayer:            "@),
        reading::reads(vault::create_vault_header_text(rpc, payer, program, market_key, mint, vault_key, vault_bump, vault_auth, auth_bump), "\npayer:            "@, address::key_text(payer), "\nprogram:          "@),
        reading::reads(vault::create_vault_header_text(rpc, payer, program, market_key, mint, vault_key, vault_bump, vault_auth, auth_bump), "\nprogram:          "@, address::key_text(program), "\nmarket:           "@),
        reading::reads(vault::create_vault_header_text(rpc, payer, program, market_key, mint, vault_key, vault_bump, vault_auth, auth_bump), "\nmarket:           "@, address::key_text(market_key), "\nmint:             "@),
        reading::reads(vault::create_vault_header_text(rpc, payer, program, market_key, mint, vault_key, vault_bump, vault_auth, auth_bump), "\nmint:             "@, address::key_text(mint), "\nvault PDA:        "@),
        reading::reads(vault::create_vault_header_text(rpc, payer, program, market_key, mint, vault_key, vault_bump, vault_auth, auth_bump), "\nvault PDA:        "@, address::key_text(vault_key), "  (bump "@),
        reading::reads(vault::create_vault_header_text(rpc, payer, program, market_key, mint, vault_key, vault_bump, vault_auth, auth_bump), "  (bump "@, text::decimal(vault_bump), ")\nvault_auth PDA:   "@),
        reading::reads(vault::create_vault_header_text(rpc, payer, program, market_key, mint, vault_key, vault_bump, vault_auth, auth_bump), ")\nvault_auth PDA:   "@, address::key_text(vault_auth), "  (bump "@),
        reading::reads(vault::create_vault_header_text(rpc, payer, program, market_key, mint, vault_key, vault_bump, vault_auth, auth_bump), "  (bump "@, text::decimal(auth_bump), ")\n\n"@),
{
    let pieces = seq![
        "rpc:              "@,
        rpc,
        "\npayer:            "@,
        address::key_text(payer),
        "\nprogram:          "@,
        address::key_text(program),
        "\nmarket:           "@,
        address::key_text(market_key),
        "\nmint:             "@,
        address::key_text(mint),
        "\nvault PDA:        "@,
        address::key_text(vault_key),
        "  (bump "@,
        text::decimal(vault_bump),
        ")\nvault_auth PDA:   "@,
        address::key_text(vault_auth),
        "  (bump "@,
        text::decimal(auth_bump),
        ")\n\n"@,
    ];
    reveal_with_fuel(reading::joined, 20);
    assert(seq![] + pieces[0] =~= pieces[0]);
    assert(vault::create_vault_header_text(rpc, payer, program, market_key, mint, vault_key, vault_bump, vault_auth, auth_bump) == reading::joined(pieces, 19));
    reading::lemma_pieces(pieces);
    assert(reading::reads(reading::joined(pieces, 19), pieces[0], pieces[1], pieces[2]));
    assert(reading::reads(reading::joined(pieces, 19), pieces[2], pieces[3], pieces[4]));
    assert(reading::reads(reading::joined(pieces, 19), pieces[4], pieces[5], pieces[6]));
    assert(reading::reads(reading::joined(pieces, 19), pieces[6], pieces[7], pieces[8]));
    assert(reading::reads(reading::joined(pieces, 19), pieces[8], pieces[9], pieces[10]));
    assert(reading::reads(reading::joined(pieces, 19), pieces[10], pieces[11], pieces[12]));
    assert(reading::reads(reading::joined(pieces, 19), pieces[12], pieces[13], pieces[14]));
    assert(reading::reads(reading::joined(pieces, 19), pieces[14], pieces[15], pieces[16]));
    assert(reading::reads(reading::joined(pieces, 19), pieces[16], pieces[17], pieces[18]));
}

/// The page of a token account shows each value under its label.
pub proof fn token_account_is_shown(
    owner: Seq<u8>,
    lamports: nat,
    data_len: nat,
)
    ensures
        reading::made_of(
            vault::describe_token_account_text(owner, lamports, data_len),
            seq![
                "\nvault token account post-state:\n  owner:        "@,
                address::key_text(owner),
                "  (expected SPL Token)\n  lamports:     "@,
                text::decimal(lamports),
                "\n  data length:  "@,
                text::decimal(data_len),
                "  (expected 165)\n"@,
            ],
        ),
        reading::reads(vault::describe_token_account_text(owner, lamports, data_len), "\nvault token account post-state:\n  owner:        "@, address::key_text(owner), "  (expected SPL Token)\n  lamports:     "@),
        reading::reads(vault::describe_token_account_text(owner, lamports, data_len), "  (expected SPL Token)\n  lamports:     "@, text::decimal(lamports), "\n  data length:  "@),
        reading::reads(vault::describe_token_account_text(owner, lamports, data_len), "\n  data length:  "@, text::decimal(data_len), "  (expected 165)\n"@),
{
    let pieces = seq![
        "\nvault token account post-state:\n  owner:        "@,
        address::key_text(owner),
        "  (expected SPL Token)\n  lamports:     "@,
        text::decimal(lamports),
        "\n  data length:  "@,
        text::decimal(data_len),
        "  (expected 165)\n"@,
    ];
    reveal_with_fuel(reading::joined, 8);
    assert(seq![] + pieces[0] =~= pieces[0]);
    assert(vault::describe_token_account_text(owner, lamports, data_len) == reading::joined(pieces, 7));
    reading::lemma_pieces(pieces);
    assert(reading::reads(reading::joined(pieces, 7), pieces[0], pieces[1], pieces[2]));
    assert(reading::reads(reading::joined(pieces, 7), pieces[2], pieces[3], pieces[4]));
    assert(reading::reads(reading::joined(pieces, 7), pieces[4], pieces[5], pieces[6]));
}

/// The header of `deposit` shows each value under its label.
pub proof fn deposit_header_is_shown(
    rpc: Seq<char>,
    user: Seq<u8>,
    program: Seq<u8>,
    user_token: Seq<u8>,
    vault_key: Seq<u8>,
    amount: nat,
)
    ensures
        reading::made_of(
            vault::deposit_header_text(rpc, user, program, user_token, vault_key, amount),
            seq![
                "rpc:                 "@,
                rpc,
                "\nuser:                "@,
                address::key_text(user),
                "\nprogram:             "@,
                address::key_text(program),
                "\nuser_token_account:  "@,
                address::key_text(user_token),
                "\nvault:               "@,
                address::key_text(vault_key),
                "\namount:              "@,
                text::decimal(amount),
                "\n\n"@,
            ],
        ),
        reading::reads(vault::deposit_header_text(rpc, user, program, user_token, vault_key, amount), "rpc:                 "@, rpc, "\nuser:                "@),
        reading::reads(vault::deposit_header_text(rpc, user, program, user_token, vault_key, amount), "\nuser:                "@, address::key_text(user), "\nprogram:             "@),
        reading::reads(vault::deposit_header_text(rpc, user, program, user_token, vault_key, amount), "\nprogram:             "@, address::key_text(program), "\nuser_token_account:  "@),
        reading::reads(vault::deposit_header_text(rpc, user, program, user_token, vault_key, amount), "\nuser_token_account:  "@, address::key_text(user_token), "\nvault:               "@),
        reading::reads(vault::deposit_header_text(rpc, user, program, user_token, vault_key, amount), "\nvault:               "@, address::key_text(vault_key), "\namount:              "@),
        reading::reads(vault::deposit_header_text(rpc, user, program, user_token, vault_key, amount), "\namount:              "@, text::decimal(amount), "\n\n"@),
{
    let pieces = seq![
        "rpc:                 "@,
        rpc,
        "\nuser:                "@,
        address::key_text(user),
        "\nprogram:             "@,
        address::key_text(program),
        "\nuser_token_account:  "@,
        address::key_text(user_token),
        "\nvault:               "@,
        address::key_text(vault_key),
        "\namount:              "@,
        text::decimal(amount),
        "\n\n"@,
    ];
    reveal_with_fuel(reading::joined, 14);
    assert(seq![] + pieces[0] =~= pieces[0]);
    assert(vault::deposit_header_text(rpc, user, program, user_token, vault_key, amount) == reading::joined(pieces, 13));
    reading::lemma_pieces(pieces);
    assert(reading::reads(reading::joined(pieces, 13), pieces[0], pieces[1], pieces[2]));
    assert(reading::reads(reading::joined(pieces, 13), pieces[2], pieces[3], pieces[4]));
    assert(reading::reads(reading::joined(pieces, 13), pieces[4], pieces[5], pieces[6]));
    assert(reading::reads(reading::joined(pieces, 13), pieces[6], pieces[7], pieces[8]));
    assert(reading::reads(reading::joined(pieces, 13), pieces[8], pieces[9], pieces[10]));
    assert(reading::reads(reading::joined(pieces, 13), pieces[10], pieces[11], pieces[12]));
}

/// The header of `bench` shows each value under its label.
pub proof fn bench_header_is_shown(
    rpc: Seq<char>,
    payer: Seq<u8>,
    program: Seq<u8>,
    rounds: nat,
    heap_bytes: nat,
    limit: Seq<char>,
)
    ensures
        reading::made_of(
            bench::bench_header_text(rpc, payer, program, rounds, heap_bytes, limit),
            seq![
                "rpc:        "@,
                rpc,
                "\npayer:      "@,
                address::key_text(payer),
                "\nprogram:    "@,
                address::key_text(program),
                "\nrounds:     "@,
                text::decimal(rounds),
                "\nheap_bytes: "@,
                text::decimal(heap_bytes),
                "\ncu_limit:   "@,
                limit,
                "\n\n"@,
            ],
        ),
        reading::reads(bench::bench_header_text(rpc, payer, program, rounds, heap_bytes, limit), "rpc:        "@, rpc, "\npayer:      "@),
        reading::reads(bench::bench_header_text(rpc, payer, program, rounds, heap_bytes, limit), "\npayer:      "@, address::key_text(payer), "\nprogram:    "@),
        reading::reads(bench::bench_header_text(rpc, payer, program, rounds, heap_bytes, limit), "\nprogram:    "@, address::key_text(program), "\nrounds:     "@),
        reading::reads(bench::bench_header_text(rpc, payer, program, rounds, heap_bytes, limit), "\nrounds:     "@, text::decimal(rounds), "\nheap_bytes: "@),
        reading::reads(bench::bench_header_text(rpc, payer, program, rounds, heap_bytes, limit), "\nheap_bytes: "@, text::decimal(heap_bytes), "\ncu_limit:   "@),
        reading::reads(bench::bench_header_text(rpc, payer, program, rounds, heap_bytes, limit), "\ncu_limit:   "@, limit, "\n\n"@),
{
    let pieces = seq![
        "rpc:        "@,
        rpc,
        "\npayer:      "@,
        address::key_text(payer),
        "\nprogram:    "@,
        address::key_text(program),
        "\nrounds:     "@,
        text::decimal(rounds),
        "\nheap_bytes: "@,
        text::decimal(heap_bytes),
        "\ncu_limit:   "@,
        limit,
        "\n\n"@,
    ];
    reveal_with_fuel(reading::joined, 14);
    assert(seq![] + pieces[0] =~= pieces[0]);
    assert(bench::bench_header_text(rpc, payer, program, rounds, heap_bytes, limit) == reading::joined(pieces, 13));
    reading::lemma_pieces(pieces);
    assert(reading::reads(reading::joined(pieces, 13), pieces[0], pieces[1], pieces[2]));
    assert(reading::reads(reading::joined(pieces, 13), pieces[2], pieces[3], pieces[4]));
    assert(reading::reads(reading::joined(pieces, 13), pieces[4], pieces[5], pieces[6]));
    assert(reading::reads(reading::joined(pieces, 13), pieces[6], pieces[7], pieces[8]));
    assert(reading::reads(reading::joined(pieces, 13), pieces[8], pieces[9], pieces[10]));
    assert(reading::reads(reading::joined(pieces, 13), pieces[10], pieces[11], pieces[12]));
}

/// A simulation is shown with its compute units, 0 if unknown, and its error, if
/// there was one.
pub proof fn simulation_is_shown(
    units: Option<u64>,
    err: Option<Seq<char>>,
)
    ensures
        reading::made_of(
            bench::simulation_text(units, err),
            seq![
                "simulation:\n  units_consumed: "@,
                text::decimal(if units is Some { units->Some_0 as nat } else { 0 }),
                "\n  err:            "@,
                if err is Some { err->Some_0 } else { "(none)"@ },
                "\n\n"@,
            ],
        ),
        reading::reads(bench::simulation_text(units, err), "simulation:\n  units_consumed: "@, text::decimal(if units is Some { units->Some_0 as nat } else { 0 }), "\n  err:            "@),
        reading::reads(bench::simulation_text(units, err), "\n  err:            "@, if err is Some { err->Some_0 } else { "(none)"@ }, "\n\n"@),
{
    let pieces = seq![
        "simulation:\n  units_consumed: "@,
        text::decimal(if units is Some { units->Some_0 as nat } else { 0 }),
        "\n  err:            "@,
        if err is Some { err->Some_0 } else { "(none)"@ },
        "\n\n"@,
    ];
    reveal_with_fuel(reading::joined, 6);
    assert(seq![] + pieces[0] =~= pieces[0]);
    assert(bench::simulation_text(units, err) == reading::joined(pieces, 5));
    reading::lemma_pieces(pieces);
    assert(reading::reads(reading::joined(pieces, 5), pieces[0], pieces[1], pieces[2]));
    assert(reading::reads(reading::joined(pieces, 5), pieces[2], pieces[3], pieces[4]));
}

/// The signature of a transaction that was sent is shown.
pub proof fn signature_is_shown(
    signature: Seq<char>,
)
    ensures
        reading::made_of(
            bench::sent_text(Ok(signature)),
            seq![
                "on-chain signature: "@,
                signature,
                "\n"@,
            ],
        ),
        reading::reads(bench::sent_text(Ok(signature)), "on-chain signature: "@, signature, "\n"@),
{
    let pieces = seq![
        "on-chain signature: "@,
        signature,
        "\n"@,
    ];
    reveal_with_fuel(reading::joined, 4);
    assert(seq![] + pieces[0] =~= pieces[0]);
    assert(bench::sent_text(Ok(signature)) == reading::joined(pieces, 3));
    reading::lemma_pieces(pieces);
    assert(reading::reads(reading::joined(pieces, 3), pieces[0], pieces[1], pieces[2]));
}

/// Why a transaction was not taken is shown.
pub proof fn send_failure_is_shown(
    why: Seq<char>,
)
    ensures
        reading::made_of(
            bench::sent_text(Err(why)),
            seq![
                "on-chain send failed (sim had passed): "@,
                why,
                "\n"@,
            ],
        ),
        reading::reads(bench::sent_text(Err(why)), "on-chain send failed (sim had passed): "@, why, "\n"@),
{
    let pieces = seq![
        "on-chain send failed (sim had passed): "@,
        why,
        "\n"@,
    ];
    reveal_with_fuel(reading::joined, 4);
    assert(seq![] + pieces[0] =~= pieces[0]);
    assert(bench::sent_text(Err(why)) == reading::joined(pieces, 3));
    reading::lemma_pieces(pieces);
    assert(reading::reads(reading::joined(pieces, 3), pieces[0], pieces[1], pieces[2]));
}

/// A limit on compute units is shown as a number; without one, the default is
/// named.
pub proof fn limit_is_shown(units: u32)
    ensures
        common::limit_text(Some(units)) == text::decimal(units as nat),
        common::limit_text(None) == "default (200k)"@,
{
}

/// The age of a value that was published in the slot `then` is what has to be
/// added to get to the slot `now`; it is 0 if `then` is not over yet.
pub proof fn age_counts_slots(now: u64, then: u64)
    ensures
        now >= then ==> then + common::slots_since(now, then) == now,
        now < then ==> common::slots_since(now, then) == 0,
{
}

/// An account is called writable or a signer, or both, exactly if it is.
pub proof fn modes_are_named(is_writable: bool, is_signer: bool)
    ensures
        common::mode_text(is_writable, is_signer) == "WRITE + SIGNER"@ <==> is_writable && is_signer,
        common::mode_text(is_writable, is_signer) == "WRITE"@ <==> is_writable && !is_signer,
        common::mode_text(is_writable, is_signer) == "SIGNER"@ <==> !is_writable && is_signer,
        common::mode_text(is_writable, is_signer) == "READ"@ <==> !is_writable && !is_signer,
{
    reveal_strlit("WRITE + SIGNER");
    reveal_strlit("WRITE");
    reveal_strlit("SIGNER");
    reveal_strlit("READ");
    assert("WRITE + SIGNER"@.len() != "WRITE"@.len());
    assert("WRITE + SIGNER"@.len() != "SIGNER"@.len());
    assert("WRITE"@.len() != "SIGNER"@.len());
}

/// Every account of an instruction has its line: position, key and mode.
pub proof fn every_account_is_declared(metas: Seq<types::MetaView>, n: nat, i: int)
    requires
        0 <= i < n <= metas.len(),
    ensures
        exists|before: Seq<char>, after: Seq<char>| #[trigger]
            (before + ("  ["@ + text::decimal(i as nat) + "] "@ + address::key_text(metas[i].pubkey) + " "@
                + common::mode_text(metas[i].is_writable, metas[i].is_signer) + "\n"@) + after)
                == common::meta_lines(metas, n),
    decreases n,
{
    let line = "  ["@ + text::decimal(i as nat) + "] "@ + address::key_text(metas[i].pubkey) + " "@
        + common::mode_text(metas[i].is_writable, metas[i].is_signer) + "\n"@;
    let page = common::meta_lines(metas, n);
    let earlier = common::meta_lines(metas, (n - 1) as nat);
    if i == n - 1 {
        assert(earlier + line + seq![] =~= page);
    } else {
        every_account_is_declared(metas, (n - 1) as nat, i);
        let (before, after) = choose|before: Seq<char>, after: Seq<char>| #[trigger]
            (before + line + after) == earlier;
        let m = metas[n - 1];
        let last = "  ["@ + text::decimal((n - 1) as nat) + "] "@ + address::key_text(m.pubkey) + " "@
            + common::mode_text(m.is_writable, m.is_signer) + "\n"@;
        assert(page =~= earlier + last);
        assert(before + line + (after + last) =~= page);
    }
}

/// Every line of a program log is shown.
pub proof fn every_log_line_is_shown(logs: Seq<String>, n: nat, i: int)
    requires
        0 <= i < n <= logs.len(),
    ensures
        exists|before: Seq<char>, after: Seq<char>| #[trigger]
            (before + ("  "@ + logs[i]@ + "\n"@) + after) == bench::log_lines(logs, n),
    decreases n,
{
    let line = "  "@ + logs[i]@ + "\n"@;
    let page = bench::log_lines(logs, n);
    let earlier = bench::log_lines(logs, (n - 1) as nat);
    if i == n - 1 {
        assert(earlier + line + seq![] =~= page);
    } else {
        every_log_line_is_shown(logs, (n - 1) as nat, i);
        let (before, after) = choose|before: Seq<char>, after: Seq<char>| #[trigger]
            (before + line + after) == earlier;
        let last = "  "@ + logs[n - 1]@ + "\n"@;
        assert(page =~= earlier + last);
        assert(before + line + (after + last) =~= page);
    }
}

/// A page on a simulation says that nothing was sent exactly if it failed.
pub proof fn failed_simulations_are_not_sent(
    units: Option<u64>,
    err: Option<Seq<char>>,
    logs: Option<Vec<String>>,
    gap: bool,
)
    ensures
        ({
            let shown = bench::simulation_text(units, err) + bench::logs_text(logs) + (if gap || logs is Some {
                "\n"@
            } else {
                seq![]
            });
            &&& err is None ==> bench::simulated_text(units, err, logs, gap) == shown
            &&& err is Some ==> bench::simulated_text(units, err, logs, gap) == shown
                + "(skipping on-chain send because simulation failed)\n"@
        }),
{
    let shown = bench::simulation_text(units, err) + bench::logs_text(logs) + (if gap || logs is Some {
        "\n"@
    } else {
        seq![]
    });
    assert(shown + seq![] =~= shown);
}

/// A leading `~/` is replaced by the home directory, if that is known; any
/// other path stays.
pub proof fn tilde_means_home(rest: Seq<char>, path: Seq<char>, home: Seq<char>)
    ensures
        common::expanded("~/"@ + rest, Some(home)) == home + "/"@ + rest,
        common::expanded(path, None) == path,
        path.len() < 2 || path[0] != '~' || path[1] != '/' ==> common::expanded(path, Some(home)) == path,
{
    reveal_strlit("~/");
    assert(("~/"@ + rest).take(2) =~= "~/"@);
    assert(("~/"@ + rest).skip(2) =~= rest);
    if path.len() >= 2 {
        assert(path.take(2)[0] == path[0] && path.take(2)[1] == path[1]);
    }
}

/// The logs of a simulation are shown below a title, each line once and in order; without
/// logs nothing is said.
pub proof fn logs_are_shown_whole(logs: Vec<String>)
    ensures
        bench::logs_text(None) == Seq::<char>::empty(),
        bench::logs_text(Some(logs)) == "program logs:\n"@ + reading::joined(
            Seq::new(logs@.len(), |i: int| "  "@ + logs@[i]@ + "\n"@),
            logs@.len(),
        ),
{
    lemma_log_lines(logs@, logs@.len());
}

proof fn lemma_log_lines(logs: Seq<String>, n: nat)
    requires
        n <= logs.len(),
    ensures
        bench::log_lines(logs, n) == reading::joined(
            Seq::new(logs.len(), |i: int| "  "@ + logs[i]@ + "\n"@),
            n,
        ),
    decreases n,
{
    if n > 0 {
        lemma_log_lines(logs, (n - 1) as nat);
        let lines = Seq::new(logs.len(), |i: int| "  "@ + logs[i]@ + "\n"@);
        assert(bench::log_lines(logs, n) =~= reading::joined(lines, n));
    }
}

/// The accounts of an instruction are declared in order, each under its position.
pub proof fn declarations_are_in_order(metas: Seq<types::MetaView>, n: nat)
    requires
        n <= metas.len(),
    ensures
        common::meta_lines(metas, n) == reading::joined(
            Seq::new(
                metas.len(),
                |i: int|
                    "  ["@ + text::decimal(i as nat) + "] "@ + address::key_text(metas[i].pubkey) + " "@
                        + common::mode_text(metas[i].is_writable, metas[i].is_signer) + "\n"@,
            ),
            n,
        ),
    decreases n,
{
    if n > 0 {
        declarations_are_in_order(metas, (n - 1) as nat);
        let lines = Seq::new(
            metas.len(),
            |i: int|
                "  ["@ + text::decimal(i as nat) + "] "@ + address::key_text(metas[i].pubkey) + " "@
                    + common::mode_text(metas[i].is_writable, metas[i].is_signer) + "\n"@,
        );
        assert(common::meta_lines(metas, n) =~= reading::joined(lines, n));
    }
}

/// A bump that was not derived is shown alone.
pub proof fn bumps_are_shown_alone(bump: u8)
    ensures
        market::bump_text(bump, None) == text::decimal(bump as nat),
{
}

/// The side of an order is 0 for `bid` and 1 for `ask`; no other word names one.
pub proof fn only_two_words_name_a_side(word: Option<Seq<char>>)
    ensures
        common::side_named(word) == Some(0u8) <==> word == Some("bid"@),
        common::side_named(word) == Some(1u8) <==> word == Some("ask"@),
        common::side_named(word) is Some ==> word == Some("bid"@) || word == Some("ask"@),
{
    reveal_strlit("bid");
    reveal_strlit("ask");
    assert("bid"@[0] != "ask"@[0]);
}

} // verus!
