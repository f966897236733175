//! What the commands send, read back from the instruction: which program, which
//! accounts and how they are passed, and what the data says at which offset.

use vstd::prelude::*;

use crate::bytes;
use crate::client::bench;
use crate::client::book;
use crate::client::book::BookArgs;
use crate::client::builder;
use crate::client::builder::BuilderArgs;
use crate::client::common;
use crate::client::funding;
use crate::client::funding::FundingArgs;
use crate::client::keys;
use crate::client::market;
use crate::client::market::MarketArgs;
use crate::client::oracle;
use crate::client::oracle::OracleArgs;
use crate::client::position;
use crate::client::position::{PositionArgs, PositionKeys};
use crate::client::slab;
use crate::client::slab::SlabArgs;
use crate::client::stats;
use crate::client::trading_vault;
use crate::client::trading_vault::{VaultArgs, VaultKeys};
use crate::client::vault;
use crate::program::address;
use crate::program::laws as program_laws;
use crate::program::laws::AddressKind;
use crate::program::market::MarketParams;
use crate::program::system;
use crate::program::types;

verus! {

/// The account at position `i` is `key`; it signs and is written to as said.
pub open spec fn passes(
    ix: types::InstructionView,
    i: int,
    key: Seq<u8>,
    signs: bool,
    written: bool,
) -> bool {
    &&& 0 <= i < ix.accounts.len()
    &&& ix.accounts[i].pubkey == key
    &&& ix.accounts[i].is_signer == signs
    &&& ix.accounts[i].is_writable == written
}

/// The option is given, and is `word`.
pub open spec fn says(option: Option<String>, word: Seq<char>) -> bool {
    option matches Some(t) && t@ == word
}

/// The option names a side, whose byte is `side`: 0 to buy, 1 to sell.
pub open spec fn names_side(option: Option<String>, side: u8) -> bool {
    ||| says(option, "bid"@) && side == 0
    ||| says(option, "ask"@) && side == 1
}

/// The option is given, and stands for `key`.
pub open spec fn names_key(option: Option<String>, key: Seq<u8>) -> bool {
    option matches Some(t) && keys::parsed_key(t@) == Ok::<Seq<u8>, keys::KeyError>(key)
}

/// At least two of the flags are set.
pub open spec fn two_are_set(flags: Seq<bool>) -> bool {
    exists|i: int, j: int| 0 <= i < j < flags.len() && #[trigger] flags[i] && #[trigger] flags[j]
}

/// Modes exclude each other exactly if two of them are chosen.
pub proof fn two_modes_are_too_many(flags: Seq<bool>)
    ensures
        common::set_count(flags) > 1 <==> two_are_set(flags),
        common::set_count(flags) > 0 <==> exists|i: int| 0 <= i < flags.len() && #[trigger] flags[i],
    decreases flags.len(),
{
    if flags.len() > 0 {
        let rest = flags.drop_last();
        two_modes_are_too_many(rest);
        let n = flags.len() - 1;
        assert forall|i: int| 0 <= i < n implies rest[i] == flags[i] by {}
        if common::set_count(flags) > 1 {
            if common::set_count(rest) > 1 {
                let (i, j) = choose|i: int, j: int|
                    0 <= i < j < rest.len() && #[trigger] rest[i] && #[trigger] rest[j];
                assert(flags[i] && flags[j]);
            } else {
                let i = choose|i: int| 0 <= i < rest.len() && #[trigger] rest[i];
                assert(flags[i] && flags[n]);
            }
        }
        if two_are_set(flags) {
            let (i, j) = choose|i: int, j: int|
                0 <= i < j < flags.len() && #[trigger] flags[i] && #[trigger] flags[j];
            assert(rest[i]);
            if j < n {
                assert(rest[j]);
            }
        }
        if common::set_count(flags) > 0 {
            if common::set_count(rest) > 0 {
                let i = choose|i: int| 0 <= i < rest.len() && #[trigger] rest[i];
                assert(flags[i]);
            } else {
                assert(flags[n]);
            }
        }
        if exists|i: int| 0 <= i < flags.len() && #[trigger] flags[i] {
            let i = choose|i: int| 0 <= i < flags.len() && #[trigger] flags[i];
            if i < n {
                assert(rest[i]);
            }
        }
    }
}

/// An unsigned number is read back from where it was put.
proof fn lemma_number(before: Seq<u8>, value: nat, width: nat, after: Seq<u8>)
    requires
        value < bytes::pow256(width),
    ensures
        bytes::le_bytes(value, width).len() == width,
        bytes::le_value(
            bytes::part(before + bytes::le_bytes(value, width) + after, before.len() as int, width as int),
        ) == value,
{
    bytes::lemma_le_round_trip(value, width);
    assert(bytes::part(
        before + bytes::le_bytes(value, width) + after,
        before.len() as int,
        width as int,
    ) =~= bytes::le_bytes(value, width));
}

/// A signed number is read back from where it was put.
proof fn lemma_signed(before: Seq<u8>, value: int, width: nat, after: Seq<u8>)
    requires
        -(bytes::pow256(width) as int) <= 2 * value < bytes::pow256(width),
    ensures
        bytes::le_bytes(bytes::twos_complement(value, width), width).len() == width,
        bytes::le_signed(
            bytes::part(
                before + bytes::le_bytes(bytes::twos_complement(value, width), width) + after,
                before.len() as int,
                width as int,
            ),
        ) == value,
{
    let b = bytes::le_bytes(bytes::twos_complement(value, width), width);
    bytes::lemma_twos_complement_decode(value, width);
    assert(bytes::part(before + b + after, before.len() as int, width as int) =~= b);
}

proof fn lemma_words()
    ensures
        "bid"@ != "ask"@,
{
    reveal_strlit("bid");
    reveal_strlit("ask");
    assert("bid"@[0] != "ask"@[0]);
}

proof fn lemma_order_data(tag: u8, side: u8, price: nat, size: nat, fills: u8)
    requires
        price <= u64::MAX,
        size <= u64::MAX,
    ensures
        ({
            let d = book::order_data(tag, side, price, size);
            let m = book::match_data(tag, side, price, size, fills);
            &&& d.len() == 18
            &&& d[0] == tag
            &&& d[1] == side
            &&& bytes::u64_at(d, 2) == price
            &&& bytes::u64_at(d, 10) == size
            &&& m.len() == 19
            &&& m[0] == tag
            &&& m[1] == side
            &&& bytes::u64_at(m, 2) == price
            &&& bytes::u64_at(m, 10) == size
            &&& m[18] == fills
        }),
{
    bytes::lemma_pow256_values();
    let p = bytes::le_bytes(price, 8);
    let s = bytes::le_bytes(size, 8);
    lemma_number(seq![tag, side], price, 8, s);
    lemma_number(seq![tag, side] + p, size, 8, seq![]);
    lemma_number(seq![tag, side] + p, size, 8, seq![fills]);
    let d = book::order_data(tag, side, price, size);
    let m = book::match_data(tag, side, price, size, fills);
    assert(d =~= seq![tag, side] + p + s);
    assert(d =~= (seq![tag, side] + p) + s + seq![]);
    assert(m =~= (seq![tag, side] + p) + s + seq![fills]);
    assert(bytes::part(m, 2, 8) =~= bytes::part(d, 2, 8));
}

proof fn lemma_amount_data(tag: u8, amount: nat)
    requires
        amount <= u64::MAX,
    ensures
        ({
            let d = book::amount_data(tag, amount);
            &&& d.len() == 9
            &&& d[0] == tag
            &&& bytes::u64_at(d, 1) == amount
        }),
{
    bytes::lemma_pow256_values();
    lemma_number(seq![tag], amount, 8, seq![]);
    assert(book::amount_data(tag, amount) =~= seq![tag] + bytes::le_bytes(amount, 8) + seq![]);
}

/// `book --init` asks for the book of the market: the payer signs and pays, and
/// the book is created.
pub proof fn create_book_is_sent_as_asked(
    args: BookArgs,
    program: Seq<u8>,
    payer: Seq<u8>,
    market: Seq<u8>,
    book_key: Seq<u8>,
)
    requires
        args.init,
        !args.place,
        !args.cancel,
    ensures
        book::book_request(args, program, payer, market, book_key) matches Ok(Some(ix)) && {
            &&& ix.program_id == program
            &&& ix.accounts.len() == 4
            &&& passes(ix, 0, payer, true, true)
            &&& passes(ix, 1, market, false, false)
            &&& passes(ix, 2, book_key, false, true)
            &&& passes(ix, 3, address::SYSTEM_PROGRAM_ID@, false, false)
            &&& ix.data.len() == 1
            &&& ix.data[0] == 7
        },
{
    two_modes_are_too_many(seq![args.init, args.place, args.cancel]);
}

/// `book --place` sends the side, price and size that were asked for.
pub proof fn order_is_sent_as_asked(
    args: BookArgs,
    side: u8,
    program: Seq<u8>,
    payer: Seq<u8>,
    market: Seq<u8>,
    book_key: Seq<u8>,
)
    requires
        !args.init,
        args.place,
        !args.cancel,
        names_side(args.side, side),
        args.price is Some,
        args.size is Some,
    ensures
        book::book_request(args, program, payer, market, book_key) matches Ok(Some(ix)) && {
            &&& ix.program_id == program
            &&& ix.accounts.len() == 2
            &&& passes(ix, 0, payer, true, false)
            &&& passes(ix, 1, book_key, false, true)
            &&& ix.data.len() == 18
            &&& ix.data[0] == 8
            &&& ix.data[1] == side
            &&& bytes::u64_at(ix.data, 2) == args.price->Some_0
            &&& bytes::u64_at(ix.data, 10) == args.size->Some_0
        },
{
    two_modes_are_too_many(seq![args.init, args.place, args.cancel]);
    lemma_words();
    lemma_order_data(8, side, args.price->Some_0 as nat, args.size->Some_0 as nat, 0);
}

/// `book --cancel` names the order that was asked for.
pub proof fn cancel_is_sent_as_asked(
    args: BookArgs,
    program: Seq<u8>,
    payer: Seq<u8>,
    market: Seq<u8>,
    book_key: Seq<u8>,
)
    requires
        !args.init,
        !args.place,
        args.cancel,
        args.order_id is Some,
    ensures
        book::book_request(args, program, payer, market, book_key) matches Ok(Some(ix)) && {
            &&& ix.program_id == program
            &&& ix.accounts.len() == 2
            &&& passes(ix, 0, payer, true, false)
            &&& passes(ix, 1, book_key, false, true)
            &&& ix.data.len() == 9
            &&& ix.data[0] == 9
            &&& bytes::u64_at(ix.data, 1) == args.order_id->Some_0
        },
{
    two_modes_are_too_many(seq![args.init, args.place, args.cancel]);
    lemma_amount_data(9, args.order_id->Some_0 as nat);
}

/// `book` refuses two modes at once, and sends nothing if none is chosen.
pub proof fn book_modes_exclude_each_other(
    args: BookArgs,
    program: Seq<u8>,
    payer: Seq<u8>,
    market: Seq<u8>,
    book_key: Seq<u8>,
)
    ensures
        two_are_set(seq![args.init, args.place, args.cancel]) ==> book::book_request(args, program, payer, market, book_key) is Err,
        !(args.init || args.place || args.cancel) ==> book::book_request(args, program, payer, market, book_key) == Ok::<Option<types::InstructionView>, keys::ErrorView>(None),
{
    two_modes_are_too_many(seq![args.init, args.place, args.cancel]);
}

/// `book` sends nothing without a side that is `bid` or `ask`, a price, a size or,
/// to cancel, an order id.
pub proof fn incomplete_orders_are_not_sent(
    args: BookArgs,
    program: Seq<u8>,
    payer: Seq<u8>,
    market: Seq<u8>,
    book_key: Seq<u8>,
)
    ensures
        args.place && !says(args.side, "bid"@) && !says(args.side, "ask"@) ==> book::book_request(args, program, payer, market, book_key) is Err,
        args.place && (args.price is None || args.size is None) ==> book::book_request(args, program, payer, market, book_key) is Err,
        args.cancel && args.order_id is None ==> book::book_request(args, program, payer, market, book_key) is Err,
{
    two_modes_are_too_many(seq![args.init, args.place, args.cancel]);
}

/// `match-cli` sends the side, price limit, size and number of fills that were
/// asked for, signed by the taker.
pub proof fn match_is_sent_as_asked(
    program: Seq<u8>,
    taker: Seq<u8>,
    book_key: Seq<u8>,
    side: u8,
    limit_price: u64,
    size: u64,
    max_fills: u8,
)
    ensures
        ({
            let ix = book::match_view(program, taker, book_key, side, limit_price as nat, size as nat, max_fills);
            &&& ix.program_id == program
            &&& ix.accounts.len() == 2
            &&& passes(ix, 0, taker, true, false)
            &&& passes(ix, 1, book_key, false, true)
            &&& ix.data.len() == 19
            &&& ix.data[0] == 10
            &&& ix.data[1] == side
            &&& bytes::u64_at(ix.data, 2) == limit_price
            &&& bytes::u64_at(ix.data, 10) == size
            &&& ix.data[18] == max_fills
        }),
{
    lemma_order_data(10, side, limit_price as nat, size as nat, max_fills);
}

/// A taker that says `bid` buys, byte 0; one that says `ask` sells, byte 1; any
/// other word is refused.
pub proof fn sides_are_read_as_named(
    side: Seq<char>,
)
    ensures
        side == "bid"@ ==> book::taker_side(side) == Ok::<u8, keys::ErrorView>(0),
        side == "ask"@ ==> book::taker_side(side) == Ok::<u8, keys::ErrorView>(1),
        side != "bid"@ && side != "ask"@ ==> book::taker_side(side) is Err,
{
    lemma_words();
}

/// `slab --create` asks for the slab of the market.
pub proof fn create_slab_is_sent_as_asked(
    args: SlabArgs,
    program: Seq<u8>,
    payer: Seq<u8>,
    market: Seq<u8>,
    slab_key: Seq<u8>,
)
    requires
        args.create,
        !args.place,
        !args.matching,
    ensures
        slab::slab_request(args, program, payer, market, slab_key) matches Ok(Some(ix)) && {
            &&& ix.program_id == program
            &&& ix.accounts.len() == 4
            &&& passes(ix, 0, payer, true, true)
            &&& passes(ix, 1, market, false, false)
            &&& passes(ix, 2, slab_key, false, true)
            &&& passes(ix, 3, address::SYSTEM_PROGRAM_ID@, false, false)
            &&& ix.data.len() == 1
            &&& ix.data[0] == 29
        },
{
    two_modes_are_too_many(seq![args.create, args.place, args.matching]);
}

/// `slab --place` sends the side, price and size that were asked for.
pub proof fn slab_order_is_sent_as_asked(
    args: SlabArgs,
    side: u8,
    program: Seq<u8>,
    payer: Seq<u8>,
    market: Seq<u8>,
    slab_key: Seq<u8>,
)
    requires
        !args.create,
        args.place,
        !args.matching,
        names_side(args.side, side),
        args.price is Some,
        args.size is Some,
    ensures
        slab::slab_request(args, program, payer, market, slab_key) matches Ok(Some(ix)) && {
            &&& ix.program_id == program
            &&& ix.accounts.len() == 2
            &&& passes(ix, 0, payer, true, false)
            &&& passes(ix, 1, slab_key, false, true)
            &&& ix.data.len() == 18
            &&& ix.data[0] == 30
            &&& ix.data[1] == side
            &&& bytes::u64_at(ix.data, 2) == args.price->Some_0
            &&& bytes::u64_at(ix.data, 10) == args.size->Some_0
        },
{
    two_modes_are_too_many(seq![args.create, args.place, args.matching]);
    lemma_words();
    lemma_order_data(30, side, args.price->Some_0 as nat, args.size->Some_0 as nat, 0);
}

/// `slab --match` sends the side of the taker, the price limit, the size and the
/// number of fills that were asked for.
pub proof fn slab_match_is_sent_as_asked(
    args: SlabArgs,
    side: u8,
    program: Seq<u8>,
    payer: Seq<u8>,
    market: Seq<u8>,
    slab_key: Seq<u8>,
)
    requires
        !args.create,
        !args.place,
        args.matching,
        names_side(args.taker_side, side),
        args.price is Some,
        args.size is Some,
        args.max_fills is Some,
    ensures
        slab::slab_request(args, program, payer, market, slab_key) matches Ok(Some(ix)) && {
            &&& ix.program_id == program
            &&& ix.accounts.len() == 2
            &&& passes(ix, 0, payer, true, false)
            &&& passes(ix, 1, slab_key, false, true)
            &&& ix.data.len() == 19
            &&& ix.data[0] == 31
            &&& ix.data[1] == side
            &&& bytes::u64_at(ix.data, 2) == args.price->Some_0
            &&& bytes::u64_at(ix.data, 10) == args.size->Some_0
            &&& ix.data[18] == args.max_fills->Some_0
        },
{
    two_modes_are_too_many(seq![args.create, args.place, args.matching]);
    lemma_words();
    lemma_order_data(31, side, args.price->Some_0 as nat, args.size->Some_0 as nat, args.max_fills->Some_0);
}

/// `slab` refuses two modes at once, and sends nothing if none is chosen.
pub proof fn slab_modes_exclude_each_other(
    args: SlabArgs,
    program: Seq<u8>,
    payer: Seq<u8>,
    market: Seq<u8>,
    slab_key: Seq<u8>,
)
    ensures
        two_are_set(seq![args.create, args.place, args.matching]) ==> slab::slab_request(args, program, payer, market, slab_key) is Err,
        !(args.create || args.place || args.matching) ==> slab::slab_request(args, program, payer, market, slab_key) == Ok::<Option<types::InstructionView>, keys::ErrorView>(None),
{
    two_modes_are_too_many(seq![args.create, args.place, args.matching]);
}

/// `slab` sends nothing without a side that is `bid` or `ask`, a price, a size or,
/// to match, a number of fills.
pub proof fn incomplete_slab_orders_are_not_sent(
    args: SlabArgs,
    program: Seq<u8>,
    payer: Seq<u8>,
    market: Seq<u8>,
    slab_key: Seq<u8>,
)
    ensures
        args.place && !says(args.side, "bid"@) && !says(args.side, "ask"@) ==> slab::slab_request(args, program, payer, market, slab_key) is Err,
        args.matching && !says(args.taker_side, "bid"@) && !says(args.taker_side, "ask"@) ==> slab::slab_request(args, program, payer, market, slab_key) is Err,
        (args.place || args.matching) && !args.create && (args.price is None || args.size is None) ==> slab::slab_request(args, program, payer, market, slab_key) is Err,
        args.matching && args.max_fills is None ==> slab::slab_request(args, program, payer, market, slab_key) is Err,
{
    two_modes_are_too_many(seq![args.create, args.place, args.matching]);
}

/// `oracle --init` asks for the oracle of the market.
pub proof fn create_oracle_is_sent_as_asked(
    args: OracleArgs,
    program: Seq<u8>,
    payer: Seq<u8>,
    market: Seq<u8>,
    oracle_key: Seq<u8>,
)
    requires
        args.init,
        !args.set,
    ensures
        oracle::oracle_request(args, program, payer, market, oracle_key) matches Ok(Some(ix)) && {
            &&& ix.program_id == program
            &&& ix.accounts.len() == 4
            &&& passes(ix, 0, payer, true, true)
            &&& passes(ix, 1, market, false, false)
            &&& passes(ix, 2, oracle_key, false, true)
            &&& passes(ix, 3, address::SYSTEM_PROGRAM_ID@, false, false)
            &&& ix.data.len() == 1
            &&& ix.data[0] == 11
        },
{
}

/// `oracle --set` sends the price with its sign; confidence and exponent are 0
/// unless they are given.
pub proof fn price_is_sent_as_asked(
    args: OracleArgs,
    program: Seq<u8>,
    payer: Seq<u8>,
    market: Seq<u8>,
    oracle_key: Seq<u8>,
)
    requires
        !args.init,
        args.set,
        args.price is Some,
    ensures
        oracle::oracle_request(args, program, payer, market, oracle_key) matches Ok(Some(ix)) && {
            &&& ix.program_id == program
            &&& ix.accounts.len() == 2
            &&& passes(ix, 0, payer, true, false)
            &&& passes(ix, 1, oracle_key, false, true)
            &&& ix.data.len() == 21
            &&& ix.data[0] == 12
            &&& bytes::i64_at(ix.data, 1) == args.price->Some_0
            &&& args.conf is Some ==> bytes::u64_at(ix.data, 9) == args.conf->Some_0
            &&& args.conf is None ==> bytes::u64_at(ix.data, 9) == 0
            &&& args.expo is Some ==> bytes::i32_at(ix.data, 17) == args.expo->Some_0
            &&& args.expo is None ==> bytes::i32_at(ix.data, 17) == 0
        },
{
    let price = args.price->Some_0 as int;
    let conf = if args.conf is Some {
        args.conf->Some_0 as nat
    } else {
        0
    };
    let expo = if args.expo is Some {
        args.expo->Some_0 as int
    } else {
        0
    };
    bytes::lemma_pow256_values();
    let p = bytes::le_bytes(bytes::twos_complement(price, 8), 8);
    let c = bytes::le_bytes(conf, 8);
    let e = bytes::le_bytes(bytes::twos_complement(expo, 4), 4);
    lemma_signed(seq![12u8], price, 8, c + e);
    lemma_number(seq![12u8] + p, conf, 8, e);
    lemma_signed(seq![12u8] + p + c, expo, 4, seq![]);
    let d = oracle::price_data(price, conf, expo);
    assert(d =~= seq![12u8] + p + (c + e));
    assert(d =~= (seq![12u8] + p + c) + e + seq![]);
}

/// `oracle` refuses both modes at once and a price that is not given, and sends
/// nothing if no mode is chosen.
pub proof fn oracle_modes_exclude_each_other(
    args: OracleArgs,
    program: Seq<u8>,
    payer: Seq<u8>,
    market: Seq<u8>,
    oracle_key: Seq<u8>,
)
    ensures
        args.init && args.set ==> oracle::oracle_request(args, program, payer, market, oracle_key) is Err,
        args.set && args.price is None ==> oracle::oracle_request(args, program, payer, market, oracle_key) is Err,
        !args.init && !args.set ==> oracle::oracle_request(args, program, payer, market, oracle_key) == Ok::<Option<types::InstructionView>, keys::ErrorView>(None),
{
}

/// `funding --init` asks for the accumulator of the market, with the window that
/// was asked for.
pub proof fn create_funding_is_sent_as_asked(
    args: FundingArgs,
    program: Seq<u8>,
    payer: Seq<u8>,
    market: Seq<u8>,
    funding_key: Seq<u8>,
)
    requires
        args.init,
        !args.update,
    ensures
        funding::funding_request(args, program, payer, market, funding_key) matches Ok(Some(ix)) && {
            &&& ix.program_id == program
            &&& ix.accounts.len() == 4
            &&& passes(ix, 0, payer, true, true)
            &&& passes(ix, 1, market, false, false)
            &&& passes(ix, 2, funding_key, false, true)
            &&& passes(ix, 3, address::SYSTEM_PROGRAM_ID@, false, false)
            &&& ix.data.len() == 9
            &&& ix.data[0] == 14
            &&& bytes::u64_at(ix.data, 1) == args.window_seconds
        },
{
    lemma_amount_data(14, args.window_seconds as nat);
}

/// `funding --update` sends the rate that was asked for, sign included.
pub proof fn rate_is_sent_as_asked(
    args: FundingArgs,
    program: Seq<u8>,
    payer: Seq<u8>,
    market: Seq<u8>,
    funding_key: Seq<u8>,
)
    requires
        !args.init,
        args.update,
        args.rate is Some,
    ensures
        funding::funding_request(args, program, payer, market, funding_key) matches Ok(Some(ix)) && {
            &&& ix.program_id == program
            &&& ix.accounts.len() == 2
            &&& passes(ix, 0, payer, true, false)
            &&& passes(ix, 1, funding_key, false, true)
            &&& ix.data.len() == 9
            &&& ix.data[0] == 15
            &&& bytes::i64_at(ix.data, 1) == args.rate->Some_0
        },
{
    let rate = args.rate->Some_0 as int;
    bytes::lemma_pow256_values();
    lemma_signed(seq![15u8], rate, 8, seq![]);
    let b = bytes::le_bytes(bytes::twos_complement(rate, 8), 8);
    assert(book::amount_data(15, bytes::twos_complement(rate, 8)) =~= seq![15u8] + b + seq![]);
}

/// `funding` refuses both modes at once and a rate that is not given, and sends
/// nothing if no mode is chosen.
pub proof fn funding_modes_exclude_each_other(
    args: FundingArgs,
    program: Seq<u8>,
    payer: Seq<u8>,
    market: Seq<u8>,
    funding_key: Seq<u8>,
)
    ensures
        args.init && args.update ==> funding::funding_request(args, program, payer, market, funding_key) is Err,
        args.update && args.rate is None ==> funding::funding_request(args, program, payer, market, funding_key) is Err,
        !args.init && !args.update ==> funding::funding_request(args, program, payer, market, funding_key) == Ok::<Option<types::InstructionView>, keys::ErrorView>(None),
{
}

/// `position --open` sends the size that was asked for, sign included, and the
/// collateral, which comes from the token account of the user.
pub proof fn open_is_sent_as_asked(
    args: PositionArgs,
    k: PositionKeys,
    user_token: Seq<u8>,
)
    requires
        args.open,
        !args.close,
        !args.liquidate,
        !args.create_insurance_fund,
        !args.deposit_insurance,
        args.size is Some,
        args.collateral is Some,
        names_key(args.user_token_account, user_token),
    ensures
        position::position_request(args, k) matches Ok(Some(ix)) && {
            &&& ix.program_id == k.program@
            &&& ix.accounts.len() == 10
            &&& passes(ix, 0, k.payer@, true, true)
            &&& passes(ix, 1, k.market@, false, false)
            &&& passes(ix, 2, k.position@, false, true)
            &&& passes(ix, 3, k.oracle@, false, false)
            &&& passes(ix, 4, k.funding@, false, false)
            &&& passes(ix, 5, k.mint@, false, false)
            &&& passes(ix, 6, user_token, false, true)
            &&& passes(ix, 7, k.vault@, false, true)
            &&& passes(ix, 8, address::SYSTEM_PROGRAM_ID@, false, false)
            &&& passes(ix, 9, address::SPL_TOKEN_PROGRAM_ID@, false, false)
            &&& ix.data.len() == 17
            &&& ix.data[0] == 16
            &&& bytes::i64_at(ix.data, 1) == args.size->Some_0
            &&& bytes::u64_at(ix.data, 9) == args.collateral->Some_0
        },
{
    two_modes_are_too_many(seq![args.open, args.close, args.liquidate, args.create_insurance_fund, args.deposit_insurance]);
    let size = args.size->Some_0 as int;
    let collateral = args.collateral->Some_0 as nat;
    bytes::lemma_pow256_values();
    let s = bytes::le_bytes(bytes::twos_complement(size, 8), 8);
    let c = bytes::le_bytes(collateral, 8);
    lemma_signed(seq![16u8], size, 8, c);
    lemma_number(seq![16u8] + s, collateral, 8, seq![]);
    let d = position::open_data(size, collateral);
    assert(d =~= seq![16u8] + s + c);
    assert(d =~= (seq![16u8] + s) + c + seq![]);
}

/// `position --close` asks for the position of the payer to be closed, paid out to
/// the token account of the user.
pub proof fn close_is_sent_as_asked(
    args: PositionArgs,
    k: PositionKeys,
    user_token: Seq<u8>,
)
    requires
        !args.open,
        args.close,
        !args.liquidate,
        !args.create_insurance_fund,
        !args.deposit_insurance,
        names_key(args.user_token_account, user_token),
    ensures
        position::position_request(args, k) matches Ok(Some(ix)) && {
            &&& ix.program_id == k.program@
            &&& ix.accounts.len() == 12
            &&& passes(ix, 0, k.payer@, true, false)
            &&& passes(ix, 1, k.position@, false, true)
            &&& passes(ix, 2, k.oracle@, false, false)
            &&& passes(ix, 3, k.funding@, false, false)
            &&& passes(ix, 4, k.market@, false, false)
            &&& passes(ix, 5, k.mint@, false, false)
            &&& passes(ix, 6, user_token, false, true)
            &&& passes(ix, 7, k.vault@, false, true)
            &&& passes(ix, 8, k.vault_auth@, false, false)
            &&& passes(ix, 9, address::SPL_TOKEN_PROGRAM_ID@, false, false)
            &&& passes(ix, 10, k.fund@, false, true)
            &&& passes(ix, 11, k.fund_token@, false, true)
            &&& ix.data.len() == 1
            &&& ix.data[0] == 17
        },
{
    two_modes_are_too_many(seq![args.open, args.close, args.liquidate, args.create_insurance_fund, args.deposit_insurance]);
}

/// `position --liquidate` names the token accounts of the owner and of the
/// liquidator, each in its place.
pub proof fn liquidation_is_sent_as_asked(
    args: PositionArgs,
    k: PositionKeys,
    owner_token: Seq<u8>,
    liquidator_token: Seq<u8>,
)
    requires
        !args.open,
        !args.close,
        args.liquidate,
        !args.create_insurance_fund,
        !args.deposit_insurance,
        names_key(args.owner_token_account, owner_token),
        names_key(args.liquidator_token_account, liquidator_token),
    ensures
        position::position_request(args, k) matches Ok(Some(ix)) && {
            &&& ix.program_id == k.program@
            &&& ix.accounts.len() == 13
            &&& passes(ix, 0, k.payer@, true, false)
            &&& passes(ix, 1, k.position@, false, true)
            &&& passes(ix, 2, k.oracle@, false, false)
            &&& passes(ix, 3, k.funding@, false, false)
            &&& passes(ix, 4, k.market@, false, false)
            &&& passes(ix, 5, k.mint@, false, false)
            &&& passes(ix, 6, owner_token, false, true)
            &&& passes(ix, 7, liquidator_token, false, true)
            &&& passes(ix, 8, k.vault@, false, true)
            &&& passes(ix, 9, k.vault_auth@, false, false)
            &&& passes(ix, 10, address::SPL_TOKEN_PROGRAM_ID@, false, false)
            &&& passes(ix, 11, k.fund@, false, true)
            &&& passes(ix, 12, k.fund_token@, false, true)
            &&& ix.data.len() == 1
            &&& ix.data[0] == 18
        },
{
    two_modes_are_too_many(seq![args.open, args.close, args.liquidate, args.create_insurance_fund, args.deposit_insurance]);
}

/// `position --create-insurance-fund` asks for the fund of the market.
pub proof fn create_fund_is_sent_as_asked(
    args: PositionArgs,
    k: PositionKeys,
)
    requires
        !args.open,
        !args.close,
        !args.liquidate,
        args.create_insurance_fund,
        !args.deposit_insurance,
    ensures
        position::position_request(args, k) matches Ok(Some(ix)) && {
            &&& ix.program_id == k.program@
            &&& ix.accounts.len() == 8
            &&& passes(ix, 0, k.payer@, true, true)
            &&& passes(ix, 1, k.market@, false, false)
            &&& passes(ix, 2, k.mint@, false, false)
            &&& passes(ix, 3, k.fund@, false, true)
            &&& passes(ix, 4, k.fund_token@, false, true)
            &&& passes(ix, 5, k.vault_auth@, false, false)
            &&& passes(ix, 6, address::SYSTEM_PROGRAM_ID@, false, false)
            &&& passes(ix, 7, address::SPL_TOKEN_PROGRAM_ID@, false, false)
            &&& ix.data.len() == 1
            &&& ix.data[0] == 27
        },
{
    two_modes_are_too_many(seq![args.open, args.close, args.liquidate, args.create_insurance_fund, args.deposit_insurance]);
}

/// `position --deposit-insurance` sends the amount that was asked for, from the
/// token account of the user to that of the fund.
pub proof fn fund_deposit_is_sent_as_asked(
    args: PositionArgs,
    k: PositionKeys,
    user_token: Seq<u8>,
)
    requires
        !args.open,
        !args.close,
        !args.liquidate,
        !args.create_insurance_fund,
        args.deposit_insurance,
        args.amount is Some,
        names_key(args.user_token_account, user_token),
    ensures
        position::position_request(args, k) matches Ok(Some(ix)) && {
            &&& ix.program_id == k.program@
            &&& ix.accounts.len() == 7
            &&& passes(ix, 0, k.payer@, true, false)
            &&& passes(ix, 1, k.fund@, false, true)
            &&& passes(ix, 2, k.market@, false, false)
            &&& passes(ix, 3, k.mint@, false, false)
            &&& passes(ix, 4, user_token, false, true)
            &&& passes(ix, 5, k.fund_token@, false, true)
            &&& passes(ix, 6, address::SPL_TOKEN_PROGRAM_ID@, false, false)
            &&& ix.data.len() == 9
            &&& ix.data[0] == 28
            &&& bytes::u64_at(ix.data, 1) == args.amount->Some_0
        },
{
    two_modes_are_too_many(seq![args.open, args.close, args.liquidate, args.create_insurance_fund, args.deposit_insurance]);
    lemma_amount_data(28, args.amount->Some_0 as nat);
}

/// `position` refuses two modes at once, and sends nothing if none is chosen.
pub proof fn position_modes_exclude_each_other(
    args: PositionArgs,
    k: PositionKeys,
)
    ensures
        two_are_set(seq![args.open, args.close, args.liquidate, args.create_insurance_fund, args.deposit_insurance]) ==> position::position_request(args, k) is Err,
        !(args.open || args.close || args.liquidate || args.create_insurance_fund || args.deposit_insurance) ==> position::position_request(args, k) == Ok::<Option<types::InstructionView>, keys::ErrorView>(None),
{
    two_modes_are_too_many(seq![args.open, args.close, args.liquidate, args.create_insurance_fund, args.deposit_insurance]);
}

/// `position` sends nothing if an option that its mode needs is missing.
pub proof fn incomplete_positions_are_not_sent(
    args: PositionArgs,
    k: PositionKeys,
)
    ensures
        args.open && (args.size is None || args.collateral is None || args.user_token_account is None) ==> position::position_request(args, k) is Err,
        args.close && args.user_token_account is None ==> position::position_request(args, k) is Err,
        args.liquidate && (args.owner_token_account is None || args.liquidator_token_account is None) ==> position::position_request(args, k) is Err,
        args.deposit_insurance && (args.amount is None || args.user_token_account is None) ==> position::position_request(args, k) is Err,
        position::mutating(args) <==> args.open || args.close || args.liquidate || args.create_insurance_fund || args.deposit_insurance,
{
    two_modes_are_too_many(seq![args.open, args.close, args.liquidate, args.create_insurance_fund, args.deposit_insurance]);
}

/// A liquidation is about the position of the target, which has to be named; all
/// else is about the position of the payer.
pub proof fn liquidations_are_about_the_target(
    args: PositionArgs,
    payer: Seq<u8>,
    target: Seq<u8>,
)
    ensures
        args.liquidate && names_key(args.target_user, target) ==> position::position_user(args, payer) == Ok::<Seq<u8>, keys::ErrorView>(target),
        args.liquidate && args.target_user is None ==> position::position_user(args, payer) is Err,
        !args.liquidate ==> position::position_user(args, payer) == Ok::<Seq<u8>, keys::ErrorView>(payer),
{
}

/// `vault --init` asks for the vault of the manager, who signs.
pub proof fn create_trading_vault_is_sent_as_asked(
    args: VaultArgs,
    k: VaultKeys,
    mint: Seq<u8>,
)
    requires
        args.init,
        !args.deposit,
        !args.withdraw,
        !args.update_nav,
        names_key(args.mint, mint),
    ensures
        trading_vault::vault_request(args, k) matches Ok(Some(ix)) && {
            &&& ix.program_id == k.program@
            &&& ix.accounts.len() == 6
            &&& passes(ix, 0, k.payer@, true, true)
            &&& passes(ix, 1, k.market@, false, false)
            &&& passes(ix, 2, k.manager@, true, false)
            &&& passes(ix, 3, mint, false, false)
            &&& passes(ix, 4, k.vault@, false, true)
            &&& passes(ix, 5, address::SYSTEM_PROGRAM_ID@, false, false)
            &&& ix.data.len() == 1
            &&& ix.data[0] == 19
        },
{
    two_modes_are_too_many(seq![args.init, args.deposit, args.withdraw, args.update_nav]);
}

/// `vault --deposit` sends the amount that was asked for.
pub proof fn vault_deposit_is_sent_as_asked(
    args: VaultArgs,
    k: VaultKeys,
)
    requires
        !args.init,
        args.deposit,
        !args.withdraw,
        !args.update_nav,
        args.amount is Some,
    ensures
        trading_vault::vault_request(args, k) matches Ok(Some(ix)) && {
            &&& ix.program_id == k.program@
            &&& ix.accounts.len() == 4
            &&& passes(ix, 0, k.payer@, true, true)
            &&& passes(ix, 1, k.vault@, false, true)
            &&& passes(ix, 2, k.share@, false, true)
            &&& passes(ix, 3, address::SYSTEM_PROGRAM_ID@, false, false)
            &&& ix.data.len() == 9
            &&& ix.data[0] == 20
            &&& bytes::u64_at(ix.data, 1) == args.amount->Some_0
        },
{
    two_modes_are_too_many(seq![args.init, args.deposit, args.withdraw, args.update_nav]);
    lemma_amount_data(20, args.amount->Some_0 as nat);
}

/// `vault --withdraw` sends the number of shares that was asked for.
pub proof fn vault_withdrawal_is_sent_as_asked(
    args: VaultArgs,
    k: VaultKeys,
)
    requires
        !args.init,
        !args.deposit,
        args.withdraw,
        !args.update_nav,
        args.shares is Some,
    ensures
        trading_vault::vault_request(args, k) matches Ok(Some(ix)) && {
            &&& ix.program_id == k.program@
            &&& ix.accounts.len() == 3
            &&& passes(ix, 0, k.payer@, true, false)
            &&& passes(ix, 1, k.vault@, false, true)
            &&& passes(ix, 2, k.share@, false, true)
            &&& ix.data.len() == 9
            &&& ix.data[0] == 21
            &&& bytes::u64_at(ix.data, 1) == args.shares->Some_0
        },
{
    two_modes_are_too_many(seq![args.init, args.deposit, args.withdraw, args.update_nav]);
    lemma_amount_data(21, args.shares->Some_0 as nat);
}

/// `vault --update-nav` sends the total assets that were reported.
pub proof fn nav_update_is_sent_as_asked(
    args: VaultArgs,
    k: VaultKeys,
)
    requires
        !args.init,
        !args.deposit,
        !args.withdraw,
        args.update_nav,
        args.total_assets is Some,
    ensures
        trading_vault::vault_request(args, k) matches Ok(Some(ix)) && {
            &&& ix.program_id == k.program@
            &&& ix.accounts.len() == 2
            &&& passes(ix, 0, k.payer@, true, false)
            &&& passes(ix, 1, k.vault@, false, true)
            &&& ix.data.len() == 9
            &&& ix.data[0] == 22
            &&& bytes::u64_at(ix.data, 1) == args.total_assets->Some_0
        },
{
    two_modes_are_too_many(seq![args.init, args.deposit, args.withdraw, args.update_nav]);
    lemma_amount_data(22, args.total_assets->Some_0 as nat);
}

/// `vault` refuses two modes at once, and sends nothing if none is chosen.
pub proof fn vault_modes_exclude_each_other(
    args: VaultArgs,
    k: VaultKeys,
)
    ensures
        two_are_set(seq![args.init, args.deposit, args.withdraw, args.update_nav]) ==> trading_vault::vault_request(args, k) is Err,
        !(args.init || args.deposit || args.withdraw || args.update_nav) ==> trading_vault::vault_request(args, k) == Ok::<Option<types::InstructionView>, keys::ErrorView>(None),
{
    two_modes_are_too_many(seq![args.init, args.deposit, args.withdraw, args.update_nav]);
}

/// A mode of `vault` can be acted on exactly if its option is given, or if more
/// than one mode is chosen, which is refused.
pub proof fn vault_options_are_complete(
    args: VaultArgs,
)
    ensures
        trading_vault::conflicting(args) <==> two_are_set(seq![args.init, args.deposit, args.withdraw, args.update_nav]),
        trading_vault::complete(args) <==> (args.init ==> args.mint is Some) && (args.deposit ==> args.amount is Some) && (args.withdraw ==> args.shares is Some) && (args.update_nav ==> args.total_assets is Some),
{
    two_modes_are_too_many(seq![args.init, args.deposit, args.withdraw, args.update_nav]);
}

/// `builder --create-fee-vault` asks for the fee vault of the mint, at its derived
/// address and with its derived authority.
pub proof fn create_fee_vault_is_sent_as_asked(
    args: BuilderArgs,
    program: Seq<u8>,
    payer: Seq<u8>,
    profile: Seq<u8>,
    mint: Seq<u8>,
    fee_vault: Seq<u8>,
    fee_vault_auth: Seq<u8>,
)
    requires
        args.create_fee_vault,
        !args.register,
        !args.place_with_builder,
        !args.claim,
        names_key(args.mint, mint),
        address::leads_to(program_laws::kind_seeds(AddressKind::FeeVault, mint, seq![]), program, fee_vault),
        address::leads_to(program_laws::kind_seeds(AddressKind::FeeVaultAuthority, mint, seq![]), program, fee_vault_auth),
    ensures
        builder::plan_request(builder::builder_plan(args)->Ok_0, program, payer, profile) matches Some(Some(ix)) && {
            &&& ix.program_id == program
            &&& ix.accounts.len() == 6
            &&& passes(ix, 0, payer, true, true)
            &&& passes(ix, 1, mint, false, false)
            &&& passes(ix, 2, fee_vault, false, true)
            &&& passes(ix, 3, fee_vault_auth, false, false)
            &&& passes(ix, 4, address::SYSTEM_PROGRAM_ID@, false, false)
            &&& passes(ix, 5, address::SPL_TOKEN_PROGRAM_ID@, false, false)
            &&& ix.data.len() == 1
            &&& ix.data[0] == 26
            &&& builder::builder_plan(args) is Ok
        },
{
    two_modes_are_too_many(seq![args.create_fee_vault, args.register, args.place_with_builder, args.claim]);
    assert(program_laws::kind_seeds(AddressKind::FeeVault, mint, seq![]) =~= seq![address::FEE_VAULT_SEED@, mint]);
    assert(program_laws::kind_seeds(AddressKind::FeeVaultAuthority, mint, seq![]) =~= seq![address::FEE_VAULT_AUTH_SEED@, mint]);
}

/// `builder --register` sends the cap on the fee share that was asked for.
pub proof fn registration_is_sent_as_asked(
    args: BuilderArgs,
    program: Seq<u8>,
    payer: Seq<u8>,
    profile: Seq<u8>,
)
    requires
        !args.create_fee_vault,
        args.register,
        !args.place_with_builder,
        !args.claim,
        args.max_share_bps is Some,
    ensures
        builder::plan_request(builder::builder_plan(args)->Ok_0, program, payer, profile) matches Some(Some(ix)) && {
            &&& ix.program_id == program
            &&& ix.accounts.len() == 3
            &&& passes(ix, 0, payer, true, true)
            &&& passes(ix, 1, profile, false, true)
            &&& passes(ix, 2, address::SYSTEM_PROGRAM_ID@, false, false)
            &&& ix.data.len() == 9
            &&& ix.data[0] == 23
            &&& bytes::u64_at(ix.data, 1) == args.max_share_bps->Some_0
            &&& builder::builder_plan(args) is Ok
        },
{
    two_modes_are_too_many(seq![args.create_fee_vault, args.register, args.place_with_builder, args.claim]);
    lemma_amount_data(23, args.max_share_bps->Some_0 as nat);
}

/// `builder --place-with-builder` sends the side, price and size that were asked
/// for, to the book of the market, with fees from the token account of the user to
/// the fee vault of the mint.
pub proof fn builder_order_is_sent_as_asked(
    args: BuilderArgs,
    program: Seq<u8>,
    payer: Seq<u8>,
    profile: Seq<u8>,
    market: Seq<u8>,
    mint: Seq<u8>,
    user_token: Seq<u8>,
    side: u8,
    book_key: Seq<u8>,
    oracle_key: Seq<u8>,
    fee_vault: Seq<u8>,
)
    requires
        !args.create_fee_vault,
        !args.register,
        args.place_with_builder,
        !args.claim,
        names_key(args.market, market),
        names_key(args.mint, mint),
        names_key(args.user_token_account, user_token),
        names_side(args.side, side),
        args.price is Some,
        args.size is Some,
        address::leads_to(program_laws::kind_seeds(AddressKind::Book, market, seq![]), program, book_key),
        address::leads_to(program_laws::kind_seeds(AddressKind::Oracle, market, seq![]), program, oracle_key),
        address::leads_to(program_laws::kind_seeds(AddressKind::FeeVault, mint, seq![]), program, fee_vault),
    ensures
        builder::plan_request(builder::builder_plan(args)->Ok_0, program, payer, profile) matches Some(Some(ix)) && {
            &&& ix.program_id == program
            &&& ix.accounts.len() == 9
            &&& passes(ix, 0, payer, true, true)
            &&& passes(ix, 1, book_key, false, true)
            &&& passes(ix, 2, oracle_key, false, false)
            &&& passes(ix, 3, market, false, false)
            &&& passes(ix, 4, mint, false, false)
            &&& passes(ix, 5, user_token, false, true)
            &&& passes(ix, 6, fee_vault, false, true)
            &&& passes(ix, 7, address::SPL_TOKEN_PROGRAM_ID@, false, false)
            &&& passes(ix, 8, profile, false, true)
            &&& ix.data.len() == 18
            &&& ix.data[0] == 24
            &&& ix.data[1] == side
            &&& bytes::u64_at(ix.data, 2) == args.price->Some_0
            &&& bytes::u64_at(ix.data, 10) == args.size->Some_0
            &&& builder::builder_plan(args) is Ok
        },
{
    two_modes_are_too_many(seq![args.create_fee_vault, args.register, args.place_with_builder, args.claim]);
    assert(program_laws::kind_seeds(AddressKind::FeeVault, mint, seq![]) =~= seq![address::FEE_VAULT_SEED@, mint]);
    assert(program_laws::kind_seeds(AddressKind::Book, market, seq![]) =~= seq![address::BOOK_SEED@, market]);
    assert(program_laws::kind_seeds(AddressKind::Oracle, market, seq![]) =~= seq![address::ORACLE_SEED@, market]);
    lemma_words();
    lemma_order_data(24, side, args.price->Some_0 as nat, args.size->Some_0 as nat, 0);
}

/// `builder --claim` asks for the fees of the profile, paid from the fee vault of
/// the mint to the token account of the builder.
pub proof fn claim_is_sent_as_asked(
    args: BuilderArgs,
    program: Seq<u8>,
    payer: Seq<u8>,
    profile: Seq<u8>,
    mint: Seq<u8>,
    builder_token: Seq<u8>,
    fee_vault: Seq<u8>,
    fee_vault_auth: Seq<u8>,
)
    requires
        !args.create_fee_vault,
        !args.register,
        !args.place_with_builder,
        args.claim,
        names_key(args.mint, mint),
        names_key(args.builder_token_account, builder_token),
        address::leads_to(program_laws::kind_seeds(AddressKind::FeeVault, mint, seq![]), program, fee_vault),
        address::leads_to(program_laws::kind_seeds(AddressKind::FeeVaultAuthority, mint, seq![]), program, fee_vault_auth),
    ensures
        builder::plan_request(builder::builder_plan(args)->Ok_0, program, payer, profile) matches Some(Some(ix)) && {
            &&& ix.program_id == program
            &&& ix.accounts.len() == 7
            &&& passes(ix, 0, payer, true, false)
            &&& passes(ix, 1, profile, false, true)
            &&& passes(ix, 2, mint, false, false)
            &&& passes(ix, 3, fee_vault, false, true)
            &&& passes(ix, 4, fee_vault_auth, false, false)
            &&& passes(ix, 5, builder_token, false, true)
            &&& passes(ix, 6, address::SPL_TOKEN_PROGRAM_ID@, false, false)
            &&& ix.data.len() == 1
            &&& ix.data[0] == 25
            &&& builder::builder_plan(args) is Ok
        },
{
    two_modes_are_too_many(seq![args.create_fee_vault, args.register, args.place_with_builder, args.claim]);
    assert(program_laws::kind_seeds(AddressKind::FeeVault, mint, seq![]) =~= seq![address::FEE_VAULT_SEED@, mint]);
    assert(program_laws::kind_seeds(AddressKind::FeeVaultAuthority, mint, seq![]) =~= seq![address::FEE_VAULT_AUTH_SEED@, mint]);
}

/// `builder` refuses two modes at once and a mode without an option that it needs,
/// and sends nothing if none is chosen.
pub proof fn builder_modes_exclude_each_other(
    args: BuilderArgs,
    program: Seq<u8>,
    payer: Seq<u8>,
    profile: Seq<u8>,
)
    ensures
        two_are_set(seq![args.create_fee_vault, args.register, args.place_with_builder, args.claim]) ==> builder::builder_plan(args) is Err,
        builder::conflicting(args) <==> two_are_set(seq![args.create_fee_vault, args.register, args.place_with_builder, args.claim]),
        !args.create_fee_vault && !args.register && !args.place_with_builder && !args.claim ==> builder::builder_plan(args) is Ok && builder::plan_request(builder::builder_plan(args)->Ok_0, program, payer, profile) == Some(None::<types::InstructionView>),
        (args.create_fee_vault || args.place_with_builder || args.claim) && !args.register && args.mint is None ==> builder::builder_plan(args) is Err,
        args.place_with_builder && (args.market is None || args.user_token_account is None || args.price is None || args.size is None) ==> builder::builder_plan(args) is Err,
        args.place_with_builder && !says(args.side, "bid"@) && !says(args.side, "ask"@) ==> builder::builder_plan(args) is Err,
        args.claim && args.builder_token_account is None ==> builder::builder_plan(args) is Err,
{
    two_modes_are_too_many(seq![args.create_fee_vault, args.register, args.place_with_builder, args.claim]);
}

/// Nothing is sent if an address that the mode needs cannot be derived.
pub proof fn every_builder_address_is_needed(
    mint: Seq<u8>,
    market: Seq<u8>,
    token: Seq<u8>,
    side: u8,
    price: u64,
    size: u64,
    program: Seq<u8>,
    payer: Seq<u8>,
    profile: Seq<u8>,
)
    ensures
        address::program_address(program_laws::kind_seeds(AddressKind::FeeVault, mint, seq![]), program) is None ==> builder::plan_request(builder::PlanView::CreateFeeVault { mint }, program, payer, profile) is None && builder::plan_request(builder::PlanView::Claim { mint, builder_token: token }, program, payer, profile) is None && builder::plan_request(builder::PlanView::Place { market, mint, user_token: token, side, price, size }, program, payer, profile) is None,
{
    assert(program_laws::kind_seeds(AddressKind::FeeVault, mint, seq![]) =~= seq![address::FEE_VAULT_SEED@, mint]);
}

/// The addresses that the commands on positions use are those of the position of
/// the user, and of the oracle, funding, vault and fund of the market.
pub proof fn position_addresses_are_of_their_kind(k: PositionKeys, user: Seq<u8>)
    ensures
        position::derived_for(k, user) <==> {
            let (program, market, mint) = (k.program@, k.market@, k.mint@);
            &&& address::leads_to(program_laws::kind_seeds(AddressKind::Position, user, market), program, k.position@)
            &&& address::leads_to(program_laws::kind_seeds(AddressKind::Oracle, market, mint), program, k.oracle@)
            &&& address::leads_to(program_laws::kind_seeds(AddressKind::Funding, market, mint), program, k.funding@)
            &&& address::leads_to(program_laws::kind_seeds(AddressKind::Vault, market, mint), program, k.vault@)
            &&& address::leads_to(program_laws::kind_seeds(AddressKind::VaultAuthority, market, mint), program, k.vault_auth@)
            &&& address::leads_to(program_laws::kind_seeds(AddressKind::InsuranceFund, market, mint), program, k.fund@)
            &&& address::leads_to(program_laws::kind_seeds(AddressKind::InsuranceFundToken, market, mint), program, k.fund_token@)
        },
{
}

/// `allocate-market` asks the System program for a blank account of 256 bytes that
/// the System program keeps, with the rent that was asked for; payer and account
/// sign.
#[verifier::spinoff_prover]
pub proof fn allocation_is_sent_as_asked(
    payer: Seq<u8>,
    market_key: Seq<u8>,
    lamports: u64,
)
    ensures
        ({
            let ix = system::create_account_view(payer, market_key, lamports as nat, 256, address::SYSTEM_PROGRAM_ID@);
            &&& ix.program_id == address::SYSTEM_PROGRAM_ID@
            &&& ix.accounts.len() == 2
            &&& passes(ix, 0, payer, true, true)
            &&& passes(ix, 1, market_key, true, true)
            &&& ix.data.len() == 52
            &&& bytes::u32_at(ix.data, 0) == 0
            &&& bytes::u64_at(ix.data, 4) == lamports
            &&& bytes::u64_at(ix.data, 12) == 256
            &&& bytes::part(ix.data, 20, 32) == address::SYSTEM_PROGRAM_ID@
        }),
{
    lemma_system_data(payer, market_key, lamports as nat, 256, address::SYSTEM_PROGRAM_ID@);
}

proof fn lemma_system_data(from: Seq<u8>, to: Seq<u8>, lamports: nat, space: nat, owner: Seq<u8>)
    requires
        lamports <= u64::MAX,
        space <= u64::MAX,
        owner.len() == 32,
    ensures
        ({
            let ix = system::create_account_view(from, to, lamports, space, owner);
            let d = ix.data;
            &&& ix.accounts.len() == 2
            &&& passes(ix, 0, from, true, true)
            &&& passes(ix, 1, to, true, true)
            &&& d.len() == 52
            &&& bytes::u32_at(d, 0) == 0
            &&& bytes::u64_at(d, 4) == lamports
            &&& bytes::u64_at(d, 12) == space
            &&& bytes::part(d, 20, 32) == owner
        }),
{
    bytes::lemma_pow256_values();
    let d = system::create_account_view(from, to, lamports, space, owner).data;
    let t = bytes::le_bytes(0, 4);
    let l = bytes::le_bytes(lamports, 8);
    let s = bytes::le_bytes(space, 8);
    lemma_number(seq![], 0, 4, l + s + owner);
    lemma_number(t, lamports, 8, s + owner);
    lemma_number(t + l, space, 8, owner);
    assert(d =~= seq![] + t + (l + s + owner));
    assert(d =~= t + l + (s + owner));
    assert(d =~= (t + l) + s + owner);
    assert(bytes::part(d, 20, 32) =~= owner);
}

/// `init-market` hands the account over to the program, on the signature of the
/// account, in the transaction that initializes it.
pub proof fn assignment_is_sent_as_asked(market_key: Seq<u8>, program: Seq<u8>)
    requires
        program.len() == 32,
    ensures
        ({
            let ix = system::assign_view(market_key, program);
            &&& ix.program_id == address::SYSTEM_PROGRAM_ID@
            &&& ix.accounts.len() == 1
            &&& passes(ix, 0, market_key, true, true)
            &&& ix.data.len() == 36
            &&& bytes::u32_at(ix.data, 0) == 1
            &&& bytes::part(ix.data, 4, 32) == program
        }),
{
    bytes::lemma_pow256_values();
    let d = system::assign_view(market_key, program).data;
    lemma_number(seq![], 1, 4, program);
    assert(d =~= seq![] + bytes::le_bytes(1, 4) + program);
    assert(bytes::part(d, 4, 32) =~= program);
}

/// A limit on compute units, if one is asked for, goes in front and says that
/// many units; the instruction itself is sent as it is.
pub proof fn limit_is_sent_as_asked(units: u32, ix: types::InstructionView)
    ensures
        bench::limited(None, ix) == seq![ix],
        ({
            let sent = bench::limited(Some(units), ix);
            &&& sent.len() == 2
            &&& sent[1] == ix
            &&& sent[0].program_id == system::COMPUTE_BUDGET_PROGRAM_ID@
            &&& sent[0].accounts.len() == 0
            &&& sent[0].data.len() == 5
            &&& sent[0].data[0] == 2
            &&& bytes::u32_at(sent[0].data, 1) == units
        }),
{
    bytes::lemma_pow256_values();
    lemma_number(seq![2u8], units as nat, 4, seq![]);
    let d = system::compute_unit_limit_view(units as nat).data;
    assert(d =~= seq![2u8] + bytes::le_bytes(units as nat, 4) + seq![]);
}

proof fn lemma_market_data(tag: u8, params: MarketParams)
    ensures
        ({
            let d = seq![tag] + params.payload();
            &&& d.len() == 113
            &&& d[0] == tag
            &&& bytes::part(d, 1, 32) == params.authority@
            &&& bytes::part(d, 33, 32) == params.base_mint@
            &&& bytes::part(d, 65, 32) == params.quote_mint@
            &&& bytes::u64_at(d, 97) == params.tick_size
            &&& bytes::u64_at(d, 105) == params.lot_size
        }),
{
    bytes::lemma_pow256_values();
    let d = seq![tag] + params.payload();
    let front = seq![tag] + params.authority@ + params.base_mint@ + params.quote_mint@;
    let t = bytes::le_bytes(params.tick_size as nat, 8);
    let l = bytes::le_bytes(params.lot_size as nat, 8);
    lemma_number(front, params.tick_size as nat, 8, l);
    lemma_number(front + t, params.lot_size as nat, 8, seq![]);
    assert(d =~= front + t + l);
    assert(d =~= (front + t) + l + seq![]);
    assert(bytes::part(d, 1, 32) =~= params.authority@);
    assert(bytes::part(d, 33, 32) =~= params.base_mint@);
    assert(bytes::part(d, 65, 32) =~= params.quote_mint@);
}

/// `init-market` sends the authority, mints, tick size and lot size that were
/// asked for, for the account that was handed over.
pub proof fn initialization_is_sent_as_asked(
    program: Seq<u8>,
    market_key: Seq<u8>,
    params: MarketParams,
)
    ensures
        ({
            let ix = market::initialize_view(program, market_key, params);
            &&& ix.program_id == program
            &&& ix.accounts.len() == 1
            &&& passes(ix, 0, market_key, false, true)
            &&& ix.data.len() == 113
            &&& ix.data[0] == 0
            &&& bytes::part(ix.data, 1, 32) == params.authority@
            &&& bytes::part(ix.data, 33, 32) == params.base_mint@
            &&& bytes::part(ix.data, 65, 32) == params.quote_mint@
            &&& bytes::u64_at(ix.data, 97) == params.tick_size
            &&& bytes::u64_at(ix.data, 105) == params.lot_size
        }),
{
    lemma_market_data(0, params);
}

/// `create-market` sends the authority, mints, tick size and lot size that were
/// asked for; the payer signs and pays.
pub proof fn market_creation_is_sent_as_asked(
    program: Seq<u8>,
    payer: Seq<u8>,
    market_key: Seq<u8>,
    params: MarketParams,
)
    ensures
        ({
            let ix = market::create_market_view(program, payer, market_key, params);
            &&& ix.program_id == program
            &&& ix.accounts.len() == 3
            &&& passes(ix, 0, payer, true, true)
            &&& passes(ix, 1, market_key, false, true)
            &&& passes(ix, 2, address::SYSTEM_PROGRAM_ID@, false, false)
            &&& ix.data.len() == 113
            &&& ix.data[0] == 1
            &&& bytes::part(ix.data, 1, 32) == params.authority@
            &&& bytes::part(ix.data, 33, 32) == params.base_mint@
            &&& bytes::part(ix.data, 65, 32) == params.quote_mint@
            &&& bytes::u64_at(ix.data, 97) == params.tick_size
            &&& bytes::u64_at(ix.data, 105) == params.lot_size
        }),
{
    lemma_market_data(1, params);
}

/// The options of a market are taken as they are given. The payer is the authority
/// unless another is named, and a mint that is not named is the key of zeros.
pub proof fn market_options_are_read_as_given(
    args: MarketArgs,
    context: Seq<char>,
    payer: Seq<u8>,
    program: Seq<u8>,
    authority: Seq<u8>,
    base_mint: Seq<u8>,
    quote_mint: Seq<u8>,
)
    requires
        keys::parsed_key(args.program@) == Ok::<Seq<u8>, keys::KeyError>(program),
        args.authority is None ==> authority == payer,
        args.authority is Some ==> names_key(args.authority, authority),
        args.base_mint is None ==> base_mint.len() == 32 && forall|i: int| 0 <= i < 32 ==> base_mint[i] == 0,
        args.base_mint is Some ==> names_key(args.base_mint, base_mint),
        args.quote_mint is None ==> quote_mint.len() == 32 && forall|i: int| 0 <= i < 32 ==> quote_mint[i] == 0,
        args.quote_mint is Some ==> names_key(args.quote_mint, quote_mint),
    ensures
        market::market_request(args, context, payer) matches Ok(r) && {
            &&& r.program == program
            &&& r.authority == authority
            &&& r.base_mint == base_mint
            &&& r.quote_mint == quote_mint
            &&& r.tick_size == args.tick_size
            &&& r.lot_size == args.lot_size
        },
{
    assert(args.base_mint is None ==> base_mint =~= types::zeros(32));
    assert(args.quote_mint is None ==> quote_mint =~= types::zeros(32));
}

/// `stats --init` asks for the counter; the payer signs and pays.
pub proof fn stats_creation_is_sent_as_asked(
    program: Seq<u8>,
    payer: Seq<u8>,
    stats_key: Seq<u8>,
)
    ensures
        ({
            let ix = stats::stats_view(true, program, payer, stats_key);
            &&& ix.program_id == program
            &&& ix.accounts.len() == 3
            &&& passes(ix, 0, payer, true, true)
            &&& passes(ix, 1, stats_key, false, true)
            &&& passes(ix, 2, address::SYSTEM_PROGRAM_ID@, false, false)
            &&& ix.data.len() == 1
            &&& ix.data[0] == 3
        }),
{
}

/// `stats` asks for the counter to go up; nobody has to sign for that.
pub proof fn bump_is_sent_as_asked(
    program: Seq<u8>,
    payer: Seq<u8>,
    stats_key: Seq<u8>,
)
    ensures
        ({
            let ix = stats::stats_view(false, program, payer, stats_key);
            &&& ix.program_id == program
            &&& ix.accounts.len() == 1
            &&& passes(ix, 0, stats_key, false, true)
            &&& ix.data.len() == 1
            &&& ix.data[0] == 4
        }),
{
}

/// `create-vault` asks for the vault of the mint; the payer signs and pays.
pub proof fn vault_creation_is_sent_as_asked(
    program: Seq<u8>,
    payer: Seq<u8>,
    market_key: Seq<u8>,
    mint: Seq<u8>,
    vault_key: Seq<u8>,
    vault_auth: Seq<u8>,
)
    ensures
        ({
            let ix = vault::create_vault_view(program, payer, market_key, mint, vault_key, vault_auth);
            &&& ix.program_id == program
            &&& ix.accounts.len() == 7
            &&& passes(ix, 0, payer, true, true)
            &&& passes(ix, 1, market_key, false, false)
            &&& passes(ix, 2, mint, false, false)
            &&& passes(ix, 3, vault_key, false, true)
            &&& passes(ix, 4, vault_auth, false, false)
            &&& passes(ix, 5, address::SYSTEM_PROGRAM_ID@, false, false)
            &&& passes(ix, 6, address::SPL_TOKEN_PROGRAM_ID@, false, false)
            &&& ix.data.len() == 1
            &&& ix.data[0] == 5
        }),
{
}

/// `deposit` sends the amount that was asked for, from the token account of the
/// user to the vault, signed by the user.
pub proof fn deposit_is_sent_as_asked(
    program: Seq<u8>,
    user: Seq<u8>,
    user_token: Seq<u8>,
    vault_key: Seq<u8>,
    amount: u64,
)
    ensures
        ({
            let ix = vault::deposit_view(program, user, user_token, vault_key, amount as nat);
            &&& ix.program_id == program
            &&& ix.accounts.len() == 4
            &&& passes(ix, 0, user, true, false)
            &&& passes(ix, 1, user_token, false, true)
            &&& passes(ix, 2, vault_key, false, true)
            &&& passes(ix, 3, address::SPL_TOKEN_PROGRAM_ID@, false, false)
            &&& ix.data.len() == 9
            &&& ix.data[0] == 6
            &&& bytes::u64_at(ix.data, 1) == amount
        }),
{
    bytes::lemma_pow256_values();
    lemma_number(seq![6u8], amount as nat, 8, seq![]);
    assert(seq![6u8] + bytes::le_bytes(amount as nat, 8) =~= seq![6u8] + bytes::le_bytes(amount as nat, 8) + seq![]);
}

/// `bench` sends the number of rounds and of bytes that were asked for, and passes
/// no account.
pub proof fn bench_is_sent_as_asked(
    program: Seq<u8>,
    rounds: u32,
    heap_bytes: u32,
)
    ensures
        ({
            let ix = bench::bench_view(program, rounds as nat, heap_bytes as nat);
            &&& ix.program_id == program
            &&& ix.accounts.len() == 0
            &&& ix.data.len() == 9
            &&& ix.data[0] == 2
            &&& bytes::u32_at(ix.data, 1) == rounds
            &&& bytes::u32_at(ix.data, 5) == heap_bytes
        }),
{
    bytes::lemma_pow256_values();
    let r = bytes::le_bytes(rounds as nat, 4);
    let h = bytes::le_bytes(heap_bytes as nat, 4);
    lemma_number(seq![2u8], rounds as nat, 4, h);
    lemma_number(seq![2u8] + r, heap_bytes as nat, 4, seq![]);
    assert(seq![2u8] + r + h =~= (seq![2u8] + r) + h + seq![]);
}

/// A key that has to be given is the one that the option stands for; without
/// the option, or if it stands for none, there is an error.
pub proof fn keys_are_read_as_given(
    option: Option<Seq<char>>,
    missing: Seq<char>,
    context: Seq<char>,
    default: Seq<u8>,
)
    ensures
        option is None ==> keys::key_required(option, missing, context) == Err::<Seq<u8>, keys::ErrorView>(
            keys::ErrorView::Usage { message: missing },
        ) && keys::key_or(option, context, default) == Ok::<Seq<u8>, keys::ErrorView>(default),
        option matches Some(t) ==> match keys::parsed_key(t) {
            Ok(key) => keys::key_required(option, missing, context) == Ok::<Seq<u8>, keys::ErrorView>(key)
                && keys::key_or(option, context, default) == Ok::<Seq<u8>, keys::ErrorView>(key)
                && keys::key_or_default(option) == Ok::<Seq<u8>, keys::ErrorView>(key),
            Err(why) => keys::key_required(option, missing, context) == Err::<Seq<u8>, keys::ErrorView>(
                keys::ErrorView::BadKey { context, why },
            ) && keys::key_or(option, context, default) is Err && keys::key_or_default(option) is Err,
        },
{
}

} // verus!
