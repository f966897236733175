//! The command for price oracles.

use vstd::prelude::*;
use vstd::string::StringExecFns;

use crate::bytes;
use crate::client::book;
use crate::client::common;
use crate::client::keys;
use crate::client::keys::ClientError;
use crate::client::tags;
use crate::program::address;
use crate::program::types;
use crate::program::types::Instruction;
use crate::state::Oracle;
use crate::text;

verus! {

/// The options of `oracle` that say what to do.
#[derive(Debug, Clone, Copy)]
pub struct OracleArgs {
    pub init: bool,
    pub set: bool,
    pub price: Option<i64>,
    pub conf: Option<u64>,
    pub expo: Option<i32>,
}

/// The data of a new price: tag, price, confidence and exponent.
pub open spec fn price_data(price: int, conf: nat, expo: int) -> Seq<u8> {
    seq![tags::SET_ORACLE_PRICE] + bytes::le_bytes(bytes::twos_complement(price, 8), 8)
        + bytes::le_bytes(conf, 8) + bytes::le_bytes(bytes::twos_complement(expo, 4), 4)
}

/// What `oracle` asks of the program. Confidence and exponent are 0 unless
/// they are given.
pub open spec fn oracle_request(
    args: OracleArgs,
    program: Seq<u8>,
    payer: Seq<u8>,
    market: Seq<u8>,
    oracle: Seq<u8>,
) -> keys::Request {
    if args.init && args.set {
        Err(keys::usage("--init and --set are mutually exclusive"@))
    } else if args.init {
        Ok(
            Some(
                types::InstructionView {
                    program_id: program,
                    accounts: book::creation_accounts(payer, market, oracle),
                    data: seq![tags::CREATE_ORACLE],
                },
            ),
        )
    } else if args.set {
        match args.price {
            None => Err(keys::usage("--price required"@)),
            Some(price) => Ok(
                Some(
                    types::InstructionView {
                        program_id: program,
                        accounts: book::signer_and_account(payer, oracle),
                        data: price_data(
                            price as int,
                            match args.conf {
                                Some(conf) => conf as nat,
                                None => 0,
                            },
                            match args.expo {
                                Some(expo) => expo as int,
                                None => 0,
                            },
                        ),
                    },
                ),
            ),
        }
    } else {
        Ok(None)
    }
}

/// What `oracle` asks of the program; nothing if it only shows the oracle.
pub fn oracle_instruction(
    args: &OracleArgs,
    program: &[u8; 32],
    payer: &[u8; 32],
    market: &[u8; 32],
    oracle: &[u8; 32],
) -> (r: Result<Option<Instruction>, ClientError>)
    ensures
        keys::request(r) == oracle_request(*args, program@, payer@, market@, oracle@),
{
    if args.init && args.set {
        return Err(keys::usage_error("--init and --set are mutually exclusive"));
    }
    if args.init {
        let data: Vec<u8> = vec![tags::CREATE_ORACLE];
        assert(data@ =~= seq![tags::CREATE_ORACLE]);
        Ok(Some(common::instruction(program, book::creation_metas(payer, market, oracle), data)))
    } else if args.set {
        let price: i64 = match args.price {
            Some(price) => price,
            None => return Err(keys::usage_error("--price required")),
        };
        let conf: u64 = match args.conf {
            Some(conf) => conf,
            None => 0,
        };
        let expo: i32 = match args.expo {
            Some(expo) => expo,
            None => 0,
        };
        let mut data: Vec<u8> = vec![tags::SET_ORACLE_PRICE];
        bytes::push_i64(&mut data, price);
        bytes::push_u64(&mut data, conf);
        bytes::push_i32(&mut data, expo);
        assert(data@ =~= price_data(price as int, conf as nat, expo as int));
        Ok(
            Some(
                common::instruction(program, book::signer_and_account_metas(payer, oracle), data),
            ),
        )
    } else {
        Ok(None)
    }
}

/// The address of the oracle of a market, and its bump.
pub fn oracle_address(program: &[u8; 32], market: &[u8; 32]) -> (r: Option<([u8; 32], u8)>)
    ensures
        address::derived(r) == address::program_address(
            seq![address::ORACLE_SEED@, market@],
            program@,
        ),
{
    address::derive_with_key(&address::ORACLE_SEED, market, program)
}

/// An oracle, as it stands in the slot `current_slot`.
pub open spec fn oracle_text(oracle: Oracle, current_slot: u64) -> Seq<char> {
    "  market:        "@ + address::key_text(oracle.market@) + "\n  price:         "@
        + text::decimal_int(oracle.price as int) + "\n  conf:          "@ + text::decimal(
        oracle.conf as nat,
    ) + "\n  expo:          "@ + text::decimal_int(oracle.expo as int)
        + "\n  publish_slot:  "@ + text::decimal(oracle.publish_slot as nat)
        + "\n  bump:          "@ + text::decimal(oracle.bump as nat) + "\n  discriminator: ["@
        + text::comma_list(oracle.discriminator@) + "]\n\n  current_slot:  "@ + text::decimal(
        current_slot as nat,
    ) + "\n  age (slots):   "@ + text::decimal(
        common::slots_since(current_slot, oracle.publish_slot),
    ) + "\n"@
}

/// An oracle, as it stands in the slot `current_slot`.
pub fn describe_oracle(oracle: &Oracle, current_slot: u64) -> (r: String)
    ensures
        r@ == oracle_text(*oracle, current_slot),
{
    let age: u64 = common::age_in_slots(current_slot, oracle.publish_slot);
    let mut r: String = "  market:        ".to_owned();
    r.append(address::show_key(&oracle.market).as_str());
    r.append("\n  price:         ");
    r.append(text::decimal_int_text(oracle.price as i128).as_str());
    r.append("\n  conf:          ");
    r.append(text::decimal_text(oracle.conf as u128).as_str());
    r.append("\n  expo:          ");
    r.append(text::decimal_int_text(oracle.expo as i128).as_str());
    r.append("\n  publish_slot:  ");
    r.append(text::decimal_text(oracle.publish_slot as u128).as_str());
    r.append("\n  bump:          ");
    r.append(text::decimal_text(oracle.bump as u128).as_str());
    r.append("\n  discriminator: [");
    r.append(text::comma_text(&oracle.discriminator).as_str());
    r.append("]\n\n  current_slot:  ");
    r.append(text::decimal_text(current_slot as u128).as_str());
    r.append("\n  age (slots):   ");
    r.append(text::decimal_text(age as u128).as_str());
    r.append("\n");
    r
}

/// What `oracle` prints before it sends anything.
pub open spec fn oracle_header_text(
    rpc: Seq<char>,
    payer: Seq<u8>,
    program: Seq<u8>,
    market: Seq<u8>,
    oracle: Seq<u8>,
    bump: nat,
) -> Seq<char> {
    "rpc:        "@ + rpc + "\npayer:      "@ + address::key_text(payer) + "\nprogram:    "@
        + address::key_text(program) + "\nmarket:     "@ + address::key_text(market) + "\noracle PDA: "@
        + address::key_text(oracle) + "  (bump "@ + text::decimal(bump) + ")\n\n"@
}

/// What `oracle` prints before it sends anything.
pub fn oracle_header(
    rpc: &str,
    payer: &[u8; 32],
    program: &[u8; 32],
    market: &[u8; 32],
    oracle: &[u8; 32],
    bump: u8,
) -> (r: String)
    ensures
        r@ == oracle_header_text(rpc@, payer@, program@, market@, oracle@, bump as nat),
{
    let mut r: String = "rpc:        ".to_owned();
    r.append(rpc);
    r.append("\npayer:      ");
    r.append(address::show_key(payer).as_str());
    r.append("\nprogram:    ");
    r.append(address::show_key(program).as_str());
    r.append("\nmarket:     ");
    r.append(address::show_key(market).as_str());
    r.append("\noracle PDA: ");
    r.append(address::show_key(oracle).as_str());
    r.append("  (bump ");
    r.append(text::decimal_text(bump as u128).as_str());
    r.append(")\n\n");
    r
}

} // verus!
