//! Tags of the instructions that only the client sends.

use vstd::prelude::*;

use crate::scenario::instruction_dispatch_demo;

verus! {

pub const CREATE_ORDER_BOOK: u8 = 7;

pub const PLACE_ORDER: u8 = 8;

pub const CANCEL_ORDER: u8 = 9;

pub const MATCH: u8 = 10;

pub const CREATE_ORACLE: u8 = 11;

pub const SET_ORACLE_PRICE: u8 = 12;

pub const CREATE_FUNDING_STATE: u8 = 14;

pub const UPDATE_FUNDING: u8 = 15;

pub const OPEN_POSITION: u8 = 16;

pub const CLOSE_POSITION: u8 = 17;

pub const LIQUIDATE: u8 = 18;

pub const CREATE_TRADING_VAULT: u8 = 19;

pub const VAULT_DEPOSIT: u8 = 20;

pub const VAULT_WITHDRAW: u8 = 21;

pub const VAULT_UPDATE_NAV: u8 = 22;

pub const REGISTER_BUILDER: u8 = 23;

pub const PLACE_ORDER_WITH_BUILDER: u8 = 24;

pub const CLAIM_BUILDER_FEES: u8 = 25;

pub const CREATE_FEE_VAULT: u8 = 26;

pub const CREATE_INSURANCE_FUND: u8 = 27;

pub const INSURANCE_FUND_DEPOSIT: u8 = 28;

pub const CREATE_SLAB: u8 = 29;

pub const SLAB_PLACE_ORDER: u8 = 30;

pub const SLAB_MATCH: u8 = 31;

/// Every tag that the client sends is listed under the name of its
/// instruction.
pub proof fn client_tags_are_listed()
    ensures
        instruction_dispatch_demo::dispatch_table()[CREATE_ORDER_BOOK as int].tag == CREATE_ORDER_BOOK,
        instruction_dispatch_demo::dispatch_table()[CREATE_ORDER_BOOK as int].name == "CreateOrderBook"@,
        instruction_dispatch_demo::dispatch_table()[PLACE_ORDER as int].tag == PLACE_ORDER,
        instruction_dispatch_demo::dispatch_table()[PLACE_ORDER as int].name == "PlaceOrder"@,
        instruction_dispatch_demo::dispatch_table()[CANCEL_ORDER as int].tag == CANCEL_ORDER,
        instruction_dispatch_demo::dispatch_table()[CANCEL_ORDER as int].name == "CancelOrder"@,
        instruction_dispatch_demo::dispatch_table()[MATCH as int].tag == MATCH,
        instruction_dispatch_demo::dispatch_table()[MATCH as int].name == "Match"@,
        instruction_dispatch_demo::dispatch_table()[CREATE_ORACLE as int].tag == CREATE_ORACLE,
        instruction_dispatch_demo::dispatch_table()[CREATE_ORACLE as int].name == "CreateOracle"@,
        instruction_dispatch_demo::dispatch_table()[SET_ORACLE_PRICE as int].tag == SET_ORACLE_PRICE,
        instruction_dispatch_demo::dispatch_table()[SET_ORACLE_PRICE as int].name == "SetOraclePrice"@,
        instruction_dispatch_demo::dispatch_table()[CREATE_FUNDING_STATE as int].tag == CREATE_FUNDING_STATE,
        instruction_dispatch_demo::dispatch_table()[CREATE_FUNDING_STATE as int].name == "CreateFundingState"@,
        instruction_dispatch_demo::dispatch_table()[UPDATE_FUNDING as int].tag == UPDATE_FUNDING,
        instruction_dispatch_demo::dispatch_table()[UPDATE_FUNDING as int].name == "UpdateFunding"@,
        instruction_dispatch_demo::dispatch_table()[OPEN_POSITION as int].tag == OPEN_POSITION,
        instruction_dispatch_demo::dispatch_table()[OPEN_POSITION as int].name == "OpenPosition"@,
        instruction_dispatch_demo::dispatch_table()[CLOSE_POSITION as int].tag == CLOSE_POSITION,
        instruction_dispatch_demo::dispatch_table()[CLOSE_POSITION as int].name == "ClosePosition"@,
        instruction_dispatch_demo::dispatch_table()[LIQUIDATE as int].tag == LIQUIDATE,
        instruction_dispatch_demo::dispatch_table()[LIQUIDATE as int].name == "Liquidate"@,
        instruction_dispatch_demo::dispatch_table()[CREATE_TRADING_VAULT as int].tag == CREATE_TRADING_VAULT,
        instruction_dispatch_demo::dispatch_table()[CREATE_TRADING_VAULT as int].name == "CreateTradingVault"@,
        instruction_dispatch_demo::dispatch_table()[VAULT_DEPOSIT as int].tag == VAULT_DEPOSIT,
        instruction_dispatch_demo::dispatch_table()[VAULT_DEPOSIT as int].name == "VaultDeposit"@,
        instruction_dispatch_demo::dispatch_table()[VAULT_WITHDRAW as int].tag == VAULT_WITHDRAW,
        instruction_dispatch_demo::dispatch_table()[VAULT_WITHDRAW as int].name == "VaultWithdraw"@,
        instruction_dispatch_demo::dispatch_table()[VAULT_UPDATE_NAV as int].tag == VAULT_UPDATE_NAV,
        instruction_dispatch_demo::dispatch_table()[VAULT_UPDATE_NAV as int].name == "VaultUpdateNav"@,
        instruction_dispatch_demo::dispatch_table()[REGISTER_BUILDER as int].tag == REGISTER_BUILDER,
        instruction_dispatch_demo::dispatch_table()[REGISTER_BUILDER as int].name == "RegisterBuilder"@,
        instruction_dispatch_demo::dispatch_table()[PLACE_ORDER_WITH_BUILDER as int].tag == PLACE_ORDER_WITH_BUILDER,
        instruction_dispatch_demo::dispatch_table()[PLACE_ORDER_WITH_BUILDER as int].name == "PlaceOrderWithBuilder"@,
        instruction_dispatch_demo::dispatch_table()[CLAIM_BUILDER_FEES as int].tag == CLAIM_BUILDER_FEES,
        instruction_dispatch_demo::dispatch_table()[CLAIM_BUILDER_FEES as int].name == "ClaimBuilderFees"@,
        instruction_dispatch_demo::dispatch_table()[CREATE_FEE_VAULT as int].tag == CREATE_FEE_VAULT,
        instruction_dispatch_demo::dispatch_table()[CREATE_FEE_VAULT as int].name == "CreateFeeVault"@,
        instruction_dispatch_demo::dispatch_table()[CREATE_INSURANCE_FUND as int].tag == CREATE_INSURANCE_FUND,
        instruction_dispatch_demo::dispatch_table()[CREATE_INSURANCE_FUND as int].name == "CreateInsuranceFund"@,
        instruction_dispatch_demo::dispatch_table()[INSURANCE_FUND_DEPOSIT as int].tag == INSURANCE_FUND_DEPOSIT,
        instruction_dispatch_demo::dispatch_table()[INSURANCE_FUND_DEPOSIT as int].name == "InsuranceFundDeposit"@,
        instruction_dispatch_demo::dispatch_table()[CREATE_SLAB as int].tag == CREATE_SLAB,
        instruction_dispatch_demo::dispatch_table()[CREATE_SLAB as int].name == "CreateSlab"@,
        instruction_dispatch_demo::dispatch_table()[SLAB_PLACE_ORDER as int].tag == SLAB_PLACE_ORDER,
        instruction_dispatch_demo::dispatch_table()[SLAB_PLACE_ORDER as int].name == "SlabPlaceOrder"@,
        instruction_dispatch_demo::dispatch_table()[SLAB_MATCH as int].tag == SLAB_MATCH,
        instruction_dispatch_demo::dispatch_table()[SLAB_MATCH as int].name == "SlabMatch"@,
{
}

} // verus!
