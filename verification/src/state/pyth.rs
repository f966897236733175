//! Where a Pyth v1 price account holds what a mark price needs. The rest of
//! the account, publisher data and averages, is not read.

use vstd::prelude::*;

verus! {

/// First four bytes of every Pyth v1 account, as a little-endian number.
pub const PYTH_V1_MAGIC: u32 = 0xa1b2_c3d4;

/// Version of the v1 layout.
pub const PYTH_V1_VERSION: u32 = 2;

/// Account type of a price account; mapping and product accounts share the
/// magic number.
pub const PYTH_V1_ACCOUNT_TYPE_PRICE: u32 = 3;

/// Status of an aggregate price that can be traded on. Any other status means
/// that there is no such price at the moment.
pub const PYTH_V1_STATUS_TRADING: u32 = 1;

/// Offset of the exponent, `i32`.
pub const PYTH_V1_OFFSET_EXPO: usize = 20;

/// Offset of the aggregate price, `i64`.
pub const PYTH_V1_OFFSET_AGG_PRICE: usize = 208;

/// Offset of the aggregate confidence interval, `u64`.
pub const PYTH_V1_OFFSET_AGG_CONF: usize = 216;

/// Offset of the aggregate status, `u32`.
pub const PYTH_V1_OFFSET_AGG_STATUS: usize = 224;

/// Offset of the slot of the aggregate price, `u64`.
pub const PYTH_V1_OFFSET_AGG_PUB_SLOT: usize = 232;

/// Length of data that holds all of these fields.
pub const PYTH_V1_MIN_LEN: usize = 240;

/// The fields do not overlap, and data of the minimal length ends with the
/// last of them.
pub proof fn price_fields_fit()
    ensures
        PYTH_V1_OFFSET_EXPO + 4 <= PYTH_V1_OFFSET_AGG_PRICE,
        PYTH_V1_OFFSET_AGG_PRICE + 8 <= PYTH_V1_OFFSET_AGG_CONF,
        PYTH_V1_OFFSET_AGG_CONF + 8 <= PYTH_V1_OFFSET_AGG_STATUS,
        PYTH_V1_OFFSET_AGG_STATUS + 4 <= PYTH_V1_OFFSET_AGG_PUB_SLOT,
        PYTH_V1_OFFSET_AGG_PUB_SLOT + 8 == PYTH_V1_MIN_LEN,
{
}

} // verus!
