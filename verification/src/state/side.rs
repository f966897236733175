//! Side of an order, one byte. Any other value is invalid.

use vstd::prelude::*;

verus! {

/// Buy.
pub const BID: u8 = 0;

/// Sell.
pub const ASK: u8 = 1;

} // verus!
