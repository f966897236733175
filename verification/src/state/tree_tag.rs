//! What a node of a critbit tree is.

use vstd::prelude::*;

verus! {

/// On the free list of its tree.
pub const FREE: u8 = 0;

/// Splits the prices below it by one bit.
pub const INNER: u8 = 1;

/// One price level with its queue of orders.
pub const LEAF: u8 = 2;

} // verus!
