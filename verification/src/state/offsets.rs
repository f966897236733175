//! The table of offsets of every account type, and the tag that it starts with.

use vstd::prelude::*;

use crate::bytes;
use crate::state::{
    BuilderProfile, CritbitTree, FundingState, InsuranceFund, Market, Oracle, Order, OrderBook,
    OrderNode, Position, Slab, Stats, TradingVault, TreeNode, VaultShare,
};
use crate::state::{
    BUILDER_PROFILE_DISCRIMINATOR, FUNDING_DISCRIMINATOR, INSURANCE_FUND_DISCRIMINATOR,
    MARKET_DISCRIMINATOR, ORACLE_DISCRIMINATOR, ORDER_BOOK_DISCRIMINATOR, POSITION_DISCRIMINATOR,
    SLAB_DISCRIMINATOR, STATS_DISCRIMINATOR, TRADING_VAULT_DISCRIMINATOR,
    VAULT_SHARE_DISCRIMINATOR,
};

verus! {

/// A `Market` takes up 256 bytes, and its fields stand at these offsets.
pub proof fn market_fields_have_their_place(v: Market, b: Seq<u8>)
    ensures
        v.laid_out(b) <==> {
            &&& b.len() == 256
            &&& b.subrange(0, 8) == v.discriminator@
            &&& b[8] == v.version
            &&& b[9] == v.bump
            &&& b.subrange(10, 16) == v._pad0@
            &&& b.subrange(16, 48) == v.authority@
            &&& b.subrange(48, 80) == v.base_mint@
            &&& b.subrange(80, 112) == v.quote_mint@
            &&& bytes::u64_at(b, 112) == v.tick_size
            &&& bytes::u64_at(b, 120) == v.lot_size
            &&& b.subrange(128, 256) == v._reserved@
        },
{
}

/// A `Stats` takes up 56 bytes, and its fields stand at these offsets.
pub proof fn stats_fields_have_their_place(v: Stats, b: Seq<u8>)
    ensures
        v.laid_out(b) <==> {
            &&& b.len() == 56
            &&& b.subrange(0, 8) == v.discriminator@
            &&& b[8] == v.bump
            &&& b.subrange(9, 16) == v._pad0@
            &&& bytes::u64_at(b, 16) == v.market_count
            &&& b.subrange(24, 56) == v._reserved@
        },
{
}

/// An `Order` takes up 64 bytes, and its fields stand at these offsets.
pub proof fn order_fields_have_their_place(v: Order, b: Seq<u8>)
    ensures
        v.laid_out(b) <==> {
            &&& b.len() == 64
            &&& bytes::u64_at(b, 0) == v.order_id
            &&& bytes::u64_at(b, 8) == v.price
            &&& bytes::u64_at(b, 16) == v.size
            &&& b.subrange(24, 56) == v.owner@
            &&& b[56] == v.side
            &&& b.subrange(57, 64) == v._pad@
        },
{
}

/// An `OrderBook` takes up 2112 bytes, and its fields stand at these offsets.
pub proof fn order_book_fields_have_their_place(v: OrderBook, b: Seq<u8>)
    ensures
        v.laid_out(b) <==> {
            &&& b.len() == 2112
            &&& b.subrange(0, 8) == v.discriminator@
            &&& b[8] == v.bump
            &&& b.subrange(9, 16) == v._pad0@
            &&& b.subrange(16, 48) == v.market@
            &&& bytes::u64_at(b, 48) == v.next_order_id
            &&& bytes::u32_at(b, 56) == v.active_count
            &&& b.subrange(60, 64) == v._pad1@
            &&& forall|i: int| 0 <= i < 32 ==> (#[trigger] v.slots@[i]).laid_out(b.subrange(64 + 64 * i, 128 + 64 * i))
        },
{
}

/// An `Oracle` takes up 112 bytes, and its fields stand at these offsets.
pub proof fn oracle_fields_have_their_place(v: Oracle, b: Seq<u8>)
    ensures
        v.laid_out(b) <==> {
            &&& b.len() == 112
            &&& b.subrange(0, 8) == v.discriminator@
            &&& b[8] == v.bump
            &&& b.subrange(9, 16) == v._pad0@
            &&& b.subrange(16, 48) == v.market@
            &&& bytes::i64_at(b, 48) == v.price
            &&& bytes::u64_at(b, 56) == v.conf
            &&& bytes::i32_at(b, 64) == v.expo
            &&& b.subrange(68, 72) == v._pad1@
            &&& bytes::u64_at(b, 72) == v.publish_slot
            &&& b.subrange(80, 112) == v._reserved@
        },
{
}

/// A `FundingState` takes up 120 bytes, and its fields stand at these offsets.
pub proof fn funding_state_fields_have_their_place(v: FundingState, b: Seq<u8>)
    ensures
        v.laid_out(b) <==> {
            &&& b.len() == 120
            &&& b.subrange(0, 8) == v.discriminator@
            &&& b[8] == v.bump
            &&& b.subrange(9, 16) == v._pad0@
            &&& b.subrange(16, 48) == v.market@
            &&& bytes::i64_at(b, 48) == v.cumulative_funding_index
            &&& bytes::i64_at(b, 56) == v.last_update_ts
            &&& bytes::u64_at(b, 64) == v.last_update_slot
            &&& bytes::i64_at(b, 72) == v.current_rate_per_sec
            &&& bytes::u64_at(b, 80) == v.window_seconds
            &&& b.subrange(88, 120) == v._reserved@
        },
{
}

/// A `Position` takes up 144 bytes, and its fields stand at these offsets.
pub proof fn position_fields_have_their_place(v: Position, b: Seq<u8>)
    ensures
        v.laid_out(b) <==> {
            &&& b.len() == 144
            &&& b.subrange(0, 8) == v.discriminator@
            &&& b[8] == v.bump
            &&& b.subrange(9, 16) == v._pad0@
            &&& b.subrange(16, 48) == v.user@
            &&& b.subrange(48, 80) == v.market@
            &&& bytes::i64_at(b, 80) == v.size
            &&& bytes::u64_at(b, 88) == v.entry_price
            &&& bytes::u64_at(b, 96) == v.collateral
            &&& bytes::i64_at(b, 104) == v.funding_snapshot_index
            &&& b.subrange(112, 144) == v._reserved@
        },
{
}

/// A `TradingVault` takes up 160 bytes, and its fields stand at these offsets.
pub proof fn trading_vault_fields_have_their_place(v: TradingVault, b: Seq<u8>)
    ensures
        v.laid_out(b) <==> {
            &&& b.len() == 160
            &&& b.subrange(0, 8) == v.discriminator@
            &&& b[8] == v.bump
            &&& b.subrange(9, 16) == v._pad0@
            &&& b.subrange(16, 48) == v.market@
            &&& b.subrange(48, 80) == v.manager@
            &&& b.subrange(80, 112) == v.mint@
            &&& bytes::u64_at(b, 112) == v.total_shares
            &&& bytes::u64_at(b, 120) == v.total_assets
            &&& b.subrange(128, 160) == v._reserved@
        },
{
}

/// A `VaultShare` takes up 128 bytes, and its fields stand at these offsets.
pub proof fn vault_share_fields_have_their_place(v: VaultShare, b: Seq<u8>)
    ensures
        v.laid_out(b) <==> {
            &&& b.len() == 128
            &&& b.subrange(0, 8) == v.discriminator@
            &&& b[8] == v.bump
            &&& b.subrange(9, 16) == v._pad0@
            &&& b.subrange(16, 48) == v.vault@
            &&& b.subrange(48, 80) == v.owner@
            &&& bytes::u64_at(b, 80) == v.shares
            &&& bytes::u64_at(b, 88) == v.cost_basis
            &&& b.subrange(96, 128) == v._reserved@
        },
{
}

/// A `BuilderProfile` takes up 104 bytes, and its fields stand at these offsets.
pub proof fn builder_profile_fields_have_their_place(v: BuilderProfile, b: Seq<u8>)
    ensures
        v.laid_out(b) <==> {
            &&& b.len() == 104
            &&& b.subrange(0, 8) == v.discriminator@
            &&& b[8] == v.bump
            &&& b.subrange(9, 16) == v._pad0@
            &&& b.subrange(16, 48) == v.builder@
            &&& bytes::u64_at(b, 48) == v.max_fee_share_bps
            &&& bytes::u64_at(b, 56) == v.accumulated_fees
            &&& bytes::u64_at(b, 64) == v.total_volume
            &&& b.subrange(72, 104) == v._reserved@
        },
{
}

/// An `InsuranceFund` takes up 136 bytes, and its fields stand at these offsets.
pub proof fn insurance_fund_fields_have_their_place(v: InsuranceFund, b: Seq<u8>)
    ensures
        v.laid_out(b) <==> {
            &&& b.len() == 136
            &&& b.subrange(0, 8) == v.discriminator@
            &&& b[8] == v.bump
            &&& b.subrange(9, 16) == v._pad0@
            &&& b.subrange(16, 48) == v.market@
            &&& b.subrange(48, 80) == v.mint@
            &&& bytes::u64_at(b, 80) == v.balance
            &&& bytes::u64_at(b, 88) == v.total_deposits
            &&& bytes::u64_at(b, 96) == v.total_drawdowns
            &&& b.subrange(104, 136) == v._reserved@
        },
{
}

/// An `OrderNode` takes up 64 bytes, and its fields stand at these offsets.
pub proof fn order_node_fields_have_their_place(v: OrderNode, b: Seq<u8>)
    ensures
        v.laid_out(b) <==> {
            &&& b.len() == 64
            &&& bytes::u64_at(b, 0) == v.order_id
            &&& b.subrange(8, 40) == v.owner@
            &&& bytes::u64_at(b, 40) == v.size
            &&& bytes::u16_at(b, 48) == v.next
            &&& bytes::u16_at(b, 50) == v.prev
            &&& b.subrange(52, 64) == v._pad@
        },
{
}

/// A `TreeNode` takes up 32 bytes, and its fields stand at these offsets.
pub proof fn tree_node_fields_have_their_place(v: TreeNode, b: Seq<u8>)
    ensures
        v.laid_out(b) <==> {
            &&& b.len() == 32
            &&& b[0] == v.tag
            &&& b[1] == v.split_bit
            &&& bytes::u16_at(b, 2) == v.next_free
            &&& bytes::u16_at(b, 4) == v.left_child
            &&& bytes::u16_at(b, 6) == v.right_child
            &&& bytes::u16_at(b, 8) == v.head_node
            &&& bytes::u16_at(b, 10) == v.tail_node
            &&& bytes::u32_at(b, 12) == v.order_count
            &&& bytes::u64_at(b, 16) == v.price
            &&& b.subrange(24, 32) == v._pad@
        },
{
}

/// A `CritbitTree` takes up 8200 bytes, and its fields stand at these offsets.
pub proof fn critbit_tree_fields_have_their_place(v: CritbitTree, b: Seq<u8>)
    ensures
        v.laid_out(b) <==> {
            &&& b.len() == 8200
            &&& bytes::u16_at(b, 0) == v.root
            &&& bytes::u16_at(b, 2) == v.free_head
            &&& b.subrange(4, 8) == v._pad@
            &&& forall|i: int| 0 <= i < 256 ==> (#[trigger] v.nodes@[i]).laid_out(b.subrange(8 + 32 * i, 40 + 32 * i))
        },
{
}

/// A `Slab` takes up 82000 bytes, and its fields stand at these offsets.
pub proof fn slab_fields_have_their_place(v: Slab, b: Seq<u8>)
    ensures
        v.laid_out(b) <==> {
            &&& b.len() == 82000
            &&& b.subrange(0, 8) == v.discriminator@
            &&& b[8] == v.bump
            &&& b.subrange(9, 16) == v._pad0@
            &&& b.subrange(16, 48) == v.market@
            &&& bytes::u64_at(b, 48) == v.next_order_id
            &&& bytes::u32_at(b, 56) == v.active_count
            &&& bytes::u16_at(b, 60) == v.pool_free_head
            &&& b.subrange(62, 64) == v._pad1@
            &&& v.bid_tree.laid_out(b.subrange(64, 8264))
            &&& v.ask_tree.laid_out(b.subrange(8264, 16464))
            &&& forall|i: int| 0 <= i < 1024 ==> (#[trigger] v.nodes@[i]).laid_out(b.subrange(16464 + 64 * i, 16528 + 64 * i))
        },
{
}

/// A tag spells a word in ASCII, filled with zeros to eight bytes.
pub open spec fn spells(tag: Seq<u8>, word: Seq<char>) -> bool {
    &&& tag.len() == 8
    &&& word.len() <= 8
    &&& forall|i: int| 0 <= i < word.len() ==> #[trigger] tag[i] as char == word[i]
    &&& forall|i: int| word.len() <= i < 8 ==> #[trigger] tag[i] == 0
}

/// The tag of every account type spells its word.
pub proof fn tags_spell_their_words()
    ensures
        spells(MARKET_DISCRIMINATOR@, "MARKET"@),
        spells(STATS_DISCRIMINATOR@, "STATS"@),
        spells(ORDER_BOOK_DISCRIMINATOR@, "BOOK"@),
        spells(ORACLE_DISCRIMINATOR@, "ORACLE"@),
        spells(FUNDING_DISCRIMINATOR@, "FUNDING"@),
        spells(POSITION_DISCRIMINATOR@, "POSITION"@),
        spells(TRADING_VAULT_DISCRIMINATOR@, "TVAULT"@),
        spells(VAULT_SHARE_DISCRIMINATOR@, "VSHARE"@),
        spells(BUILDER_PROFILE_DISCRIMINATOR@, "BUILDER"@),
        spells(INSURANCE_FUND_DISCRIMINATOR@, "INSFUND"@),
        spells(SLAB_DISCRIMINATOR@, "SLAB"@),
{
    reveal_strlit("MARKET");
    reveal_strlit("STATS");
    reveal_strlit("BOOK");
    reveal_strlit("ORACLE");
    reveal_strlit("FUNDING");
    reveal_strlit("POSITION");
    reveal_strlit("TVAULT");
    reveal_strlit("VSHARE");
    reveal_strlit("BUILDER");
    reveal_strlit("INSFUND");
    reveal_strlit("SLAB");
}

} // verus!
