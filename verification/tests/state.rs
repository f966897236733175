use openhl::state::pyth;
use openhl::state::side;
use openhl::state::tree_tag;
use openhl::state::{
    BuilderProfile, CritbitTree, FundingState, InsuranceFund, Market, Oracle, Order, OrderBook,
    OrderNode, Position, Slab, Stats, TradingVault, TreeNode, VaultShare,
    BUILDER_PROFILE_DISCRIMINATOR, FUNDING_DISCRIMINATOR, INSURANCE_FUND_DISCRIMINATOR,
    MARKET_DISCRIMINATOR, ORACLE_DISCRIMINATOR, ORDER_BOOK_DISCRIMINATOR, ORDER_CAPACITY,
    POSITION_DISCRIMINATOR, SLAB_DISCRIMINATOR, SLAB_NONE_INDEX, SLAB_POOL_CAPACITY,
    SLAB_TREE_CAPACITY, STATS_DISCRIMINATOR, TRADING_VAULT_DISCRIMINATOR,
    VAULT_SHARE_DISCRIMINATOR,
};

#[test]
fn market_size_is_256_bytes() {
    assert_eq!(Market::LEN, 256);
}

#[test]
fn market_alignment_is_8() {
    assert_eq!(core::mem::align_of::<Market>(), 8);
}

#[test]
fn zeroed_market_has_zero_discriminator() {
    let m = Market::zeroed();
    let bytes = m.to_bytes();
    assert_eq!(&bytes[..8], &[0u8; 8]);
    assert_eq!(bytes.len(), 256);
}

#[test]
fn discriminator_is_human_readable() {
    assert_eq!(&MARKET_DISCRIMINATOR, b"MARKET\0\0");
}

#[test]
fn stats_size_is_56_bytes() {
    assert_eq!(Stats::LEN, 56);
}

#[test]
fn stats_discriminator_is_human_readable() {
    assert_eq!(&STATS_DISCRIMINATOR, b"STATS\0\0\0");
}

#[test]
fn order_size_is_64_bytes() {
    assert_eq!(Order::LEN, 64);
}

#[test]
fn order_book_size_matches_layout() {
    // 64 byte header + 32 * 64 byte slots = 2112
    assert_eq!(OrderBook::LEN, 64 + ORDER_CAPACITY * Order::LEN);
    assert_eq!(OrderBook::LEN, 2112);
}

#[test]
fn order_book_discriminator_is_human_readable() {
    assert_eq!(&ORDER_BOOK_DISCRIMINATOR, b"BOOK\0\0\0\0");
}

#[test]
fn oracle_size_is_112_bytes() {
    assert_eq!(Oracle::LEN, 112);
}

#[test]
fn oracle_discriminator_is_human_readable() {
    assert_eq!(&ORACLE_DISCRIMINATOR, b"ORACLE\0\0");
}

#[test]
fn funding_state_size_is_120_bytes() {
    assert_eq!(FundingState::LEN, 120);
}

#[test]
fn funding_discriminator_is_human_readable() {
    assert_eq!(&FUNDING_DISCRIMINATOR, b"FUNDING\0");
}

#[test]
fn position_size_is_144_bytes() {
    assert_eq!(Position::LEN, 144);
}

#[test]
fn position_discriminator_is_human_readable() {
    assert_eq!(&POSITION_DISCRIMINATOR, b"POSITION");
}

#[test]
fn trading_vault_size_is_160_bytes() {
    assert_eq!(TradingVault::LEN, 160);
}

#[test]
fn trading_vault_discriminator_is_human_readable() {
    assert_eq!(&TRADING_VAULT_DISCRIMINATOR, b"TVAULT\0\0");
}

#[test]
fn vault_share_size_is_128_bytes() {
    assert_eq!(VaultShare::LEN, 128);
}

#[test]
fn vault_share_discriminator_is_human_readable() {
    assert_eq!(&VAULT_SHARE_DISCRIMINATOR, b"VSHARE\0\0");
}

#[test]
fn builder_profile_size_is_104_bytes() {
    assert_eq!(BuilderProfile::LEN, 104);
}

#[test]
fn builder_profile_discriminator_is_human_readable() {
    assert_eq!(&BUILDER_PROFILE_DISCRIMINATOR, b"BUILDER\0");
}

#[test]
fn insurance_fund_size_is_136_bytes() {
    assert_eq!(InsuranceFund::LEN, 136);
}

#[test]
fn insurance_fund_discriminator_is_human_readable() {
    assert_eq!(&INSURANCE_FUND_DISCRIMINATOR, b"INSFUND\0");
}

#[test]
fn order_node_size_is_64_bytes() {
    assert_eq!(OrderNode::LEN, 64);
}

#[test]
fn tree_node_size_is_32_bytes() {
    assert_eq!(TreeNode::LEN, 32);
}

#[test]
fn critbit_tree_size_matches_layout() {
    assert_eq!(CritbitTree::LEN, 8 + SLAB_TREE_CAPACITY * TreeNode::LEN);
    assert_eq!(CritbitTree::LEN, 8 + 256 * 32);
}

#[test]
fn slab_size_matches_layout() {
    let expected = 64 + 2 * CritbitTree::LEN + SLAB_POOL_CAPACITY * OrderNode::LEN;
    assert_eq!(Slab::LEN, expected);
}

#[test]
fn slab_discriminator_is_human_readable() {
    assert_eq!(&SLAB_DISCRIMINATOR, b"SLAB\0\0\0\0");
}

#[test]
fn tree_tag_values() {
    assert_eq!(tree_tag::FREE, 0);
    assert_eq!(tree_tag::INNER, 1);
    assert_eq!(tree_tag::LEAF, 2);
}

#[test]
fn sides_and_sentinel_values() {
    assert_eq!(side::BID, 0);
    assert_eq!(side::ASK, 1);
    assert_eq!(SLAB_NONE_INDEX, u16::MAX);
    assert_eq!(FundingState::DEFAULT_WINDOW_SECONDS, 3600);
}

#[test]
fn pyth_price_constants() {
    assert_eq!(pyth::PYTH_V1_MAGIC.to_le_bytes(), [0xd4, 0xc3, 0xb2, 0xa1]);
    assert_eq!(pyth::PYTH_V1_VERSION, 2);
    assert_eq!(pyth::PYTH_V1_ACCOUNT_TYPE_PRICE, 3);
    assert_eq!(pyth::PYTH_V1_STATUS_TRADING, 1);
    assert_eq!(pyth::PYTH_V1_OFFSET_EXPO, 20);
    assert_eq!(pyth::PYTH_V1_OFFSET_AGG_PRICE, 208);
    assert_eq!(pyth::PYTH_V1_OFFSET_AGG_CONF, 216);
    assert_eq!(pyth::PYTH_V1_OFFSET_AGG_STATUS, 224);
    assert_eq!(pyth::PYTH_V1_OFFSET_AGG_PUB_SLOT, 232);
    assert_eq!(pyth::PYTH_V1_MIN_LEN, 240);
}

/// Bytes that differ from position to position.
fn pattern(len: usize) -> Vec<u8> {
    (0..len).map(|i| (i * 7 + i / 256 + 3) as u8).collect()
}

fn u64_of(b: &[u8], at: usize) -> u64 {
    u64::from_le_bytes(b[at..at + 8].try_into().unwrap())
}

fn i64_of(b: &[u8], at: usize) -> i64 {
    i64::from_le_bytes(b[at..at + 8].try_into().unwrap())
}

#[test]
fn market_fields_sit_at_their_offsets() {
    let b = pattern(Market::LEN);
    let m = Market::from_bytes(&b).unwrap();
    assert_eq!(&m.discriminator[..], &b[0..8]);
    assert_eq!(m.version, b[8]);
    assert_eq!(m.bump, b[9]);
    assert_eq!(&m.authority[..], &b[16..48]);
    assert_eq!(&m.base_mint[..], &b[48..80]);
    assert_eq!(&m.quote_mint[..], &b[80..112]);
    assert_eq!(m.tick_size, u64_of(&b, 112));
    assert_eq!(m.lot_size, u64_of(&b, 120));
    assert_eq!(m.to_bytes(), b);
}

#[test]
fn wrong_length_is_not_read() {
    assert!(Market::from_bytes(&pattern(255)).is_none());
    assert!(Market::from_bytes(&pattern(257)).is_none());
    assert!(Stats::from_bytes(&[]).is_none());
    assert!(Slab::from_bytes(&pattern(Slab::LEN - 1)).is_none());
}

#[test]
fn stats_fields_sit_at_their_offsets() {
    let b = pattern(Stats::LEN);
    let s = Stats::from_bytes(&b).unwrap();
    assert_eq!(s.bump, b[8]);
    assert_eq!(s.market_count, u64_of(&b, 16));
    assert_eq!(s.to_bytes(), b);
}

#[test]
fn order_and_book_fields_sit_at_their_offsets() {
    let b = pattern(OrderBook::LEN);
    let book = OrderBook::from_bytes(&b).unwrap();
    assert_eq!(&book.market[..], &b[16..48]);
    assert_eq!(book.next_order_id, u64_of(&b, 48));
    assert_eq!(book.active_count, u32::from_le_bytes(b[56..60].try_into().unwrap()));
    let slot = &book.slots[31];
    let at = 64 + 31 * 64;
    assert_eq!(slot.order_id, u64_of(&b, at));
    assert_eq!(slot.price, u64_of(&b, at + 8));
    assert_eq!(slot.size, u64_of(&b, at + 16));
    assert_eq!(&slot.owner[..], &b[at + 24..at + 56]);
    assert_eq!(slot.side, b[at + 56]);
    assert_eq!(book.to_bytes(), b);
    assert_eq!(slot.to_bytes(), b[at..at + 64].to_vec());
}

#[test]
fn oracle_fields_sit_at_their_offsets() {
    let b = pattern(Oracle::LEN);
    let o = Oracle::from_bytes(&b).unwrap();
    assert_eq!(o.price, i64_of(&b, 48));
    assert_eq!(o.conf, u64_of(&b, 56));
    assert_eq!(o.expo, i32::from_le_bytes(b[64..68].try_into().unwrap()));
    assert_eq!(o.publish_slot, u64_of(&b, 72));
    assert_eq!(o.to_bytes(), b);
}

#[test]
fn negative_values_survive() {
    let mut o = Oracle::zeroed();
    o.price = -1;
    o.expo = i32::MIN;
    let b = o.to_bytes();
    assert_eq!(&b[48..56], &[0xff; 8]);
    assert_eq!(&b[64..68], &[0, 0, 0, 0x80]);
    let back = Oracle::from_bytes(&b).unwrap();
    assert_eq!(back.price, -1);
    assert_eq!(back.expo, i32::MIN);
}

#[test]
fn funding_fields_sit_at_their_offsets() {
    let b = pattern(FundingState::LEN);
    let f = FundingState::from_bytes(&b).unwrap();
    assert_eq!(f.cumulative_funding_index, i64_of(&b, 48));
    assert_eq!(f.last_update_ts, i64_of(&b, 56));
    assert_eq!(f.last_update_slot, u64_of(&b, 64));
    assert_eq!(f.current_rate_per_sec, i64_of(&b, 72));
    assert_eq!(f.window_seconds, u64_of(&b, 80));
    assert_eq!(f.to_bytes(), b);
}

#[test]
fn position_fields_sit_at_their_offsets() {
    let b = pattern(Position::LEN);
    let p = Position::from_bytes(&b).unwrap();
    assert_eq!(&p.user[..], &b[16..48]);
    assert_eq!(&p.market[..], &b[48..80]);
    assert_eq!(p.size, i64_of(&b, 80));
    assert_eq!(p.entry_price, u64_of(&b, 88));
    assert_eq!(p.collateral, u64_of(&b, 96));
    assert_eq!(p.funding_snapshot_index, i64_of(&b, 104));
    assert_eq!(p.to_bytes(), b);
}

#[test]
fn vault_fields_sit_at_their_offsets() {
    let b = pattern(TradingVault::LEN);
    let v = TradingVault::from_bytes(&b).unwrap();
    assert_eq!(&v.manager[..], &b[48..80]);
    assert_eq!(&v.mint[..], &b[80..112]);
    assert_eq!(v.total_shares, u64_of(&b, 112));
    assert_eq!(v.total_assets, u64_of(&b, 120));
    assert_eq!(v.to_bytes(), b);
    let b = pattern(VaultShare::LEN);
    let s = VaultShare::from_bytes(&b).unwrap();
    assert_eq!(&s.vault[..], &b[16..48]);
    assert_eq!(&s.owner[..], &b[48..80]);
    assert_eq!(s.shares, u64_of(&b, 80));
    assert_eq!(s.cost_basis, u64_of(&b, 88));
    assert_eq!(s.to_bytes(), b);
}

#[test]
fn builder_and_fund_fields_sit_at_their_offsets() {
    let b = pattern(BuilderProfile::LEN);
    let p = BuilderProfile::from_bytes(&b).unwrap();
    assert_eq!(&p.builder[..], &b[16..48]);
    assert_eq!(p.max_fee_share_bps, u64_of(&b, 48));
    assert_eq!(p.accumulated_fees, u64_of(&b, 56));
    assert_eq!(p.total_volume, u64_of(&b, 64));
    assert_eq!(p.to_bytes(), b);
    let b = pattern(InsuranceFund::LEN);
    let f = InsuranceFund::from_bytes(&b).unwrap();
    assert_eq!(&f.mint[..], &b[48..80]);
    assert_eq!(f.balance, u64_of(&b, 80));
    assert_eq!(f.total_deposits, u64_of(&b, 88));
    assert_eq!(f.total_drawdowns, u64_of(&b, 96));
    assert_eq!(f.to_bytes(), b);
}

#[test]
fn slab_fields_sit_at_their_offsets() {
    let b = pattern(Slab::LEN);
    let s = Slab::from_bytes(&b).unwrap();
    assert_eq!(s.next_order_id, u64_of(&b, 48));
    assert_eq!(s.pool_free_head, u16::from_le_bytes([b[60], b[61]]));
    assert_eq!(s.bid_tree.root, u16::from_le_bytes([b[64], b[65]]));
    assert_eq!(s.ask_tree.free_head, u16::from_le_bytes([b[8266], b[8267]]));
    let at = 64 + 8 + 255 * 32;
    let node = &s.bid_tree.nodes[255];
    assert_eq!(node.tag, b[at]);
    assert_eq!(node.split_bit, b[at + 1]);
    assert_eq!(node.left_child, u16::from_le_bytes([b[at + 4], b[at + 5]]));
    assert_eq!(node.right_child, u16::from_le_bytes([b[at + 6], b[at + 7]]));
    assert_eq!(node.price, u64_of(&b, at + 16));
    let at = 16464 + 1023 * 64;
    let order = &s.nodes[1023];
    assert_eq!(order.order_id, u64_of(&b, at));
    assert_eq!(order.size, u64_of(&b, at + 40));
    assert_eq!(order.next, u16::from_le_bytes([b[at + 48], b[at + 49]]));
    assert_eq!(order.prev, u16::from_le_bytes([b[at + 50], b[at + 51]]));
    assert_eq!(s.to_bytes(), b);
    assert_eq!(node.to_bytes(), b[64 + 8 + 255 * 32..64 + 8 + 256 * 32].to_vec());
}
