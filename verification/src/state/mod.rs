//! Account layouts.
//!
//! The byte layout is the contract: the program writes these bytes and the
//! clients read them. Each type has a table of offsets, `to_bytes` and
//! `from_bytes` for both directions, and the proof that bytes and value
//! determine each other. Keys are plain `[u8; 32]` arrays.

pub mod book;
pub mod builder;
pub mod funding;
pub mod insurance;
pub mod market;
pub mod offsets;
pub mod oracle;
pub mod position;
pub mod pyth;
pub mod side;
pub mod slab;
pub mod trading_vault;
pub mod tree_tag;

pub use book::{Order, OrderBook, ORDER_BOOK_DISCRIMINATOR, ORDER_CAPACITY};
pub use builder::{BuilderProfile, BUILDER_PROFILE_DISCRIMINATOR};
pub use funding::{FundingState, FUNDING_DISCRIMINATOR};
pub use insurance::{InsuranceFund, INSURANCE_FUND_DISCRIMINATOR};
pub use market::{Market, Stats, MARKET_DISCRIMINATOR, STATS_DISCRIMINATOR};
pub use oracle::{Oracle, ORACLE_DISCRIMINATOR};
pub use position::{Position, POSITION_DISCRIMINATOR};
pub use slab::{
    CritbitTree, OrderNode, Slab, TreeNode, SLAB_DISCRIMINATOR, SLAB_NONE_INDEX,
    SLAB_POOL_CAPACITY, SLAB_TREE_CAPACITY,
};
pub use trading_vault::{
    TradingVault, VaultShare, TRADING_VAULT_DISCRIMINATOR, VAULT_SHARE_DISCRIMINATOR,
};
