//! The client side: what each command asks of the program, and how it shows
//! what it found. Sending and fetching is left to the caller.

pub mod bench;
pub mod book;
pub mod builder;
pub mod common;
pub mod dump;
pub mod funding;
pub mod keys;
pub mod laws;
pub mod market;
pub mod options;
pub mod oracle;
pub mod pages;
pub mod position;
pub mod sent;
pub mod slab;
pub mod stats;
pub mod tags;
pub mod trading_vault;
pub mod vault;
