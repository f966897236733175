//! Account layouts, instruction processing, client-side builders and the
//! scenario runner of openhl, a perpetual-futures sandbox on Solana.

pub mod bytes;
pub mod client;
pub mod program;
pub mod reading;
pub mod scenario;
pub mod split;
pub mod state;
pub mod text;
pub mod text_laws;
pub mod views;
