//! The on-chain program.
//!
//! Each instruction is decided on plain values: the program id, the accounts
//! as the runtime passes them and the instruction data. The answer is a list
//! of steps for the runtime, log lines included, or a refusal.

pub mod address;
pub mod bench;
pub mod dispatch;
pub mod effects;
pub mod laws;
pub mod log;
pub mod market;
pub mod seeds;
pub mod stats;
pub mod system;
pub mod types;
pub mod vault;

pub use dispatch::{process_instruction, try_process_instruction};
