//! The scenario runner: curated walkthroughs of the engine.

pub mod account_layout_demo;
pub mod check;
pub mod in_process;
pub mod instruction_dispatch_demo;
pub mod laws;
pub mod pages;
pub mod render;
pub mod runner;
pub mod subprocess;
pub mod types;
pub mod verdicts;
