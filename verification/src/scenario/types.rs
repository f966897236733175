//! What a scenario is made of, and what a run reports.

use vstd::prelude::*;

use crate::scenario::account_layout_demo::AccountLayoutDemoResult;
use crate::scenario::instruction_dispatch_demo::InstructionDispatchDemoResult;

verus! {

/// A curated sequence of commands that shows one behaviour of the engine.
#[derive(Debug, Clone)]
pub struct Scenario {
    pub name: String,
    pub category: String,
    pub description: String,
    pub headline: String,
    pub steps: Vec<ScenarioStep>,
    /// Checks that back the headline; may be empty.
    pub expected_outcomes: Vec<ExpectedOutcome>,
}

/// One command of a scenario.
#[derive(Debug, Clone)]
pub struct ScenarioStep {
    pub explanation: String,
    pub command: String,
    /// Text that the output of the command should hold.
    pub expect: Option<String>,
}

/// A check on the results of a run, with a name for people.
#[derive(Debug, Clone)]
pub struct ExpectedOutcome {
    pub name: String,
    pub description: String,
    pub check: SolanaCheck,
}

/// A check on one of the two demo results.
#[derive(Debug, Clone)]
pub enum SolanaCheck {
    /// At least this many account types.
    AccountTypesMin(usize),
    /// Exactly this many account types.
    AccountTypesExact(usize),
    /// The flat order book has this many bytes.
    OrderbookSizeExact(usize),
    /// The flat order book holds this many orders.
    OrderbookCapacityExact(usize),
    /// The slab holds at least this many orders.
    SlabCapacityMin(usize),
    /// The slab packs more orders into a byte than the flat order book.
    SlabBeatsOrderbookOnDensity,
    /// An account type with this name has this many bytes.
    AccountTypeSize { type_label: String, expected: usize },
    /// Exactly this many instructions.
    InstructionCountExact(usize),
    /// The tags are 0, 1, 2 and so on up to the highest.
    InstructionTagsContiguous,
    /// This tag belongs to the instruction with this name.
    InstructionTagMaps { tag: u8, name: String },
    /// At least this many instructions of one category.
    InstructionCategoryMin { category: String, expected_min: usize },
}

/// How a check went.
#[derive(Debug, Clone)]
pub enum OutcomeStatus {
    Pass,
    /// With what was seen instead.
    Fail(String),
}

/// The mathematical value of an `OutcomeStatus`.
pub enum StatusView {
    Pass,
    Fail(Seq<char>),
}

impl View for OutcomeStatus {
    type V = StatusView;

    open spec fn view(&self) -> StatusView {
        match *self {
            OutcomeStatus::Pass => StatusView::Pass,
            OutcomeStatus::Fail(why) => StatusView::Fail(why@),
        }
    }
}

/// A command that the runner carries out itself.
#[derive(Debug, Clone, Copy, PartialEq, Eq, Structural)]
pub enum InProcessTarget {
    AccountLayoutDemo,
    InstructionDispatchDemo,
}

/// What such a command gave.
#[derive(Debug, Clone)]
pub enum StepResult {
    AccountLayoutDemo(AccountLayoutDemoResult),
    InstructionDispatch(InstructionDispatchDemoResult),
}

/// How the steps of a run went.
#[derive(Debug, Clone, Copy, PartialEq, Eq, Structural)]
pub struct EmbeddedReport {
    pub total: usize,
    pub skipped: usize,
    pub passed: usize,
    pub failed: usize,
    /// Expected texts that were found in the output of a step that passed.
    pub expectations_verified: usize,
    /// Expected texts that were missing from it.
    pub expectations_failed: usize,
}

/// Values that a run may override. A scenario that runs in this process shows
/// them; a command that is started gets them as environment variables.
#[derive(Debug, Clone, Copy)]
pub struct DialOverrides {
    pub oracle_shock_bps: Option<i32>,
    pub liquidation_buffer_bps: Option<u32>,
    pub matching_workload_size: Option<u32>,
}

impl Default for DialOverrides {
    /// Nothing is overridden.
    fn default() -> (r: DialOverrides)
        ensures
            r.oracle_shock_bps is None,
            r.liquidation_buffer_bps is None,
            r.matching_workload_size is None,
    {
        DialOverrides {
            oracle_shock_bps: None,
            liquidation_buffer_bps: None,
            matching_workload_size: None,
        }
    }
}

} // verus!
