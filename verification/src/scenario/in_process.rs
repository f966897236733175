//! Scenarios whose every command the runner carries out itself.

use vstd::prelude::*;
use vstd::string::StringExecFns;

use crate::scenario::account_layout_demo;
use crate::scenario::account_layout_demo::AccountLayoutDemoResult;
use crate::scenario::check;
use crate::scenario::instruction_dispatch_demo;
use crate::scenario::instruction_dispatch_demo::InstructionDispatchDemoResult;
use crate::scenario::render;
use crate::scenario::types;
use crate::scenario::types::{
    DialOverrides, EmbeddedReport, ExpectedOutcome, InProcessTarget, OutcomeStatus, Scenario,
    SolanaCheck, StepResult,
};
use crate::split;
use crate::text;

verus! {

/// The command that the runner carries out itself for `command`, if there is
/// one. White space around the command does not matter.
pub open spec fn in_process_target(command: Seq<char>) -> Option<InProcessTarget> {
    let trimmed = split::trim(command);
    if trimmed == "cargo run -p scenario -- account-layout-demo"@ {
        Some(InProcessTarget::AccountLayoutDemo)
    } else if trimmed == "cargo run -p scenario -- instruction-dispatch-demo"@ {
        Some(InProcessTarget::InstructionDispatchDemo)
    } else {
        None
    }
}

/// Every step can be carried out in this process, and there is at least one.
pub open spec fn eligible(scenario: Scenario) -> bool {
    &&& scenario.steps@.len() > 0
    &&& forall|i: int|
        0 <= i < scenario.steps@.len() ==> in_process_target(
            (#[trigger] scenario.steps@[i]).command@,
        ) is Some
}

/// The command that the runner carries out itself for `command`, if any.
pub fn try_parse_in_process(command: &str) -> (r: Option<InProcessTarget>)
    ensures
        r == in_process_target(command@),
{
    let trimmed: String = split::trimmed(command);
    if text::same_text(trimmed.as_str(), "cargo run -p scenario -- account-layout-demo") {
        return Some(InProcessTarget::AccountLayoutDemo);
    }
    if text::same_text(trimmed.as_str(), "cargo run -p scenario -- instruction-dispatch-demo") {
        return Some(InProcessTarget::InstructionDispatchDemo);
    }
    None
}

/// Whether every step can be carried out in this process.
pub fn is_v2_eligible(scenario: &Scenario) -> (r: bool)
    ensures
        r == eligible(*scenario),
{
    if scenario.steps.len() == 0 {
        return false;
    }
    let mut i: usize = 0;
    while i < scenario.steps.len()
        invariant
            i <= scenario.steps@.len(),
            forall|j: int|
                0 <= j < i ==> in_process_target((#[trigger] scenario.steps@[j]).command@) is Some,
        decreases scenario.steps@.len() - i,
    {
        if try_parse_in_process(scenario.steps[i].command.as_str()).is_none() {
            return false;
        }
        i += 1;
    }
    true
}

/// The mathematical value of a `StepResult`.
pub enum ResultView {
    Layout(account_layout_demo::LayoutView),
    Dispatch(Seq<instruction_dispatch_demo::InstructionEntryView>),
}

impl View for StepResult {
    type V = ResultView;

    open spec fn view(&self) -> ResultView {
        match *self {
            StepResult::AccountLayoutDemo(d) => ResultView::Layout(d@),
            StepResult::InstructionDispatch(d) => ResultView::Dispatch(d@),
        }
    }
}

/// The mathematical values of a list of results.
pub open spec fn results_view(s: Seq<StepResult>) -> Seq<ResultView> {
    Seq::new(s.len(), |i: int| s[i]@)
}

/// The last result on account layouts.
pub open spec fn last_layout(results: Seq<ResultView>) -> Option<account_layout_demo::LayoutView>
    decreases results.len(),
{
    if results.len() == 0 {
        None
    } else {
        match results.last() {
            ResultView::Layout(d) => Some(d),
            _ => last_layout(results.drop_last()),
        }
    }
}

/// The last result on the instruction set.
pub open spec fn last_dispatch(results: Seq<ResultView>) -> Option<
    Seq<instruction_dispatch_demo::InstructionEntryView>,
>
    decreases results.len(),
{
    if results.len() == 0 {
        None
    } else {
        match results.last() {
            ResultView::Dispatch(d) => Some(d),
            _ => last_dispatch(results.drop_last()),
        }
    }
}

/// How a check goes: it looks at the last result that it is about.
pub open spec fn check_status(c: SolanaCheck, results: Seq<ResultView>) -> types::StatusView {
    if check::targets_layout(c) {
        match last_layout(results) {
            Some(d) => check::layout_status(c, d),
            None => types::StatusView::Fail("no account-layout result available"@),
        }
    } else {
        match last_dispatch(results) {
            Some(d) => check::dispatch_status(c, d),
            None => types::StatusView::Fail("no instruction-dispatch result available"@),
        }
    }
}

/// How all checks go, in order.
pub open spec fn statuses(
    outcomes: Seq<ExpectedOutcome>,
    results: Seq<ResultView>,
) -> Seq<types::StatusView> {
    Seq::new(outcomes.len(), |i: int| check_status(outcomes[i].check, results))
}

/// How many of the first `n` checks passed.
pub open spec fn pass_count(statuses: Seq<types::StatusView>, n: nat) -> nat
    decreases n,
{
    if n == 0 {
        0
    } else {
        pass_count(statuses, (n - 1) as nat) + if statuses[n - 1] is Pass {
            1nat
        } else {
            0nat
        }
    }
}

/// Every check passed.
pub open spec fn all_pass(statuses: Seq<types::StatusView>) -> bool {
    forall|i: int| 0 <= i < statuses.len() ==> (#[trigger] statuses[i]) is Pass
}

/// The headline. It is ticked only if there are checks and all of them passed.
pub open spec fn headline_text(headline: Seq<char>, statuses: Seq<types::StatusView>) -> Seq<char> {
    (if statuses.len() == 0 {
        "HEADLINE (unverified): "@
    } else if all_pass(statuses) {
        "HEADLINE ✓: "@
    } else {
        "HEADLINE ⚠: "@
    }) + headline + "\n\n"@
}

/// What happened in one step.
pub open spec fn timeline_entry(result: ResultView) -> Seq<char> {
    match result {
        ResultView::Layout(d) => "    inspect    "@ + text::decimal(
            account_layout_demo::discriminators(d.entries).to_set().len(),
        ) + " on-chain account types via openhl-state constants\n"@ + "    aggregate  "@
            + text::decimal(account_layout_demo::total_size(d.entries))
            + " bytes total (one of each)\n"@ + "    compare    OrderBook ("@ + text::decimal(
            d.orderbook_size,
        ) + " bytes / "@ + text::decimal(d.orderbook_capacity) + " orders) vs Slab ("@
            + text::decimal(d.slab_size) + " bytes / ~"@ + text::decimal(d.slab_capacity)
            + " orders)\n"@,
        ResultView::Dispatch(d) => "    enumerate  "@ + text::decimal(d.len())
            + " instruction tags in the openhl-core dispatch table\n"@ + "    bring-up   "@
            + text::decimal(instruction_dispatch_demo::category_count(d, "bring-up"@))
            + " instructions allocate / initialize state\n"@ + "    operational  "@
            + text::decimal(instruction_dispatch_demo::category_count(d, "order"@)) + " order, "@
            + text::decimal(instruction_dispatch_demo::category_count(d, "position"@))
            + " position, "@ + text::decimal(
            instruction_dispatch_demo::category_count(d, "vault"@),
        ) + " vault, plus oracle / funding / builder / insurance\n"@,
    }
}

/// What one step brought to light.
pub open spec fn delta_entry(result: ResultView) -> Seq<char> {
    match result {
        ResultView::Layout(d) => account_layout_demo::table_text("  "@, d.entries) + "\n"@
            + "  OrderBook (flat): "@ + text::decimal(d.orderbook_size) + " bytes / "@
            + text::decimal(d.orderbook_capacity) + " orders → "@ + text::decimal(
            d.orderbook_bytes_per_order,
        ) + " bytes/order\n"@ + "  Slab (critbit):   "@ + text::decimal(d.slab_size)
            + " bytes / ~"@ + text::decimal(d.slab_capacity) + " orders → ~"@ + text::decimal(
            d.slab_bytes_per_order,
        ) + " bytes/order\n"@,
        ResultView::Dispatch(d) => "  Tag   Name                          Category     Description\n"@
            + "  ────  ────────────────────────────  ───────────  ────────────────────────────────────────────────────────────\n"@
            + instruction_dispatch_demo::rows_text("  "@, d, d.len()) + "\n"@ + "  Total: "@
            + text::decimal(d.len()) + " instructions; tags contiguous 0..="@ + text::decimal(
            instruction_dispatch_demo::highest_tag(d) as nat,
        ) + "\n"@,
    }
}

/// What happened in the first `n` steps.
pub open spec fn timeline(results: Seq<ResultView>, n: nat) -> Seq<char>
    decreases n,
{
    if n == 0 {
        seq![]
    } else {
        timeline(results, (n - 1) as nat) + timeline_entry(results[n - 1])
    }
}

/// What the first `n` steps brought to light.
pub open spec fn delta(results: Seq<ResultView>, n: nat) -> Seq<char>
    decreases n,
{
    if n == 0 {
        seq![]
    } else {
        delta(results, (n - 1) as nat) + delta_entry(results[n - 1])
    }
}

/// The line on one check.
pub open spec fn outcome_line(description: Seq<char>, status: types::StatusView) -> Seq<char> {
    match status {
        types::StatusView::Pass => "  ✓ "@ + description + "\n"@,
        types::StatusView::Fail(why) => "  ✗ "@ + description + " ("@ + why + ")\n"@,
    }
}

/// The lines on the first `n` checks.
pub open spec fn outcome_lines(
    outcomes: Seq<ExpectedOutcome>,
    statuses: Seq<types::StatusView>,
    n: nat,
) -> Seq<char>
    decreases n,
{
    if n == 0 {
        seq![]
    } else {
        outcome_lines(outcomes, statuses, (n - 1) as nat) + outcome_line(
            outcomes[n - 1].description@,
            statuses[n - 1],
        )
    }
}

/// The section on the checks.
pub open spec fn outcomes_text(
    outcomes: Seq<ExpectedOutcome>,
    statuses: Seq<types::StatusView>,
) -> Seq<char> {
    if statuses.len() == 0 {
        "  (no expected_outcomes declared — HEADLINE shown as unverified)\n"@
    } else {
        outcome_lines(outcomes, statuses, statuses.len()) + "\n  "@ + text::decimal(
            pass_count(statuses, statuses.len()),
        ) + " of "@ + text::decimal(statuses.len()) + " outcome(s) verified.\n"@
    }
}

/// The line on steps that failed, if any did.
pub open spec fn failures_text(report: EmbeddedReport) -> Seq<char> {
    if report.failed > 0 {
        "("@ + text::decimal(report.failed as nat) + " of "@ + text::decimal(report.total as nat)
            + " step(s) failed during execution)\n\n"@
    } else {
        seq![]
    }
}

/// All sections of the page.
pub open spec fn sections_text(
    scenario: Scenario,
    path: Seq<char>,
    results: Seq<ResultView>,
    report: EmbeddedReport,
) -> Seq<char> {
    let judged = statuses(scenario.expected_outcomes@, results);
    headline_text(scenario.headline@, judged) + "TIMELINE:\n"@ + timeline(results, results.len())
        + "\nDELTA:\n"@ + delta(results, results.len()) + "\nOUTCOMES:\n"@ + outcomes_text(
        scenario.expected_outcomes@,
        judged,
    ) + "\n"@ + failures_text(report) + "source: "@ + path + "\n"@ + render::footer_text()
}

/// The sizes in every result on account layouts can be added up.
pub open spec fn sizes_fit(results: Seq<ResultView>) -> bool {
    forall|i: int|
        0 <= i < results.len() ==> match #[trigger] results[i] {
            ResultView::Layout(d) => account_layout_demo::total_size(d.entries) <= usize::MAX,
            _ => true,
        }
}

fn find_layout(results: &[StepResult]) -> (r: Option<&AccountLayoutDemoResult>)
    ensures
        match r {
            Some(d) => last_layout(results_view(results@)) == Some(d@),
            None => last_layout(results_view(results@)) is None,
        },
{
    let ghost all = results_view(results@);
    let mut i: usize = results.len();
    assert(all.take(i as int) =~= all);
    while i > 0
        invariant
            i <= results@.len(),
            all == results_view(results@),
            last_layout(all) == last_layout(all.take(i as int)),
        decreases i,
    {
        assert(all.take(i as int).drop_last() =~= all.take(i - 1));
        i -= 1;
        match &results[i] {
            StepResult::AccountLayoutDemo(d) => {
                return Some(d);
            },
            _ => {},
        }
    }
    None
}

fn find_dispatch(results: &[StepResult]) -> (r: Option<&InstructionDispatchDemoResult>)
    ensures
        match r {
            Some(d) => last_dispatch(results_view(results@)) == Some(d@),
            None => last_dispatch(results_view(results@)) is None,
        },
{
    let ghost all = results_view(results@);
    let mut i: usize = results.len();
    assert(all.take(i as int) =~= all);
    while i > 0
        invariant
            i <= results@.len(),
            all == results_view(results@),
            last_dispatch(all) == last_dispatch(all.take(i as int)),
        decreases i,
    {
        assert(all.take(i as int).drop_last() =~= all.take(i - 1));
        i -= 1;
        match &results[i] {
            StepResult::InstructionDispatch(d) => {
                return Some(d);
            },
            _ => {},
        }
    }
    None
}

/// Applies a check to the results of a run.
pub fn evaluate(c: &SolanaCheck, results: &[StepResult]) -> (r: OutcomeStatus)
    ensures
        r@ == check_status(*c, results_view(results@)),
{
    let on_instructions: bool = match c {
        SolanaCheck::InstructionCountExact(_) => true,
        SolanaCheck::InstructionTagsContiguous => true,
        SolanaCheck::InstructionTagMaps { .. } => true,
        SolanaCheck::InstructionCategoryMin { .. } => true,
        _ => false,
    };
    if on_instructions {
        match find_dispatch(results) {
            Some(d) => check::evaluate_solana_check_dispatch(c, d),
            None => OutcomeStatus::Fail("no instruction-dispatch result available".to_owned()),
        }
    } else {
        match find_layout(results) {
            Some(d) => check::evaluate_solana_check_layout(c, d),
            None => OutcomeStatus::Fail("no account-layout result available".to_owned()),
        }
    }
}

/// The mathematical values of a list of statuses.
pub open spec fn statuses_view(s: Seq<OutcomeStatus>) -> Seq<types::StatusView> {
    Seq::new(s.len(), |i: int| s[i]@)
}

/// Applies all checks, in order.
pub fn evaluate_all(outcomes: &Vec<ExpectedOutcome>, results: &[StepResult]) -> (r: Vec<
    OutcomeStatus,
>)
    ensures
        statuses_view(r@) == statuses(outcomes@, results_view(results@)),
{
    let mut r: Vec<OutcomeStatus> = Vec::new();
    let mut i: usize = 0;
    while i < outcomes.len()
        invariant
            i <= outcomes@.len(),
            r@.len() == i,
            forall|j: int|
                0 <= j < i ==> (#[trigger] r@[j])@ == check_status(
                    outcomes@[j].check,
                    results_view(results@),
                ),
        decreases outcomes@.len() - i,
    {
        r.push(evaluate(&outcomes[i].check, results));
        i += 1;
    }
    assert(statuses_view(r@) =~= statuses(outcomes@, results_view(results@)));
    r
}

fn count_passes(judged: &Vec<OutcomeStatus>) -> (r: usize)
    ensures
        r == pass_count(statuses_view(judged@), judged@.len()),
        r <= judged@.len(),
{
    let mut count: usize = 0;
    let mut i: usize = 0;
    while i < judged.len()
        invariant
            count <= i <= judged@.len(),
            count == pass_count(statuses_view(judged@), i as nat),
        decreases judged@.len() - i,
    {
        match &judged[i] {
            OutcomeStatus::Pass => {
                count += 1;
            },
            OutcomeStatus::Fail(_) => {},
        }
        i += 1;
    }
    count
}

fn headline_line(headline: &str, judged: &Vec<OutcomeStatus>) -> (r: String)
    ensures
        r@ == headline_text(headline@, statuses_view(judged@)),
{
    proof {
        full_tally_means_all_passed(statuses_view(judged@));
    }
    let mut r: String = if judged.len() == 0 {
        "HEADLINE (unverified): ".to_owned()
    } else if count_passes(judged) == judged.len() {
        "HEADLINE ✓: ".to_owned()
    } else {
        "HEADLINE ⚠: ".to_owned()
    };
    r.append(headline);
    r.append("\n\n");
    r
}

fn timeline_entry_text(result: &StepResult) -> (r: String)
    requires
        result@ matches ResultView::Layout(d) ==> account_layout_demo::total_size(d.entries)
            <= usize::MAX,
    ensures
        r@ == timeline_entry(result@),
{
    match result {
        StepResult::AccountLayoutDemo(d) => {
            let mut r: String = "    inspect    ".to_owned();
            r.append(text::decimal_text(d.distinct_account_types() as u128).as_str());
            r.append(" on-chain account types via openhl-state constants\n");
            r.append("    aggregate  ");
            r.append(text::decimal_text(d.total_bytes() as u128).as_str());
            r.append(" bytes total (one of each)\n");
            r.append("    compare    OrderBook (");
            r.append(text::decimal_text(d.orderbook_size as u128).as_str());
            r.append(" bytes / ");
            r.append(text::decimal_text(d.orderbook_capacity as u128).as_str());
            r.append(" orders) vs Slab (");
            r.append(text::decimal_text(d.slab_size as u128).as_str());
            r.append(" bytes / ~");
            r.append(text::decimal_text(d.slab_capacity as u128).as_str());
            r.append(" orders)\n");
            r
        },
        StepResult::InstructionDispatch(d) => {
            let mut r: String = "    enumerate  ".to_owned();
            r.append(text::decimal_text(d.total_instructions() as u128).as_str());
            r.append(" instruction tags in the openhl-core dispatch table\n");
            r.append("    bring-up   ");
            r.append(text::decimal_text(d.count_in_category("bring-up") as u128).as_str());
            r.append(" instructions allocate / initialize state\n");
            r.append("    operational  ");
            r.append(text::decimal_text(d.count_in_category("order") as u128).as_str());
            r.append(" order, ");
            r.append(text::decimal_text(d.count_in_category("position") as u128).as_str());
            r.append(" position, ");
            r.append(text::decimal_text(d.count_in_category("vault") as u128).as_str());
            r.append(" vault, plus oracle / funding / builder / insurance\n");
            r
        },
    }
}

fn delta_entry_text(result: &StepResult) -> (r: String)
    ensures
        r@ == delta_entry(result@),
{
    match result {
        StepResult::AccountLayoutDemo(d) => {
            let mut r: String = account_layout_demo::table("  ", &d.entries);
            r.append("\n");
            r.append("  OrderBook (flat): ");
            r.append(text::decimal_text(d.orderbook_size as u128).as_str());
            r.append(" bytes / ");
            r.append(text::decimal_text(d.orderbook_capacity as u128).as_str());
            r.append(" orders → ");
            r.append(text::decimal_text(d.orderbook_bytes_per_order as u128).as_str());
            r.append(" bytes/order\n");
            r.append("  Slab (critbit):   ");
            r.append(text::decimal_text(d.slab_size as u128).as_str());
            r.append(" bytes / ~");
            r.append(text::decimal_text(d.slab_capacity as u128).as_str());
            r.append(" orders → ~");
            r.append(text::decimal_text(d.slab_bytes_per_order as u128).as_str());
            r.append(" bytes/order\n");
            r
        },
        StepResult::InstructionDispatch(d) => {
            let mut r: String = "  Tag   Name                          Category     Description\n".to_owned();
            r.append(
                "  ────  ────────────────────────────  ───────────  ────────────────────────────────────────────────────────────\n",
            );
            r.append(instruction_dispatch_demo::rows("  ", d).as_str());
            r.append("\n");
            r.append("  Total: ");
            r.append(text::decimal_text(d.total_instructions() as u128).as_str());
            r.append(" instructions; tags contiguous 0..=");
            r.append(text::decimal_text(d.max_tag() as u128).as_str());
            r.append("\n");
            r
        },
    }
}

fn outcomes_section(outcomes: &Vec<ExpectedOutcome>, judged: &Vec<OutcomeStatus>) -> (r: String)
    requires
        outcomes@.len() == judged@.len(),
    ensures
        r@ == outcomes_text(outcomes@, statuses_view(judged@)),
{
    if judged.len() == 0 {
        return "  (no expected_outcomes declared — HEADLINE shown as unverified)\n".to_owned();
    }
    let ghost all = statuses_view(judged@);
    let mut r: String = String::new();
    let mut i: usize = 0;
    while i < judged.len()
        invariant
            i <= judged@.len(),
            outcomes@.len() == judged@.len(),
            all == statuses_view(judged@),
            r@ == outcome_lines(outcomes@, all, i as nat),
        decreases judged@.len() - i,
    {
        match &judged[i] {
            OutcomeStatus::Pass => {
                let mut l: String = "  ✓ ".to_owned();
                l.append(outcomes[i].description.as_str());
                l.append("\n");
                r.append(l.as_str());
            },
            OutcomeStatus::Fail(why) => {
                let mut l: String = "  ✗ ".to_owned();
                l.append(outcomes[i].description.as_str());
                l.append(" (");
                l.append(why.as_str());
                l.append(")\n");
                r.append(l.as_str());
            },
        }
        i += 1;
    }
    r.append("\n  ");
    r.append(text::decimal_text(count_passes(judged) as u128).as_str());
    r.append(" of ");
    r.append(text::decimal_text(judged.len() as u128).as_str());
    r.append(" outcome(s) verified.\n");
    r
}

fn failures_line(report: &EmbeddedReport) -> (r: String)
    ensures
        r@ == failures_text(*report),
{
    if report.failed > 0 {
        let mut r: String = "(".to_owned();
        r.append(text::decimal_text(report.failed as u128).as_str());
        r.append(" of ");
        r.append(text::decimal_text(report.total as u128).as_str());
        r.append(" step(s) failed during execution)\n\n");
        r
    } else {
        String::new()
    }
}

/// The sections of the page on a run: headline, timeline, what was found, the
/// checks, and where the scenario came from.
pub fn render_v2_sections(
    scenario: &Scenario,
    path: &str,
    results: &[StepResult],
    report: &EmbeddedReport,
) -> (r: String)
    requires
        sizes_fit(results_view(results@)),
    ensures
        r@ == sections_text(*scenario, path@, results_view(results@), *report),
{
    let ghost all = results_view(results@);
    let judged: Vec<OutcomeStatus> = evaluate_all(&scenario.expected_outcomes, results);
    assert(statuses_view(judged@).len() == judged@.len());
    let mut times: String = String::new();
    let mut found: String = String::new();
    let mut i: usize = 0;
    while i < results.len()
        invariant
            i <= results@.len(),
            all == results_view(results@),
            sizes_fit(all),
            times@ == timeline(all, i as nat),
            found@ == delta(all, i as nat),
        decreases results@.len() - i,
    {
        assert(all[i as int] == results@[i as int]@);
        times.append(timeline_entry_text(&results[i]).as_str());
        found.append(delta_entry_text(&results[i]).as_str());
        i += 1;
    }
    let mut r: String = headline_line(scenario.headline.as_str(), &judged);
    r.append("TIMELINE:\n");
    r.append(times.as_str());
    r.append("\nDELTA:\n");
    r.append(found.as_str());
    r.append("\nOUTCOMES:\n");
    r.append(outcomes_section(&scenario.expected_outcomes, &judged).as_str());
    r.append("\n");
    r.append(failures_line(report).as_str());
    r.append("source: ");
    r.append(path);
    r.append("\n");
    r.append(render::cta_footer().as_str());
    r
}

/// The section on overridden values; none if nothing is overridden.
pub open spec fn dials_text(dials: DialOverrides) -> Seq<char> {
    if dials.oracle_shock_bps is None && dials.liquidation_buffer_bps is None
        && dials.matching_workload_size is None {
        seq![]
    } else {
        "\nDIAL OVERRIDES (from CLI flags; informational for v2 in-process targets):\n"@ + (
        match dials.oracle_shock_bps {
            Some(v) => "    oracle_shock_bps       : "@ + text::decimal_signed(v as int) + "\n"@,
            None => seq![],
        }) + (match dials.liquidation_buffer_bps {
            Some(v) => "    liquidation_buffer_bps : "@ + text::decimal(v as nat) + "\n"@,
            None => seq![],
        }) + (match dials.matching_workload_size {
            Some(v) => "    matching_workload_size : "@ + text::decimal(v as nat) + "\n"@,
            None => seq![],
        })
    }
}

fn dials_section(dials: &DialOverrides) -> (r: String)
    ensures
        r@ == dials_text(*dials),
{
    if dials.oracle_shock_bps.is_none() && dials.liquidation_buffer_bps.is_none()
        && dials.matching_workload_size.is_none() {
        return String::new();
    }
    let mut r: String =
        "\nDIAL OVERRIDES (from CLI flags; informational for v2 in-process targets):\n".to_owned();
    let mut shock: String = String::new();
    if let Some(v) = dials.oracle_shock_bps {
        shock = "    oracle_shock_bps       : ".to_owned();
        shock.append(text::decimal_signed_text(v as i128).as_str());
        shock.append("\n");
    }
    r.append(shock.as_str());
    let mut buffer: String = String::new();
    if let Some(v) = dials.liquidation_buffer_bps {
        buffer = "    liquidation_buffer_bps : ".to_owned();
        buffer.append(text::decimal_text(v as u128).as_str());
        buffer.append("\n");
    }
    r.append(buffer.as_str());
    let mut workload: String = String::new();
    if let Some(v) = dials.matching_workload_size {
        workload = "    matching_workload_size : ".to_owned();
        workload.append(text::decimal_text(v as u128).as_str());
        workload.append("\n");
    }
    r.append(workload.as_str());
    r
}

/// What a command gives that the runner carries out itself.
pub open spec fn target_result(target: InProcessTarget) -> ResultView {
    match target {
        InProcessTarget::AccountLayoutDemo => ResultView::Layout(
            account_layout_demo::layout_report(),
        ),
        InProcessTarget::InstructionDispatchDemo => ResultView::Dispatch(
            instruction_dispatch_demo::dispatch_table(),
        ),
    }
}

/// What the steps of an eligible scenario give, in order.
pub open spec fn scenario_results(scenario: Scenario) -> Seq<ResultView> {
    Seq::new(
        scenario.steps@.len(),
        |i: int| target_result(in_process_target(scenario.steps@[i].command@)->Some_0),
    )
}

/// The report on a run in this process: every step passes.
pub open spec fn all_passed(scenario: Scenario) -> EmbeddedReport {
    EmbeddedReport {
        total: scenario.steps@.len() as usize,
        skipped: 0,
        passed: scenario.steps@.len() as usize,
        failed: 0,
        expectations_verified: 0,
        expectations_failed: 0,
    }
}

/// The whole page on a run in this process.
pub open spec fn run_text(scenario: Scenario, path: Seq<char>, dials: DialOverrides) -> Seq<char> {
    "─── scenario: "@ + scenario.name@ + " ────────────────────────────────────\n"@ + dials_text(
        dials,
    ) + "\n"@ + sections_text(scenario, path, scenario_results(scenario), all_passed(scenario))
}

/// Runs a scenario in this process: the page to print, and the report.
pub fn run_embedded_v2(scenario: &Scenario, path: &str, dials: &DialOverrides) -> (r: (
    String,
    EmbeddedReport,
))
    requires
        eligible(*scenario),
    ensures
        r.0@ == run_text(*scenario, path@, *dials),
        r.1 == all_passed(*scenario),
{
    let mut results: Vec<StepResult> = Vec::with_capacity(scenario.steps.len());
    let ghost expected = scenario_results(*scenario);
    let mut i: usize = 0;
    while i < scenario.steps.len()
        invariant
            i <= scenario.steps@.len(),
            eligible(*scenario),
            expected == scenario_results(*scenario),
            results@.len() == i,
            forall|j: int| 0 <= j < i ==> (#[trigger] results@[j])@ == expected[j],
        decreases scenario.steps@.len() - i,
    {
        match try_parse_in_process(scenario.steps[i].command.as_str()) {
            Some(InProcessTarget::AccountLayoutDemo) => {
                results.push(
                    StepResult::AccountLayoutDemo(
                        account_layout_demo::run_account_layout_demo_structured(),
                    ),
                );
            },
            Some(InProcessTarget::InstructionDispatchDemo) => {
                results.push(
                    StepResult::InstructionDispatch(
                        instruction_dispatch_demo::run_instruction_dispatch_demo_structured(),
                    ),
                );
            },
            None => vstd::pervasive::unreached(),
        }
        i += 1;
    }
    let report: EmbeddedReport = EmbeddedReport {
        total: scenario.steps.len(),
        skipped: 0,
        passed: scenario.steps.len(),
        failed: 0,
        expectations_verified: 0,
        expectations_failed: 0,
    };
    proof {
        assert(results_view(results@) =~= expected);
        account_layout_demo::lemma_layout_total();
    }
    let mut r: String = "─── scenario: ".to_owned();
    r.append(scenario.name.as_str());
    r.append(" ────────────────────────────────────\n");
    r.append(dials_section(dials).as_str());
    r.append("\n");
    r.append(render_v2_sections(scenario, path, &results, &report).as_str());
    (r, report)
}

/// The tally below the outcomes and the mark on the headline agree: the tally
/// is full exactly if every check passed.
pub proof fn full_tally_means_all_passed(statuses: Seq<types::StatusView>)
    ensures
        pass_count(statuses, statuses.len()) <= statuses.len(),
        pass_count(statuses, statuses.len()) == statuses.len() <==> all_pass(statuses),
{
    lemma_pass_count(statuses, statuses.len());
}

proof fn lemma_pass_count(statuses: Seq<types::StatusView>, n: nat)
    requires
        n <= statuses.len(),
    ensures
        pass_count(statuses, n) <= n,
        (pass_count(statuses, n) == n) <==> (forall|i: int|
            0 <= i < n ==> (#[trigger] statuses[i]) is Pass),
    decreases n,
{
    if n > 0 {
        lemma_pass_count(statuses, (n - 1) as nat);
        if pass_count(statuses, n) == n {
            assert forall|i: int| 0 <= i < n implies (#[trigger] statuses[i]) is Pass by {}
        }
    }
}

} // verus!
