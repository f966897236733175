//! What the checks, the tallies and the runs of scenarios mean.

use vstd::prelude::*;

use crate::client::tags;
use crate::scenario::account_layout_demo;
use crate::scenario::account_layout_demo::{EntryView, LayoutView};
use crate::scenario::check;
use crate::scenario::in_process;
use crate::scenario::in_process::ResultView;
use crate::scenario::instruction_dispatch_demo;
use crate::scenario::instruction_dispatch_demo::InstructionEntryView;
use crate::scenario::runner;
use crate::scenario::subprocess;
use crate::scenario::subprocess::StepOutcome;
use crate::scenario::types;
use crate::scenario::types::{
    DialOverrides, EmbeddedReport, ExpectedOutcome, InProcessTarget, Scenario, ScenarioStep,
    SolanaCheck,
};
use crate::split;
use crate::state::offsets;
use crate::text;

verus! {

/// The check passes exactly if `holds`; otherwise it fails for the reason `why`.
pub open spec fn judged_by(status: types::StatusView, holds: bool, why: Seq<char>) -> bool {
    &&& holds ==> status == types::StatusView::Pass
    &&& !holds ==> status == types::StatusView::Fail(why)
}

/// How many different discriminators the entries have.
pub open spec fn kinds(entries: Seq<EntryView>) -> nat {
    Seq::new(entries.len(), |i: int| entries[i].discriminator).to_set().len()
}

/// The checks on account layouts compare what they say they compare.
pub proof fn layout_checks_compare(n: usize, d: LayoutView)
    ensures
        judged_by(
            check::layout_status(SolanaCheck::AccountTypesMin(n), d),
            kinds(d.entries) >= n,
            "observed account_types = "@ + text::decimal(kinds(d.entries)) + " (expected ≥ "@
                + text::decimal(n as nat) + ")"@,
        ),
        judged_by(
            check::layout_status(SolanaCheck::AccountTypesExact(n), d),
            kinds(d.entries) == n,
            "observed account_types = "@ + text::decimal(kinds(d.entries)),
        ),
        judged_by(
            check::layout_status(SolanaCheck::OrderbookSizeExact(n), d),
            d.orderbook_size == n,
            "observed OrderBook size = "@ + text::decimal(d.orderbook_size) + " bytes"@,
        ),
        judged_by(
            check::layout_status(SolanaCheck::OrderbookCapacityExact(n), d),
            d.orderbook_capacity == n,
            "observed OrderBook capacity = "@ + text::decimal(d.orderbook_capacity),
        ),
        judged_by(
            check::layout_status(SolanaCheck::SlabCapacityMin(n), d),
            d.slab_capacity >= n,
            "observed Slab capacity = "@ + text::decimal(d.slab_capacity) + " (expected ≥ "@
                + text::decimal(n as nat) + ")"@,
        ),
        check::layout_status(SolanaCheck::SlabBeatsOrderbookOnDensity, d) is Pass <==> d.slab_capacity
            * d.orderbook_size > d.orderbook_capacity * d.slab_size,
        check::layout_status(SolanaCheck::InstructionCountExact(n), d) is Fail,
        check::layout_status(SolanaCheck::InstructionTagsContiguous, d) is Fail,
{
    assert(account_layout_demo::discriminators(d.entries) =~= Seq::new(
        d.entries.len(),
        |i: int| d.entries[i].discriminator,
    ));
}

/// The check on density names what speaks against the slab.
pub proof fn density_complaints_name_the_reason(d: LayoutView)
    ensures
        check::layout_status(SolanaCheck::SlabBeatsOrderbookOnDensity, d) matches types::StatusView::Fail(
            why,
        ) ==> {
            &&& d.slab_capacity <= d.orderbook_capacity ==> why == "Slab capacity ("@ + text::decimal(
                d.slab_capacity,
            ) + ") ≤ OrderBook capacity ("@ + text::decimal(d.orderbook_capacity) + ")"@
            &&& d.slab_capacity > d.orderbook_capacity ==> why == "Slab size ("@ + text::decimal(
                d.slab_size,
            ) + " bytes) too large for its capacity ("@ + text::decimal(d.slab_capacity) + ")"@
        },
{
}

/// Entry `i` is the first that is called `label`.
pub open spec fn first_called(entries: Seq<EntryView>, label: Seq<char>, i: int) -> bool {
    &&& 0 <= i < entries.len()
    &&& entries[i].type_label == label
    &&& forall|j: int| 0 <= j < i ==> (#[trigger] entries[j]).type_label != label
}

proof fn lemma_first_label(entries: Seq<EntryView>, label: Seq<char>)
    ensures
        check::first_with_label(entries, label) is None <==> forall|i: int|
            0 <= i < entries.len() ==> (#[trigger] entries[i]).type_label != label,
        forall|i: int| #[trigger]
            first_called(entries, label, i) ==> check::first_with_label(entries, label) == Some(
                entries[i],
            ),
    decreases entries.len(),
{
    if entries.len() > 0 {
        let init = entries.drop_last();
        lemma_first_label(init, label);
        assert forall|i: int| 0 <= i < init.len() implies init[i] == entries[i] by {}
        let n = entries.len() - 1;
        if check::first_with_label(entries, label) is None {
            assert forall|i: int| 0 <= i < entries.len() implies (#[trigger] entries[i]).type_label
                != label by {
                if i < n {
                    assert(init[i].type_label != label);
                }
            }
        } else if check::first_with_label(init, label) is Some {
            let i = choose|i: int| 0 <= i < init.len() && (#[trigger] init[i]).type_label == label;
            assert(entries[i].type_label == label);
        } else {
            assert(entries[n].type_label == label);
        }
        assert forall|i: int| #[trigger] first_called(entries, label, i) implies
            check::first_with_label(entries, label) == Some(entries[i]) by {
            if i < n {
                assert(first_called(init, label, i));
            } else {
                assert forall|j: int| 0 <= j < init.len() implies (#[trigger] init[j]).type_label
                    != label by {
                    assert(entries[j].type_label != label);
                }
            }
        }
    }
}

/// The check on the size of an account type looks at the first type with that
/// name, and fails if there is none.
pub proof fn size_checks_look_up_the_type(type_label: String, expected: usize, d: LayoutView, i: int)
    ensures
        first_called(d.entries, type_label@, i) ==> judged_by(
            check::layout_status(SolanaCheck::AccountTypeSize { type_label, expected }, d),
            d.entries[i].size_bytes == expected,
            type_label@ + " size = "@ + text::decimal(d.entries[i].size_bytes) + " bytes (expected "@
                + text::decimal(expected as nat) + ")"@,
        ),
        (forall|j: int| 0 <= j < d.entries.len() ==> (#[trigger] d.entries[j]).type_label != type_label@)
            ==> check::layout_status(SolanaCheck::AccountTypeSize { type_label, expected }, d)
            == types::StatusView::Fail(type_label@ + " not found"@),
{
    lemma_first_label(d.entries, type_label@);
}

/// Some instruction has this tag.
pub open spec fn has_tag(entries: Seq<InstructionEntryView>, tag: u8) -> bool {
    exists|i: int| 0 <= i < entries.len() && (#[trigger] entries[i]).tag == tag
}

/// Entry `i` is the first with this tag.
pub open spec fn first_tagged(entries: Seq<InstructionEntryView>, tag: u8, i: int) -> bool {
    &&& 0 <= i < entries.len()
    &&& entries[i].tag == tag
    &&& forall|j: int| 0 <= j < i ==> (#[trigger] entries[j]).tag != tag
}

proof fn lemma_first_tag(entries: Seq<InstructionEntryView>, tag: u8)
    ensures
        instruction_dispatch_demo::first_with_tag(entries, tag) is Some <==> has_tag(entries, tag),
        forall|i: int| #[trigger]
            first_tagged(entries, tag, i) ==> instruction_dispatch_demo::first_with_tag(entries, tag)
                == Some(entries[i]),
    decreases entries.len(),
{
    if entries.len() > 0 {
        let init = entries.drop_last();
        lemma_first_tag(init, tag);
        assert forall|i: int| 0 <= i < init.len() implies init[i] == entries[i] by {}
        let n = entries.len() - 1;
        if has_tag(init, tag) {
            let i = choose|i: int| 0 <= i < init.len() && (#[trigger] init[i]).tag == tag;
            assert(entries[i].tag == tag);
        }
        if has_tag(entries, tag) && entries[n].tag != tag {
            let i = choose|i: int| 0 <= i < entries.len() && (#[trigger] entries[i]).tag == tag;
            assert(init[i].tag == tag);
        }
        assert forall|i: int| #[trigger] first_tagged(entries, tag, i) implies
            instruction_dispatch_demo::first_with_tag(entries, tag) == Some(entries[i]) by {
            if i < n {
                assert(first_tagged(init, tag, i));
            } else {
                if has_tag(init, tag) {
                    let j = choose|j: int| 0 <= j < init.len() && (#[trigger] init[j]).tag == tag;
                    assert(entries[j].tag != tag);
                }
            }
        }
    }
}

/// A lookup gives the first instruction with the tag, and nothing if there is
/// none.
pub proof fn lookups_give_the_first(entries: Seq<InstructionEntryView>, tag: u8, i: int)
    ensures
        first_tagged(entries, tag, i) ==> instruction_dispatch_demo::first_with_tag(entries, tag)
            == Some(entries[i]),
        !has_tag(entries, tag) ==> instruction_dispatch_demo::first_with_tag(entries, tag) is None,
{
    lemma_first_tag(entries, tag);
}

/// The instructions of a category are counted.
pub proof fn categories_are_counted(entries: Seq<InstructionEntryView>, category: Seq<char>)
    ensures
        instruction_dispatch_demo::category_count(entries, category) == entries.filter(
            |e: InstructionEntryView| e.category == category,
        ).len(),
    decreases entries.len(),
{
    reveal(Seq::filter);
    if entries.len() > 0 {
        categories_are_counted(entries.drop_last(), category);
    }
}

proof fn lemma_missing(entries: Seq<InstructionEntryView>, n: nat)
    requires
        n <= 256,
    ensures
        forall|t: u8| #[trigger]
            check::missing_tags(entries, n).contains(t) <==> t < n && !has_tag(entries, t),
        forall|i: int, j: int|
            0 <= i < j < check::missing_tags(entries, n).len() ==> #[trigger] check::missing_tags(
                entries,
                n,
            )[i] < #[trigger] check::missing_tags(entries, n)[j],
    decreases n,
{
    if n > 0 {
        let before = check::missing_tags(entries, (n - 1) as nat);
        let after = check::missing_tags(entries, n);
        lemma_missing(entries, (n - 1) as nat);
        lemma_first_tag(entries, (n - 1) as u8);
        assert forall|t: u8| #[trigger] after.contains(t) <==> t < n && !has_tag(entries, t) by {
            assert(before.contains(t) <==> t < n - 1 && !has_tag(entries, t));
            if after.contains(t) {
                let k = choose|k: int| 0 <= k < after.len() && after[k] == t;
                if k < before.len() {
                    assert(before[k] == t);
                }
            }
            if before.contains(t) {
                let k = choose|k: int| 0 <= k < before.len() && before[k] == t;
                assert(after[k] == t);
            }
            if t == n - 1 && !has_tag(entries, t) {
                assert(after.last() == t);
            }
        }
        assert forall|i: int, j: int| 0 <= i < j < after.len() implies #[trigger] after[i]
            < #[trigger] after[j] by {
            assert(before.contains(before[i]));
            if j < before.len() {
                assert(before[i] < before[j]);
            }
        }
    }
}

/// The tags that are reported missing are those up to the highest that no
/// instruction has, in ascending order.
pub proof fn missing_tags_are_missing(entries: Seq<InstructionEntryView>, max: u8, t: u8)
    ensures
        check::missing_tags(entries, (max + 1) as nat).contains(t) <==> t <= max && !has_tag(entries, t),
        forall|i: int, j: int|
            0 <= i < j < check::missing_tags(entries, (max + 1) as nat).len()
                ==> #[trigger] check::missing_tags(entries, (max + 1) as nat)[i]
                < #[trigger] check::missing_tags(entries, (max + 1) as nat)[j],
{
    lemma_missing(entries, (max + 1) as nat);
}

/// The checks on the instruction set compare what they say they compare.
pub proof fn dispatch_checks_compare(n: usize, entries: Seq<InstructionEntryView>, category: String)
    ensures
        judged_by(
            check::dispatch_status(SolanaCheck::InstructionCountExact(n), entries),
            entries.len() == n,
            "observed instruction count = "@ + text::decimal(entries.len()),
        ),
        check::dispatch_status(SolanaCheck::InstructionTagsContiguous, entries) is Pass <==> forall|t: u8|
            t == 0 || (exists|i: int| 0 <= i < entries.len() && t <= (#[trigger] entries[i]).tag)
                ==> #[trigger] has_tag(entries, t),
        ({
            let count = entries.filter(|e: InstructionEntryView| e.category == category@).len();
            judged_by(
                check::dispatch_status(
                    SolanaCheck::InstructionCategoryMin { category, expected_min: n },
                    entries,
                ),
                count >= n,
                "category '"@ + category@ + "' has "@ + text::decimal(count) + " (expected ≥ "@
                    + text::decimal(n as nat) + ")"@,
            )
        }),
        check::dispatch_status(SolanaCheck::AccountTypesMin(n), entries) is Fail,
        check::dispatch_status(SolanaCheck::AccountTypesExact(n), entries) is Fail,
        check::dispatch_status(SolanaCheck::OrderbookSizeExact(n), entries) is Fail,
        check::dispatch_status(SolanaCheck::OrderbookCapacityExact(n), entries) is Fail,
        check::dispatch_status(SolanaCheck::SlabCapacityMin(n), entries) is Fail,
        check::dispatch_status(SolanaCheck::SlabBeatsOrderbookOnDensity, entries) is Fail,
{
    categories_are_counted(entries, category@);
    let max = instruction_dispatch_demo::highest_tag(entries);
    let missing = check::missing_tags(entries, (max + 1) as nat);
    lemma_missing(entries, (max + 1) as nat);
    instruction_dispatch_demo::highest_tag_is_highest(entries);
    let status = check::dispatch_status(SolanaCheck::InstructionTagsContiguous, entries);
    if status is Pass {
        assert forall|t: u8|
            t == 0 || (exists|i: int| 0 <= i < entries.len() && t <= (#[trigger] entries[i]).tag) implies
            #[trigger] has_tag(entries, t) by {
            assert(!missing.contains(t));
        }
    } else {
        let t = missing[0];
        assert(missing.contains(t));
        if t != 0 {
            let tags = instruction_dispatch_demo::tags(entries);
            assert(max > 0);
            if entries.len() == 0 {
                assert(max == 0);
            } else {
                let k = choose|k: int| 0 <= k < tags.len() && tags[k] == max;
                assert(entries[k].tag == max);
                assert(t <= entries[k].tag);
            }
        }
        assert(!has_tag(entries, t));
    }
}

/// The check on a tag looks at the first instruction that has it, and fails if
/// there is none.
pub proof fn tag_checks_look_up_the_name(
    tag: u8,
    name: String,
    entries: Seq<InstructionEntryView>,
    i: int,
)
    ensures
        first_tagged(entries, tag, i) ==> judged_by(
            check::dispatch_status(SolanaCheck::InstructionTagMaps { tag, name }, entries),
            entries[i].name == name@,
            "tag "@ + text::decimal(tag as nat) + " → "@ + entries[i].name + " (expected "@ + name@
                + ")"@,
        ),
        !has_tag(entries, tag) ==> check::dispatch_status(
            SolanaCheck::InstructionTagMaps { tag, name },
            entries,
        ) == types::StatusView::Fail("tag "@ + text::decimal(tag as nat) + " not found"@),
{
    lemma_first_tag(entries, tag);
}

/// Result `i` is the last on account layouts.
pub open spec fn last_on_layouts(results: Seq<ResultView>, i: int) -> bool {
    &&& 0 <= i < results.len()
    &&& results[i] is Layout
    &&& forall|j: int| i < j < results.len() ==> !((#[trigger] results[j]) is Layout)
}

/// Result `i` is the last on the instruction set.
pub open spec fn last_on_instructions(results: Seq<ResultView>, i: int) -> bool {
    &&& 0 <= i < results.len()
    &&& results[i] is Dispatch
    &&& forall|j: int| i < j < results.len() ==> !((#[trigger] results[j]) is Dispatch)
}

proof fn lemma_last(results: Seq<ResultView>, i: int)
    ensures
        last_on_layouts(results, i) ==> in_process::last_layout(results) == Some(
            results[i]->Layout_0,
        ),
        last_on_instructions(results, i) ==> in_process::last_dispatch(results) == Some(
            results[i]->Dispatch_0,
        ),
        (forall|j: int| 0 <= j < results.len() ==> !((#[trigger] results[j]) is Layout))
            ==> in_process::last_layout(results) is None,
        (forall|j: int| 0 <= j < results.len() ==> !((#[trigger] results[j]) is Dispatch))
            ==> in_process::last_dispatch(results) is None,
    decreases results.len(),
{
    if results.len() > 0 {
        let init = results.drop_last();
        lemma_last(init, i);
        assert forall|j: int| 0 <= j < init.len() implies init[j] == results[j] by {}
        if last_on_layouts(results, i) && i < init.len() {
            assert(last_on_layouts(init, i)) by {
                assert forall|j: int| i < j < init.len() implies !((#[trigger] init[j]) is Layout) by {
                    assert(!(results[j] is Layout));
                }
            }
            assert(!(results[results.len() - 1] is Layout));
        }
        if last_on_instructions(results, i) && i < init.len() {
            assert(last_on_instructions(init, i)) by {
                assert forall|j: int| i < j < init.len() implies !((#[trigger] init[j]) is Dispatch) by {
                    assert(!(results[j] is Dispatch));
                }
            }
            assert(!(results[results.len() - 1] is Dispatch));
        }
        if forall|j: int| 0 <= j < results.len() ==> !((#[trigger] results[j]) is Layout) {
            assert forall|j: int| 0 <= j < init.len() implies !((#[trigger] init[j]) is Layout) by {
                assert(!(results[j] is Layout));
            }
            assert(!(results[results.len() - 1] is Layout));
        }
        if forall|j: int| 0 <= j < results.len() ==> !((#[trigger] results[j]) is Dispatch) {
            assert forall|j: int| 0 <= j < init.len() implies !((#[trigger] init[j]) is Dispatch) by {
                assert(!(results[j] is Dispatch));
            }
            assert(!(results[results.len() - 1] is Dispatch));
        }
    }
}

/// The check is one of the four on the instruction set.
pub open spec fn on_instructions(c: SolanaCheck) -> bool {
    ||| c is InstructionCountExact
    ||| c is InstructionTagsContiguous
    ||| c is InstructionTagMaps
    ||| c is InstructionCategoryMin
}

/// A check looks at the last result that it is about, and fails if there is none.
pub proof fn checks_look_at_the_last_result(c: SolanaCheck, results: Seq<ResultView>, i: int)
    ensures
        on_instructions(c) && last_on_instructions(results, i) ==> in_process::check_status(c, results)
            == check::dispatch_status(c, results[i]->Dispatch_0),
        !on_instructions(c) && last_on_layouts(results, i) ==> in_process::check_status(c, results)
            == check::layout_status(c, results[i]->Layout_0),
        on_instructions(c) && (forall|j: int|
            0 <= j < results.len() ==> !((#[trigger] results[j]) is Dispatch))
            ==> in_process::check_status(c, results) == types::StatusView::Fail(
            "no instruction-dispatch result available"@,
        ),
        !on_instructions(c) && (forall|j: int|
            0 <= j < results.len() ==> !((#[trigger] results[j]) is Layout))
            ==> in_process::check_status(c, results) == types::StatusView::Fail(
            "no account-layout result available"@,
        ),
{
    lemma_last(results, i);
}

/// Every check is applied, in order, to all results.
pub proof fn every_check_is_applied(outcomes: Seq<ExpectedOutcome>, results: Seq<ResultView>)
    ensures
        in_process::statuses(outcomes, results).len() == outcomes.len(),
        forall|i: int|
            0 <= i < outcomes.len() ==> #[trigger] in_process::statuses(outcomes, results)[i]
                == in_process::check_status(outcomes[i].check, results),
{
}

/// The tally counts the checks that passed.
pub proof fn passes_are_counted(statuses: Seq<types::StatusView>, n: nat)
    requires
        n <= statuses.len(),
    ensures
        in_process::pass_count(statuses, n) == statuses.take(n as int).filter(
            |s: types::StatusView| s is Pass,
        ).len(),
    decreases n,
{
    reveal(Seq::filter);
    if n > 0 {
        passes_are_counted(statuses, (n - 1) as nat);
        assert(statuses.take(n as int).drop_last() =~= statuses.take(n - 1));
    } else {
        assert(statuses.take(0) =~= seq![]);
    }
}

/// The headline is ticked exactly if there are checks and all of them passed.
pub proof fn headlines_are_earned(headline: Seq<char>, statuses: Seq<types::StatusView>)
    ensures
        statuses.len() == 0 ==> in_process::headline_text(headline, statuses)
            == "HEADLINE (unverified): "@ + headline + "\n\n"@,
        statuses.len() > 0 && (forall|i: int|
            0 <= i < statuses.len() ==> (#[trigger] statuses[i]) is Pass)
            ==> in_process::headline_text(headline, statuses) == "HEADLINE ✓: "@ + headline + "\n\n"@,
        (exists|i: int| 0 <= i < statuses.len() && !((#[trigger] statuses[i]) is Pass))
            ==> in_process::headline_text(headline, statuses) == "HEADLINE ⚠: "@ + headline + "\n\n"@,
{
}

/// The line on a check ticks it exactly if it passed, and else says why not.
pub proof fn outcomes_are_marked(description: Seq<char>, why: Seq<char>)
    ensures
        in_process::outcome_line(description, types::StatusView::Pass) == "  ✓ "@ + description
            + "\n"@,
        in_process::outcome_line(description, types::StatusView::Fail(why)) == "  ✗ "@ + description
            + " ("@ + why + ")\n"@,
{
}

/// A command is carried out in this process exactly if it is, but for white space
/// around it, that of one of the two demos.
pub proof fn two_commands_run_in_process(command: Seq<char>)
    ensures
        in_process::in_process_target(command) == Some(InProcessTarget::AccountLayoutDemo) <==> split::trim(
            command,
        ) == "cargo run -p scenario -- account-layout-demo"@,
        in_process::in_process_target(command) == Some(InProcessTarget::InstructionDispatchDemo)
            <==> split::trim(command) == "cargo run -p scenario -- instruction-dispatch-demo"@,
{
    reveal_strlit("cargo run -p scenario -- account-layout-demo");
    reveal_strlit("cargo run -p scenario -- instruction-dispatch-demo");
    assert("cargo run -p scenario -- account-layout-demo"@.len()
        != "cargo run -p scenario -- instruction-dispatch-demo"@.len());
}

/// A scenario runs in this process exactly if it has steps and each of them can;
/// every step then gives the result of its demo, in order, and passes.
pub proof fn in_process_runs_give_their_results(scenario: Scenario, i: int)
    ensures
        in_process::eligible(scenario) <==> scenario.steps@.len() > 0 && forall|j: int|
            0 <= j < scenario.steps@.len() ==> in_process::in_process_target(
                (#[trigger] scenario.steps@[j]).command@,
            ) is Some,
        in_process::scenario_results(scenario).len() == scenario.steps@.len(),
        0 <= i < scenario.steps@.len() && in_process::in_process_target(scenario.steps@[i].command@)
            == Some(InProcessTarget::AccountLayoutDemo) ==> in_process::scenario_results(scenario)[i]
            == ResultView::Layout(account_layout_demo::layout_report()),
        0 <= i < scenario.steps@.len() && in_process::in_process_target(scenario.steps@[i].command@)
            == Some(InProcessTarget::InstructionDispatchDemo) ==> in_process::scenario_results(
            scenario,
        )[i] == ResultView::Dispatch(instruction_dispatch_demo::dispatch_table()),
        scenario.steps@.len() <= usize::MAX ==> ({
            let r = in_process::all_passed(scenario);
            &&& r.total == scenario.steps@.len()
            &&& r.passed == scenario.steps@.len()
            &&& r.failed == 0
            &&& r.skipped == 0
            &&& r.expectations_verified == 0
            &&& r.expectations_failed == 0
        }),
{
}

/// A command is handed to a shell exactly if it holds a semicolon, a bar, or two
/// ampersands in a row.
pub proof fn shells_get_chains_and_pipes(command: Seq<char>)
    ensures
        subprocess::needs_shell(command) <==> exists|i: int|
            0 <= i < command.len() && (#[trigger] command[i] == ';' || command[i] == '|' || (command[i]
                == '&' && i + 1 < command.len() && command[i + 1] == '&')),
{
    reveal_strlit("&&");
    reveal_strlit("||");
    reveal_strlit(";");
    reveal_strlit("|");
    if split::contains(command, "&&"@) {
        let i = choose|i: int|
            0 <= i <= command.len() - "&&"@.len() && #[trigger] command.subrange(i, i + "&&"@.len())
                == "&&"@;
        assert(command.subrange(i, i + 2)[0] == '&' && command.subrange(i, i + 2)[1] == '&');
        assert(command[i] == '&' && command[i + 1] == '&');
    }
    if split::contains(command, "||"@) {
        let i = choose|i: int|
            0 <= i <= command.len() - "||"@.len() && #[trigger] command.subrange(i, i + "||"@.len())
                == "||"@;
        assert(command.subrange(i, i + 2)[0] == '|');
        assert(command[i] == '|');
    }
    if split::contains(command, ";"@) {
        let i = choose|i: int|
            0 <= i <= command.len() - ";"@.len() && #[trigger] command.subrange(i, i + ";"@.len())
                == ";"@;
        assert(command.subrange(i, i + 1)[0] == ';');
        assert(command[i] == ';');
    }
    if split::contains(command, "|"@) {
        let i = choose|i: int|
            0 <= i <= command.len() - "|"@.len() && #[trigger] command.subrange(i, i + "|"@.len())
                == "|"@;
        assert(command.subrange(i, i + 1)[0] == '|');
        assert(command[i] == '|');
    }
    if exists|i: int|
        0 <= i < command.len() && (#[trigger] command[i] == ';' || command[i] == '|' || (command[i]
            == '&' && i + 1 < command.len() && command[i + 1] == '&')) {
        let i = choose|i: int|
            0 <= i < command.len() && (#[trigger] command[i] == ';' || command[i] == '|' || (command[i]
                == '&' && i + 1 < command.len() && command[i + 1] == '&'));
        if command[i] == ';' {
            assert(command.subrange(i, i + 1) =~= ";"@);
        } else if command[i] == '|' {
            assert(command.subrange(i, i + 1) =~= "|"@);
        } else {
            assert(command.subrange(i, i + 2) =~= "&&"@);
        }
    }
}

/// A step is informational exactly if its command is blank or a comment; else the
/// command is started as it stands, by a shell or word by word.
pub proof fn commands_are_started_as_written(command: Seq<char>)
    ensures
        ({
            let c = split::trim(command);
            let plan = subprocess::command_plan(command);
            &&& plan is None <==> c.len() == 0 || c[0] == '#'
            &&& plan is Some && subprocess::needs_shell(c) ==> plan == Some(
                subprocess::CommandView::Shell { script: c },
            )
            &&& plan is Some && !subprocess::needs_shell(c) ==> (plan matches Some(
                subprocess::CommandView::Direct { program, args },
            ) && seq![program] + args == split::words(c))
        }),
{
    let c = split::trim(command);
    if subprocess::command_plan(command) is Some && !subprocess::needs_shell(c) {
        subprocess::lemma_trim_start(command);
        subprocess::lemma_first_word(c);
        let w = split::words(c);
        assert(seq![w[0]] + w.skip(1) =~= w);
    }
}

/// A command gets a variable for every value that is overridden, and no other.
pub proof fn dials_become_variables(dials: DialOverrides)
    ensures
        ({
            let env = subprocess::dial_env(dials);
            &&& dials.oracle_shock_bps matches Some(v) ==> env.contains(
                ("OPENHL_ORACLE_SHOCK_BPS"@, text::decimal_int(v as int)),
            )
            &&& dials.liquidation_buffer_bps matches Some(v) ==> env.contains(
                ("OPENHL_LIQUIDATION_BUFFER_BPS"@, text::decimal(v as nat)),
            )
            &&& dials.matching_workload_size matches Some(v) ==> env.contains(
                ("OPENHL_MATCHING_WORKLOAD_SIZE"@, text::decimal(v as nat)),
            )
            &&& env.len() == (if dials.oracle_shock_bps is Some {
                1int
            } else {
                0
            }) + (if dials.liquidation_buffer_bps is Some {
                1int
            } else {
                0
            }) + (if dials.matching_workload_size is Some {
                1int
            } else {
                0
            })
        }),
{
    let env = subprocess::dial_env(dials);
    let a = if dials.oracle_shock_bps is Some {
        1int
    } else {
        0
    };
    let b = if dials.liquidation_buffer_bps is Some {
        1int
    } else {
        0
    };
    if let Some(v) = dials.oracle_shock_bps {
        assert(env[0] == ("OPENHL_ORACLE_SHOCK_BPS"@, text::decimal_int(v as int)));
    }
    if let Some(v) = dials.liquidation_buffer_bps {
        assert(env[a] == ("OPENHL_LIQUIDATION_BUFFER_BPS"@, text::decimal(v as nat)));
    }
    if let Some(v) = dials.matching_workload_size {
        assert(env[a + b] == ("OPENHL_MATCHING_WORKLOAD_SIZE"@, text::decimal(v as nat)));
    }
}

/// A command that exits with success passes, and its expected text, if it has
/// one, is looked for in what it printed; any other command fails.
pub proof fn outcomes_are_recorded(report: EmbeddedReport, step: ScenarioStep, outcome: StepOutcome)
    requires
        report.passed < usize::MAX,
        report.failed < usize::MAX,
        report.expectations_verified < usize::MAX,
        report.expectations_failed < usize::MAX,
    ensures
        ({
            let r = subprocess::with_outcome(report, step, outcome);
            let passed = outcome is Exited && outcome->success;
            let expects = passed && step.expect is Some;
            let found = expects && split::contains(outcome->captured@, step.expect->Some_0@);
            &&& r.total == report.total
            &&& r.skipped == report.skipped
            &&& r.passed == report.passed + (if passed {
                1int
            } else {
                0
            })
            &&& r.failed == report.failed + (if passed {
                0int
            } else {
                1
            })
            &&& r.expectations_verified == report.expectations_verified + (if found {
                1int
            } else {
                0
            })
            &&& r.expectations_failed == report.expectations_failed + (if expects && !found {
                1int
            } else {
                0
            })
        }),
{
}

/// A run starts with nothing counted; passing over a step counts it as skipped
/// and changes nothing else.
pub proof fn skips_are_counted(scenario: Scenario, report: EmbeddedReport)
    requires
        scenario.steps@.len() <= usize::MAX,
        report.skipped < usize::MAX,
    ensures
        ({
            let r = subprocess::fresh_report(scenario);
            &&& r.total == scenario.steps@.len()
            &&& r.skipped == 0 && r.passed == 0 && r.failed == 0
            &&& r.expectations_verified == 0 && r.expectations_failed == 0
        }),
        ({
            let r = subprocess::with_skip(report);
            &&& r.skipped == report.skipped + 1
            &&& r.total == report.total && r.passed == report.passed && r.failed == report.failed
            &&& r.expectations_verified == report.expectations_verified
            &&& r.expectations_failed == report.expectations_failed
        }),
{
}

/// What comes next is the first step from `i` on that has a command, or the end;
/// every step before it is counted as skipped, and nothing else changes.
pub proof fn the_next_command_is_next(
    scenario: Scenario,
    path: Seq<char>,
    i: nat,
    report: EmbeddedReport,
)
    requires
        i <= scenario.steps@.len(),
        report.skipped + scenario.steps@.len() - i <= usize::MAX,
    ensures
        ({
            let next = subprocess::advance(scenario, path, i, report);
            &&& i <= next.index <= scenario.steps@.len()
            &&& forall|j: int|
                i <= j < next.index ==> subprocess::command_plan(
                    (#[trigger] scenario.steps@[j]).command@,
                ) is None
            &&& next.index < scenario.steps@.len() ==> next.command == subprocess::command_plan(
                scenario.steps@[next.index as int].command@,
            ) && next.command is Some
            &&& next.index == scenario.steps@.len() ==> next.command is None
            &&& next.report.skipped == report.skipped + (next.index - i)
            &&& next.report.total == report.total
            &&& next.report.passed == report.passed
            &&& next.report.failed == report.failed
            &&& next.report.expectations_verified == report.expectations_verified
            &&& next.report.expectations_failed == report.expectations_failed
        }),
    decreases scenario.steps@.len() - i,
{
    if i < scenario.steps@.len() && subprocess::command_plan(
        scenario.steps@[i as int].command@,
    ) is None {
        the_next_command_is_next(scenario, path, i + 1, subprocess::with_skip(report));
    }
}

/// A run counts as an error exactly if a step failed, and says how many did.
pub proof fn failed_steps_make_an_error(report: EmbeddedReport)
    ensures
        report.failed == 0 ==> runner::failure_text(report) is None,
        report.failed > 0 ==> runner::failure_text(report) == Some(
            text::decimal(report.failed as nat) + " step(s) failed during scenario run"@,
        ),
{
}

/// A file holds a scenario exactly if its name is a stem and `.json`.
pub proof fn scenario_files_are_named(file_name: Seq<char>)
    ensures
        runner::names_scenario(file_name) <==> exists|stem: Seq<char>|
            stem.len() > 0 && file_name == #[trigger] (stem + ".json"@),
{
    reveal_strlit(".json");
    if runner::names_scenario(file_name) {
        let stem = file_name.take(file_name.len() - 5);
        assert(file_name =~= stem + ".json"@);
    }
    if exists|stem: Seq<char>| stem.len() > 0 && file_name == #[trigger] (stem + ".json"@) {
        let stem = choose|stem: Seq<char>|
            stem.len() > 0 && file_name == #[trigger] (stem + ".json"@);
        assert(file_name.skip(file_name.len() - 5) =~= ".json"@);
    }
}

/// Sizes are added up, whatever their order.
pub proof fn sizes_are_added_up(front: Seq<EntryView>, e: EntryView)
    ensures
        account_layout_demo::total_size(seq![]) == 0,
        account_layout_demo::total_size(front.push(e)) == account_layout_demo::total_size(front)
            + e.size_bytes,
{
    assert(front.push(e).drop_last() =~= front);
}

/// The layouts of the engine: name, size and tag of each account type, and what
/// the two books hold.
pub proof fn layouts_have_their_sizes()
    ensures
        ({
            let d = account_layout_demo::layout_report();
            &&& d.entries.len() == 11
            &&& d.entries[0].type_label == "Market"@ && d.entries[0].size_bytes == 256
            &&& d.entries[0].version == Some(1u8)
            &&& d.entries[1].type_label == "Stats"@ && d.entries[1].size_bytes == 56
            &&& d.entries[2].type_label == "OrderBook"@ && d.entries[2].size_bytes == 2112
            &&& d.entries[3].type_label == "Oracle"@ && d.entries[3].size_bytes == 112
            &&& d.entries[4].type_label == "FundingState"@ && d.entries[4].size_bytes == 120
            &&& d.entries[5].type_label == "Position"@ && d.entries[5].size_bytes == 144
            &&& d.entries[6].type_label == "TradingVault"@ && d.entries[6].size_bytes == 160
            &&& d.entries[7].type_label == "VaultShare"@ && d.entries[7].size_bytes == 128
            &&& d.entries[8].type_label == "BuilderProfile"@ && d.entries[8].size_bytes == 104
            &&& d.entries[9].type_label == "InsuranceFund"@ && d.entries[9].size_bytes == 136
            &&& d.entries[10].type_label == "Slab"@ && d.entries[10].size_bytes == 82000
            &&& forall|i: int| 1 <= i < 11 ==> (#[trigger] d.entries[i]).version is None
            &&& d.orderbook_capacity == 32
            &&& d.orderbook_size == d.entries[2].size_bytes
            &&& d.slab_size == d.entries[10].size_bytes
            &&& d.orderbook_bytes_per_order * 32 <= d.orderbook_size
                < (d.orderbook_bytes_per_order + 1) * 32
            &&& d.slab_capacity * 64 <= d.slab_size < (d.slab_capacity + 1) * 64
            &&& d.slab_bytes_per_order * d.slab_capacity <= d.slab_size
                < (d.slab_bytes_per_order + 1) * d.slab_capacity
        }),
{
}

/// The instruction with this tag is listed under this name and category.
pub open spec fn listed_as(tag: u8, name: Seq<char>, category: Seq<char>) -> bool {
    instruction_dispatch_demo::first_with_tag(
        instruction_dispatch_demo::dispatch_table(),
        tag,
    ) matches Some(e) && e.tag == tag && e.name == name && e.category == category
}

/// What the commands send is listed under its tag, with its name and category.
pub proof fn commands_are_listed_under_their_tags()
    ensures
        listed_as(tags::CREATE_ORDER_BOOK, "CreateOrderBook"@, "bring-up"@),
        listed_as(tags::PLACE_ORDER, "PlaceOrder"@, "order"@),
        listed_as(tags::CANCEL_ORDER, "CancelOrder"@, "order"@),
        listed_as(tags::MATCH, "Match"@, "order"@),
        listed_as(tags::CREATE_ORACLE, "CreateOracle"@, "bring-up"@),
        listed_as(tags::SET_ORACLE_PRICE, "SetOraclePrice"@, "oracle"@),
        listed_as(tags::CREATE_FUNDING_STATE, "CreateFundingState"@, "bring-up"@),
        listed_as(tags::UPDATE_FUNDING, "UpdateFunding"@, "funding"@),
        listed_as(tags::OPEN_POSITION, "OpenPosition"@, "position"@),
        listed_as(tags::CLOSE_POSITION, "ClosePosition"@, "position"@),
        listed_as(tags::LIQUIDATE, "Liquidate"@, "position"@),
        listed_as(tags::CREATE_TRADING_VAULT, "CreateTradingVault"@, "bring-up"@),
        listed_as(tags::VAULT_DEPOSIT, "VaultDeposit"@, "vault"@),
        listed_as(tags::VAULT_WITHDRAW, "VaultWithdraw"@, "vault"@),
        listed_as(tags::VAULT_UPDATE_NAV, "VaultUpdateNav"@, "vault"@),
        listed_as(tags::REGISTER_BUILDER, "RegisterBuilder"@, "bring-up"@),
        listed_as(tags::PLACE_ORDER_WITH_BUILDER, "PlaceOrderWithBuilder"@, "order"@),
        listed_as(tags::CLAIM_BUILDER_FEES, "ClaimBuilderFees"@, "builder"@),
        listed_as(tags::CREATE_FEE_VAULT, "CreateFeeVault"@, "bring-up"@),
        listed_as(tags::CREATE_INSURANCE_FUND, "CreateInsuranceFund"@, "bring-up"@),
        listed_as(tags::INSURANCE_FUND_DEPOSIT, "InsuranceFundDeposit"@, "insurance"@),
        listed_as(tags::CREATE_SLAB, "CreateSlab"@, "bring-up"@),
        listed_as(tags::SLAB_PLACE_ORDER, "SlabPlaceOrder"@, "order"@),
        listed_as(tags::SLAB_MATCH, "SlabMatch"@, "order"@),
{
    lemma_rows_are_found();
}

/// What the program itself carries out is listed under its tag, and so are the orders
/// that an oracle checks.
pub proof fn programs_are_listed_under_their_tags()
    ensures
        listed_as(0, "Initialize"@, "bring-up"@),
        listed_as(1, "CreateMarket"@, "bring-up"@),
        listed_as(2, "Bench"@, "benchmark"@),
        listed_as(3, "CreateStats"@, "bring-up"@),
        listed_as(4, "BumpStats"@, "benchmark"@),
        listed_as(5, "CreateVault"@, "bring-up"@),
        listed_as(6, "Deposit"@, "collateral"@),
        listed_as(13, "PlaceOrderChecked"@, "order"@),
        listed_as(32, "PlaceOrderCheckedPyth"@, "order"@),
        listed_as(33, "PlaceOrderCheckedPythV2"@, "order"@),
{
    lemma_rows_are_found();
}

proof fn lemma_rows_are_found()
    ensures
        forall|t: u8|
            t <= 33 ==> #[trigger] instruction_dispatch_demo::first_with_tag(
                instruction_dispatch_demo::dispatch_table(),
                t,
            ) == Some(instruction_dispatch_demo::dispatch_table()[t as int]),
{
    let table = instruction_dispatch_demo::dispatch_table();
    instruction_dispatch_demo::tags_are_contiguous();
    assert forall|t: u8|
        t <= 33 implies #[trigger] instruction_dispatch_demo::first_with_tag(table, t) == Some(
        table[t as int],
    ) by {
        instruction_dispatch_demo::lookup_is_sound(table, t);
        let e = instruction_dispatch_demo::first_with_tag(table, t)->Some_0;
        let k = choose|k: int| 0 <= k < 34 && table[k] == e;
        assert(table[k].tag == k);
    }
}

/// Every account type is listed with the tag that its accounts start with, as bytes and
/// as the word that they spell.
pub proof fn types_are_listed_with_their_tags(i: int)
    requires
        0 <= i < 11,
    ensures
        ({
            let e = account_layout_demo::layout_report().entries[i];
            offsets::spells(e.discriminator, e.discriminator_text)
        }),
        ({
            let d = account_layout_demo::layout_report();
            &&& d.entries[0].discriminator_text == "MARKET"@
            &&& d.entries[1].discriminator_text == "STATS"@
            &&& d.entries[2].discriminator_text == "BOOK"@
            &&& d.entries[3].discriminator_text == "ORACLE"@
            &&& d.entries[4].discriminator_text == "FUNDING"@
            &&& d.entries[5].discriminator_text == "POSITION"@
            &&& d.entries[6].discriminator_text == "TVAULT"@
            &&& d.entries[7].discriminator_text == "VSHARE"@
            &&& d.entries[8].discriminator_text == "BUILDER"@
            &&& d.entries[9].discriminator_text == "INSFUND"@
            &&& d.entries[10].discriminator_text == "SLAB"@
        }),
{
    offsets::tags_spell_their_words();
}

/// Every step is announced when its turn comes, under its number and with that of all
/// steps; one without a command is called informational, and the next one follows; after
/// the last comes the verdict.
pub proof fn steps_are_announced_in_turn(
    scenario: Scenario,
    path: Seq<char>,
    i: nat,
    report: EmbeddedReport,
)
    requires
        report.skipped < usize::MAX,
    ensures
        ({
            let total = scenario.steps@.len();
            let next = subprocess::advance(scenario, path, i, report);
            &&& i >= total ==> next.output == subprocess::verdict_text(report, path)
            &&& i < total ==> {
                let announced = subprocess::step_text(scenario.steps@[i as int], i + 1, total);
                if subprocess::command_plan(scenario.steps@[i as int].command@) is Some {
                    next.output == announced
                } else {
                    next.output == announced + "  (informational step — no command executed)\n\n"@
                        + subprocess::advance(
                        scenario,
                        path,
                        i + 1,
                        EmbeddedReport { skipped: (report.skipped + 1) as usize, ..report },
                    ).output
                }
            }
        }),
{
}

/// Names in ascending order: of two, the one that comes first is not above the other, that
/// is, it is a beginning of the other or has the smaller character where they first differ.
pub proof fn ascending_names_go_up(names: Seq<Seq<char>>, i: int, j: int, k: int)
    requires
        split::ascending(names),
        0 <= i < j < names.len(),
        0 <= k < names[i].len(),
        k <= names[j].len(),
        names[i].take(k) == names[j].take(k),
    ensures
        k < names[j].len(),
        names[i][k] <= names[j][k],
{
    lemma_order_at(names[i], names[j], k);
}

proof fn lemma_order_at(a: Seq<char>, b: Seq<char>, k: int)
    requires
        split::in_order(a, b),
        0 <= k < a.len(),
        k <= b.len(),
        a.take(k) == b.take(k),
    ensures
        k < b.len(),
        a[k] <= b[k],
    decreases k,
{
    if k > 0 {
        assert(a.take(k)[0] == a[0] && b.take(k)[0] == b[0]);
        assert(a.skip(1).take(k - 1) =~= a.take(k).skip(1));
        assert(b.skip(1).take(k - 1) =~= b.take(k).skip(1));
        lemma_order_at(a.skip(1), b.skip(1), k - 1);
    }
}

/// Of the names in a directory, exactly those of scenario files are kept, each as often as
/// it is there.
pub proof fn scenario_files_are_kept(names: Seq<Seq<char>>, name: Seq<char>)
    ensures
        runner::scenarios_among(names).contains(name) <==> names.contains(name)
            && runner::names_scenario(name),
        runner::names_scenario(name) ==> runner::scenarios_among(names.push(name))
            == runner::scenarios_among(names).push(name),
        !runner::names_scenario(name) ==> runner::scenarios_among(names.push(name))
            == runner::scenarios_among(names),
{
    let keep = |n: Seq<char>| runner::names_scenario(n);
    names.lemma_filter_push(name, keep);
    lemma_kept(names, name);
}

proof fn lemma_kept(names: Seq<Seq<char>>, name: Seq<char>)
    ensures
        runner::scenarios_among(names).contains(name) <==> names.contains(name)
            && runner::names_scenario(name),
    decreases names.len(),
{
    let keep = |n: Seq<char>| runner::names_scenario(n);
    if names.len() == 0 {
        assert(runner::scenarios_among(names) =~= seq![]) by {
            reveal(Seq::filter);
        }
    } else {
        let front = names.drop_last();
        let last = names.last();
        assert(names =~= front.push(last));
        front.lemma_filter_push(last, keep);
        lemma_kept(front, name);
        let kept = runner::scenarios_among(front);
        if names.contains(name) && name != last {
            let at = choose|at: int| 0 <= at < names.len() && names[at] == name;
            assert(front[at] == name);
        }
        if front.contains(name) {
            let at = choose|at: int| 0 <= at < front.len() && front[at] == name;
            assert(names[at] == name);
        }
        assert(names[names.len() - 1] == last);
        if keep(last) {
            assert(kept.push(last)[kept.len() as int] == last);
            if kept.contains(name) {
                let at = choose|at: int| 0 <= at < kept.len() && kept[at] == name;
                assert(kept.push(last)[at] == name);
            }
            if kept.push(last).contains(name) && name != last {
                let at = choose|at: int| 0 <= at < kept.len() + 1 && kept.push(last)[at] == name;
                assert(kept[at] == name);
            }
        }
    }
}

} // verus!
