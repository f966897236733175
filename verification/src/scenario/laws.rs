//! What holds of every scenario: a run follows the list of its steps, and
//! every page ends with the same footer.

use vstd::prelude::*;

use crate::scenario::in_process;
use crate::scenario::render;
use crate::scenario::subprocess;
use crate::scenario::subprocess::StepOutcome;
use crate::scenario::types::{DialOverrides, EmbeddedReport, Scenario};

verus! {

/// The commands of the steps from `i` on, in order. Steps without a command
/// are left out.
pub open spec fn commands_from(scenario: Scenario, i: nat) -> Seq<subprocess::CommandView>
    decreases scenario.steps@.len() - i,
{
    if i >= scenario.steps@.len() {
        seq![]
    } else {
        match subprocess::command_plan(scenario.steps@[i as int].command@) {
            Some(c) => seq![c] + commands_from(scenario, i + 1),
            None => commands_from(scenario, i + 1),
        }
    }
}

/// The commands that a run starts when the steps before `i` are done, the
/// first of them goes as `outcomes[0]` says, the next as `outcomes[1]` says,
/// and the last one has not come back yet.
pub open spec fn started(
    scenario: Scenario,
    path: Seq<char>,
    i: nat,
    report: EmbeddedReport,
    outcomes: Seq<StepOutcome>,
) -> Seq<subprocess::CommandView>
    decreases outcomes.len(),
{
    let next = subprocess::advance(scenario, path, i, report);
    match next.command {
        None => seq![],
        Some(c) => if outcomes.len() == 0 {
            seq![c]
        } else {
            let step = scenario.steps@[next.index as int];
            seq![c] + started(
                scenario,
                path,
                next.index + 1,
                subprocess::with_outcome(next.report, step, outcomes[0]),
                outcomes.skip(1),
            )
        },
    }
}

/// What is started next is the first command that is left.
proof fn lemma_next_command(scenario: Scenario, path: Seq<char>, i: nat, report: EmbeddedReport)
    ensures
        ({
            let next = subprocess::advance(scenario, path, i, report);
            match next.command {
                Some(c) => commands_from(scenario, i) == seq![c] + commands_from(
                    scenario,
                    next.index + 1,
                ),
                None => commands_from(scenario, i) == Seq::<subprocess::CommandView>::empty(),
            }
        }),
    decreases scenario.steps@.len() - i,
{
    if i < scenario.steps@.len() && subprocess::command_plan(
        scenario.steps@[i as int].command@,
    ) is None {
        lemma_next_command(scenario, path, i + 1, subprocess::with_skip(report));
    }
}

/// A run starts the commands of its steps, in the order of the list, one more
/// than have come back, whatever they came to.
pub proof fn run_follows_the_list(
    scenario: Scenario,
    path: Seq<char>,
    i: nat,
    report: EmbeddedReport,
    outcomes: Seq<StepOutcome>,
)
    ensures
        ({
            let all = commands_from(scenario, i);
            started(scenario, path, i, report, outcomes) == if outcomes.len() < all.len() {
                all.take(outcomes.len() as int + 1)
            } else {
                all
            }
        }),
    decreases outcomes.len(),
{
    lemma_next_command(scenario, path, i, report);
    let next = subprocess::advance(scenario, path, i, report);
    let all = commands_from(scenario, i);
    match next.command {
        None => {},
        Some(c) => {
            let rest = commands_from(scenario, next.index + 1);
            assert(all.len() == 1 + rest.len());
            if outcomes.len() == 0 {
                assert(all.take(1) =~= seq![c]);
            } else {
                let step = scenario.steps@[next.index as int];
                run_follows_the_list(
                    scenario,
                    path,
                    next.index + 1,
                    subprocess::with_outcome(next.report, step, outcomes[0]),
                    outcomes.skip(1),
                );
                if outcomes.len() < all.len() {
                    assert(all.take(outcomes.len() as int + 1) =~= seq![c] + rest.take(
                        outcomes.len() as int,
                    ));
                }
            }
        },
    }
}

/// Replay: two runs of one scenario start the same commands in the same
/// order, wherever its file lies and whatever the commands come to.
pub proof fn replay_starts_the_same_commands(
    scenario: Scenario,
    path: Seq<char>,
    other_path: Seq<char>,
    outcomes: Seq<StepOutcome>,
    other_outcomes: Seq<StepOutcome>,
)
    requires
        outcomes.len() == other_outcomes.len(),
    ensures
        started(scenario, path, 0, subprocess::fresh_report(scenario), outcomes) == started(
            scenario,
            other_path,
            0,
            subprocess::fresh_report(scenario),
            other_outcomes,
        ),
{
    let report = subprocess::fresh_report(scenario);
    run_follows_the_list(scenario, path, 0, report, outcomes);
    run_follows_the_list(scenario, other_path, 0, report, other_outcomes);
}

/// `page` ends with `end`.
pub open spec fn ends_with(page: Seq<char>, end: Seq<char>) -> bool {
    page.len() >= end.len() && page.skip(page.len() - end.len()) == end
}

proof fn lemma_ends_with(before: Seq<char>, page: Seq<char>, end: Seq<char>)
    requires
        ends_with(page, end),
    ensures
        ends_with(before + page, end),
{
    let whole = before + page;
    assert(whole.skip(whole.len() - end.len()) =~= page.skip(page.len() - end.len()));
}

/// The list, unless it is empty, the page on one scenario and the one that
/// shows its steps end with the footer.
pub proof fn pages_end_with_the_footer(
    scenarios: Seq<(String, Scenario)>,
    scenario: Scenario,
    path: Seq<char>,
)
    ensures
        scenarios.len() > 0 ==> ends_with(render::list_text(scenarios), render::footer_text()),
        ends_with(render::show_text(scenario, path), render::footer_text()),
        ends_with(render::dry_run_text(scenario, path), render::footer_text()),
{
    let end = render::footer_text();
    let list = render::list_text(scenarios);
    if scenarios.len() > 0 {
        assert(list.skip(list.len() - end.len()) =~= end);
    }
    let show = render::show_text(scenario, path);
    assert(show.skip(show.len() - end.len()) =~= end);
    let dry = render::dry_run_text(scenario, path);
    assert(dry.skip(dry.len() - end.len()) =~= end);
}

/// A run in this process ends its page with the footer.
pub proof fn in_process_run_ends_with_the_footer(
    scenario: Scenario,
    path: Seq<char>,
    dials: DialOverrides,
)
    ensures
        ends_with(in_process::run_text(scenario, path, dials), render::footer_text()),
{
    let end = render::footer_text();
    let results = in_process::scenario_results(scenario);
    let sections = in_process::sections_text(
        scenario,
        path,
        results,
        in_process::all_passed(scenario),
    );
    assert(sections.skip(sections.len() - end.len()) =~= end);
    let page = in_process::run_text(scenario, path, dials);
    assert(page.skip(page.len() - end.len()) =~= sections.skip(sections.len() - end.len()));
}

/// A run that starts commands prints the footer last, when it is over.
pub proof fn command_run_ends_with_the_footer(
    scenario: Scenario,
    path: Seq<char>,
    i: nat,
    report: EmbeddedReport,
)
    ensures
        ({
            let next = subprocess::advance(scenario, path, i, report);
            next.command is None ==> ends_with(next.output, render::footer_text())
        }),
    decreases scenario.steps@.len() - i,
{
    let end = render::footer_text();
    if i >= scenario.steps@.len() {
        let verdict = subprocess::verdict_text(report, path);
        assert(verdict.skip(verdict.len() - end.len()) =~= end);
    } else {
        let step = scenario.steps@[i as int];
        if subprocess::command_plan(step.command@) is None {
            let rest = subprocess::advance(scenario, path, i + 1, subprocess::with_skip(report));
            command_run_ends_with_the_footer(
                scenario,
                path,
                i + 1,
                subprocess::with_skip(report),
            );
            if rest.command is None {
                lemma_ends_with(
                    subprocess::step_text(step, i + 1, scenario.steps@.len())
                        + subprocess::informational_text(),
                    rest.output,
                    end,
                );
            }
        }
    }
}

} // verus!
