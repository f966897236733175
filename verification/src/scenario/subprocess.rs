//! Scenarios whose commands are started as processes. This module decides;
//! whoever drives it starts the process and hands back how it went.

use vstd::prelude::*;
use vstd::string::StringExecFns;

use crate::scenario::render;
use crate::scenario::types::{DialOverrides, EmbeddedReport, Scenario, ScenarioStep};
use crate::split;
use crate::text;

verus! {

/// A command that only a shell can take apart: a chain of commands or a pipe.
/// Angle brackets do not count, since scenarios use them for placeholders.
pub open spec fn needs_shell(command: Seq<char>) -> bool {
    ||| split::contains(command, "&&"@)
    ||| split::contains(command, "||"@)
    ||| split::contains(command, ";"@)
    ||| split::contains(command, "|"@)
}

/// Whether only a shell can take `command` apart.
pub fn has_shell_metacharacters(command: &str) -> (r: bool)
    ensures
        r == needs_shell(command@),
{
    split::has_text(command, "&&") || split::has_text(command, "||") || split::has_text(
        command,
        ";",
    ) || split::has_text(command, "|")
}

/// How to start the command of a step.
#[derive(Debug, Clone)]
pub enum StepCommand {
    /// Hand the text to `sh -c`.
    Shell { script: String },
    /// Start `program` with these arguments.
    Direct { program: String, args: Vec<String> },
}

/// The mathematical value of a `StepCommand`.
#[verifier::ext_equal]
pub enum CommandView {
    Shell { script: Seq<char> },
    Direct { program: Seq<char>, args: Seq<Seq<char>> },
}

impl View for StepCommand {
    type V = CommandView;

    open spec fn view(&self) -> CommandView {
        match *self {
            StepCommand::Shell { script } => CommandView::Shell { script: script@ },
            StepCommand::Direct { program, args } => CommandView::Direct {
                program: program@,
                args: split::texts(args@),
            },
        }
    }
}

/// How to start a command; `None` if it is empty or a comment.
pub open spec fn command_plan(command: Seq<char>) -> Option<CommandView> {
    let trimmed = split::trim(command);
    if trimmed.len() == 0 || trimmed[0] == '#' {
        None
    } else if needs_shell(trimmed) {
        Some(CommandView::Shell { script: trimmed })
    } else {
        let words = split::words(trimmed);
        Some(CommandView::Direct { program: words[0], args: words.skip(1) })
    }
}

/// Text that does not begin or end in white space, and is not empty, has a
/// first word.
pub proof fn lemma_first_word(s: Seq<char>)
    requires
        s.len() > 0,
        !split::is_space(s[0]),
    ensures
        split::words(s).len() > 0,
        split::words(s)[0].len() > 0,
        split::starts_with(s, split::words(s)[0]),
{
    split::lemma_word_len_bound(s.skip(1));
    let n = (1 + split::word_len(s.skip(1))) as int;
    assert(split::words(s) =~= seq![s.take(n)] + split::words(s.skip(n)));
    assert(s.take(s.take(n).len() as int) =~= s.take(n));
}

/// What is left after trimming does not begin in white space.
pub proof fn lemma_trim_start(s: Seq<char>)
    ensures
        split::trim(s).len() > 0 ==> !split::is_space(split::trim(s)[0]),
    decreases s.len(),
{
    if s.len() > 0 && split::is_space(s[0]) {
        lemma_trim_start(s.skip(1));
        assert(split::trim_start(s) == split::trim_start(s.skip(1)));
    } else {
        lemma_trim_end_keeps_start(s);
    }
}

proof fn lemma_trim_end_keeps_start(s: Seq<char>)
    ensures
        split::trim_end(s).len() > 0 ==> split::trim_end(s)[0] == s[0] && s.len() > 0,
    decreases s.len(),
{
    if s.len() > 0 && split::is_space(s.last()) {
        lemma_trim_end_keeps_start(s.drop_last());
    }
}

/// Decides how to start a command.
pub fn plan_command(command: &str) -> (r: Option<StepCommand>)
    ensures
        match r {
            Some(c) => command_plan(command@) == Some(c@),
            None => command_plan(command@) is None,
        },
{
    let trimmed: String = split::trimmed(command);
    if trimmed.as_str().is_empty() {
        return None;
    }
    if trimmed.as_str().get_char(0) == '#' {
        return None;
    }
    if has_shell_metacharacters(trimmed.as_str()) {
        return Some(StepCommand::Shell { script: trimmed });
    }
    let mut args: Vec<String> = split::split_words(trimmed.as_str());
    proof {
        lemma_trim_start(command@);
        lemma_first_word(trimmed@);
    }
    let ghost all = split::texts(args@);
    assert(all.len() == args@.len());
    let program: String = args.remove(0);
    proof {
        assert(program@ == all[0]);
        assert(split::texts(args@) =~= all.skip(1));
    }
    Some(StepCommand::Direct { program, args })
}

/// An environment variable: name and value.
pub open spec fn env_view(v: Seq<(String, String)>) -> Seq<(Seq<char>, Seq<char>)> {
    Seq::new(v.len(), |i: int| (v[i].0@, v[i].1@))
}

/// The variables that carry the overridden values to a command.
pub open spec fn dial_env(dials: DialOverrides) -> Seq<(Seq<char>, Seq<char>)> {
    (match dials.oracle_shock_bps {
        Some(v) => seq![("OPENHL_ORACLE_SHOCK_BPS"@, text::decimal_int(v as int))],
        None => seq![],
    }) + (match dials.liquidation_buffer_bps {
        Some(v) => seq![("OPENHL_LIQUIDATION_BUFFER_BPS"@, text::decimal(v as nat))],
        None => seq![],
    }) + (match dials.matching_workload_size {
        Some(v) => seq![("OPENHL_MATCHING_WORKLOAD_SIZE"@, text::decimal(v as nat))],
        None => seq![],
    })
}

/// The variables that carry the overridden values to a command.
pub fn dial_variables(dials: &DialOverrides) -> (r: Vec<(String, String)>)
    ensures
        env_view(r@) == dial_env(*dials),
{
    let mut r: Vec<(String, String)> = Vec::new();
    if let Some(v) = dials.oracle_shock_bps {
        r.push(("OPENHL_ORACLE_SHOCK_BPS".to_owned(), text::decimal_int_text(v as i128)));
    }
    if let Some(v) = dials.liquidation_buffer_bps {
        r.push(("OPENHL_LIQUIDATION_BUFFER_BPS".to_owned(), text::decimal_text(v as u128)));
    }
    if let Some(v) = dials.matching_workload_size {
        r.push(("OPENHL_MATCHING_WORKLOAD_SIZE".to_owned(), text::decimal_text(v as u128)));
    }
    assert(env_view(r@) =~= dial_env(*dials));
    r
}

/// How a started command went.
#[derive(Debug, Clone)]
pub enum StepOutcome {
    /// It ran to its end. `captured` is all that it printed.
    Exited { success: bool, code: Option<i32>, captured: String },
    /// It could not be started.
    SpawnFailed { message: String },
}

/// Where a run stands: the step that is next or under way, and what the steps
/// before it came to.
#[derive(Debug, Clone, Copy)]
pub struct RunState {
    pub index: usize,
    pub report: EmbeddedReport,
}

impl RunState {
    /// The report accounts for every step before `index`, each in one way,
    /// and only steps that passed were held to an expected text.
    pub open spec fn well_formed(self, scenario: Scenario) -> bool {
        let report = self.report;
        &&& self.index <= scenario.steps@.len()
        &&& report.total == scenario.steps@.len()
        &&& report.passed + report.failed + report.skipped == self.index
        &&& report.expectations_verified + report.expectations_failed <= report.passed
    }
}

/// What to do next: print `output`, then start `command` if there is one. If
/// there is none, the run is over.
pub struct Advance {
    pub output: String,
    pub state: RunState,
    pub command: Option<StepCommand>,
}

/// The mathematical value of an `Advance`.
pub struct AdvanceView {
    pub output: Seq<char>,
    pub index: nat,
    pub report: EmbeddedReport,
    pub command: Option<CommandView>,
}

impl View for Advance {
    type V = AdvanceView;

    open spec fn view(&self) -> AdvanceView {
        AdvanceView {
            output: self.output@,
            index: self.state.index as nat,
            report: self.state.report,
            command: match self.command {
                Some(c) => Some(c@),
                None => None,
            },
        }
    }
}

/// What is printed before the first step.
pub open spec fn intro_text(scenario: Scenario) -> Seq<char> {
    "─── scenario: "@ + scenario.name@ + " ────────────────────────────────────\n"@
        + "HEADLINE (curator claim): "@ + scenario.headline@ + "\n\nDESCRIPTION:\n"@
        + render::description_text(scenario.description@)
        + "\nPREREQUISITES (operator's responsibility):\n"@
        + "  solana-test-validator --reset    # in another terminal\n"@
        + "  cargo build-sbf -p openhl-core\n"@
        + "  solana program deploy target/deploy/openhl_core.so\n\n"@
}

/// What is printed before a step.
pub open spec fn step_text(step: ScenarioStep, number: nat, total: nat) -> Seq<char> {
    "─── Step "@ + text::decimal(number) + " of "@ + text::decimal(total)
        + " ───────────────────────────\n"@ + "  "@ + step.explanation@ + "\n  $ "@ + step.command@
        + "\n"@ + render::expect_line("  # (looking for: "@, step.expect, ")\n"@) + "\n"@
}

/// What is printed for a step without a command.
pub open spec fn informational_text() -> Seq<char> {
    "  (informational step — no command executed)\n\n"@
}

/// What is printed after the last step.
pub open spec fn verdict_text(report: EmbeddedReport, path: Seq<char>) -> Seq<char> {
    let expects = (report.expectations_verified + report.expectations_failed) as nat;
    "─── verdict ───────────────────────────────────────────\n"@ + text::decimal(
        report.total as nat,
    ) + " step(s): "@ + text::decimal(report.passed as nat) + " passed / "@ + text::decimal(
        report.failed as nat,
    ) + " failed / "@ + text::decimal(report.skipped as nat) + " skipped (informational)\n"@ + (
    if expects > 0 {
        text::decimal(expects) + " declared expected-output substring(s): "@ + text::decimal(
            report.expectations_verified as nat,
        ) + " verified ✓ / "@ + text::decimal(report.expectations_failed as nat)
            + " not found ✗\n"@
    } else {
        seq![]
    }) + "source: "@ + path + "\n"@ + render::footer_text()
}

/// The report with one more informational step.
pub open spec fn with_skip(report: EmbeddedReport) -> EmbeddedReport {
    EmbeddedReport { skipped: (report.skipped + 1) as usize, ..report }
}

/// What comes next when the steps before `i` are done: steps without a
/// command are passed over up to the next one with a command, or to the end.
pub open spec fn advance(
    scenario: Scenario,
    path: Seq<char>,
    i: nat,
    report: EmbeddedReport,
) -> AdvanceView
    decreases scenario.steps@.len() - i,
{
    let total = scenario.steps@.len();
    if i >= total {
        AdvanceView { output: verdict_text(report, path), index: i, report, command: None }
    } else {
        let step = scenario.steps@[i as int];
        match command_plan(step.command@) {
            Some(c) => AdvanceView {
                output: step_text(step, i + 1, total),
                index: i,
                report,
                command: Some(c),
            },
            None => {
                let rest = advance(scenario, path, i + 1, with_skip(report));
                AdvanceView {
                    output: step_text(step, i + 1, total) + informational_text() + rest.output,
                    ..rest
                }
            },
        }
    }
}

/// What is printed about the expected text of a step that passed.
pub open spec fn expectation_text(
    expect: Option<String>,
    captured: Seq<char>,
    quote: Seq<char>,
) -> Seq<char> {
    match expect {
        Some(e) => if split::contains(captured, e@) {
            "  ✓ expected substring found: "@ + quote + "\n"@
        } else {
            "  ✗ expected substring NOT found: "@ + quote + "\n"@
        },
        None => seq![],
    }
}

/// The quoted form of an expected text, if there is one.
pub open spec fn expect_quote(expect: Option<String>) -> Seq<char> {
    match expect {
        Some(e) => text::quoted_text(e@),
        None => seq![],
    }
}

/// What is printed when a command is done. `quote` is the quoted form of the
/// expected text.
pub open spec fn outcome_text(
    step: ScenarioStep,
    number: nat,
    outcome: StepOutcome,
    quote: Seq<char>,
) -> Seq<char> {
    match outcome {
        StepOutcome::Exited { success, code, captured } => if success {
            "\n  ✓ step "@ + text::decimal(number) + " succeeded (exit 0)\n"@ + expectation_text(
                step.expect,
                captured@,
                quote,
            ) + "\n"@
        } else {
            "\n  ✗ step "@ + text::decimal(number) + " exited "@ + text::decimal_int(
                match code {
                    Some(c) => c as int,
                    None => -1,
                },
            ) + "\n\n"@
        },
        StepOutcome::SpawnFailed { message } => "\n  ✗ step "@ + text::decimal(number)
            + " failed to spawn: "@ + message@ + "\n"@ + (if needs_shell(
            split::trim(step.command@),
        ) {
            "    (routed via `sh -c` because the command contains shell metacharacters; check that `sh` is available)\n\n"@
        } else {
            "    (verify the first token of the command is in PATH and the workspace is built)\n\n"@
        }),
    }
}

/// The report with one more command that ran.
pub open spec fn with_outcome(
    report: EmbeddedReport,
    step: ScenarioStep,
    outcome: StepOutcome,
) -> EmbeddedReport {
    match outcome {
        StepOutcome::Exited { success: true, captured, .. } => match step.expect {
            Some(e) => if split::contains(captured@, e@) {
                EmbeddedReport {
                    passed: (report.passed + 1) as usize,
                    expectations_verified: (report.expectations_verified + 1) as usize,
                    ..report
                }
            } else {
                EmbeddedReport {
                    passed: (report.passed + 1) as usize,
                    expectations_failed: (report.expectations_failed + 1) as usize,
                    ..report
                }
            },
            None => EmbeddedReport { passed: (report.passed + 1) as usize, ..report },
        },
        _ => EmbeddedReport { failed: (report.failed + 1) as usize, ..report },
    }
}

fn intro(scenario: &Scenario) -> (r: String)
    ensures
        r@ == intro_text(*scenario),
{
    let mut r: String = "─── scenario: ".to_owned();
    r.append(scenario.name.as_str());
    r.append(" ────────────────────────────────────\n");
    r.append("HEADLINE (curator claim): ");
    r.append(scenario.headline.as_str());
    r.append("\n\nDESCRIPTION:\n");
    r.append(render::description_lines(scenario.description.as_str()).as_str());
    r.append("\nPREREQUISITES (operator's responsibility):\n");
    r.append("  solana-test-validator --reset    # in another terminal\n");
    r.append("  cargo build-sbf -p openhl-core\n");
    r.append("  solana program deploy target/deploy/openhl_core.so\n\n");
    r
}

fn step_header(step: &ScenarioStep, number: u128, total: usize) -> (r: String)
    ensures
        r@ == step_text(*step, number as nat, total as nat),
{
    let mut r: String = "─── Step ".to_owned();
    r.append(text::decimal_text(number).as_str());
    r.append(" of ");
    r.append(text::decimal_text(total as u128).as_str());
    r.append(" ───────────────────────────\n");
    r.append("  ");
    r.append(step.explanation.as_str());
    r.append("\n  $ ");
    r.append(step.command.as_str());
    r.append("\n");
    r.append(render::expect_text("  # (looking for: ", &step.expect, ")\n").as_str());
    r.append("\n");
    r
}

fn verdict(report: &EmbeddedReport, path: &str) -> (r: String)
    requires
        report.expectations_verified + report.expectations_failed <= usize::MAX,
    ensures
        r@ == verdict_text(*report, path@),
{
    let expects: usize = report.expectations_verified + report.expectations_failed;
    let mut found: String = String::new();
    if expects > 0 {
        found = text::decimal_text(expects as u128);
        found.append(" declared expected-output substring(s): ");
        found.append(text::decimal_text(report.expectations_verified as u128).as_str());
        found.append(" verified ✓ / ");
        found.append(text::decimal_text(report.expectations_failed as u128).as_str());
        found.append(" not found ✗\n");
    }
    let mut r: String = "─── verdict ───────────────────────────────────────────\n".to_owned();
    r.append(text::decimal_text(report.total as u128).as_str());
    r.append(" step(s): ");
    r.append(text::decimal_text(report.passed as u128).as_str());
    r.append(" passed / ");
    r.append(text::decimal_text(report.failed as u128).as_str());
    r.append(" failed / ");
    r.append(text::decimal_text(report.skipped as u128).as_str());
    r.append(" skipped (informational)\n");
    r.append(found.as_str());
    r.append("source: ");
    r.append(path);
    r.append("\n");
    r.append(render::cta_footer().as_str());
    r
}

/// Goes on from `state`, whose step is next: `before` is printed first.
fn go_on(scenario: &Scenario, path: &str, state: RunState, before: String) -> (r: Advance)
    requires
        state.well_formed(*scenario),
    ensures
        ({
            let next = advance(*scenario, path@, state.index as nat, state.report);
            r@ == AdvanceView { output: before@ + next.output, ..next }
        }),
        r.state.well_formed(*scenario),
        r.command is Some ==> r.state.index < scenario.steps@.len(),
        r.command is None ==> r.state.index == scenario.steps@.len(),
        r.command is Some ==> command_plan(scenario.steps@[r.state.index as int].command@) is Some,
{
    let mut output: String = before;
    let mut index: usize = state.index;
    let mut report: EmbeddedReport = state.report;
    let ghost first = advance(*scenario, path@, state.index as nat, state.report);
    let ghost whole = before@ + first.output;
    while index < scenario.steps.len()
        invariant
            (RunState { index, report }).well_formed(*scenario),
            output@ + advance(*scenario, path@, index as nat, report).output == whole,
            advance(*scenario, path@, index as nat, report).index == first.index,
            advance(*scenario, path@, index as nat, report).report == first.report,
            advance(*scenario, path@, index as nat, report).command == first.command,
            first == advance(*scenario, path@, state.index as nat, state.report),
            whole == before@ + first.output,
        decreases scenario.steps@.len() - index,
    {
        let step: &ScenarioStep = &scenario.steps[index];
        let ghost shown = output@;
        let header: String = step_header(step, index as u128 + 1, scenario.steps.len());
        output.append(header.as_str());
        match plan_command(step.command.as_str()) {
            Some(command) => {
                return Advance {
                    output,
                    state: RunState { index, report },
                    command: Some(command),
                };
            },
            None => {
                let note: String = "  (informational step — no command executed)\n\n".to_owned();
                output.append(note.as_str());
                let ghost old_report = report;
                report.skipped = report.skipped + 1;
                index += 1;
                proof {
                    assert(report == with_skip(old_report));
                    let rest = advance(*scenario, path@, index as nat, report);
                    assert(output@ + rest.output =~= shown + (header@ + informational_text()
                        + rest.output));
                }
            },
        }
    }
    output.append(verdict(&report, path).as_str());
    Advance { output, state: RunState { index, report }, command: None }
}

/// Starts a run: what to print and which command to start first.
pub fn run_embedded_v1(scenario: &Scenario, path: &str) -> (r: Advance)
    ensures
        ({
            let next = advance(*scenario, path@, 0, fresh_report(*scenario));
            r@ == AdvanceView { output: intro_text(*scenario) + next.output, ..next }
        }),
        r.state.well_formed(*scenario),
        r.command is Some ==> r.state.index < scenario.steps@.len(),
        r.command is None ==> r.state.index == scenario.steps@.len(),
        r.command is Some ==> command_plan(scenario.steps@[r.state.index as int].command@) is Some,
{
    let report: EmbeddedReport = EmbeddedReport {
        total: scenario.steps.len(),
        skipped: 0,
        passed: 0,
        failed: 0,
        expectations_verified: 0,
        expectations_failed: 0,
    };
    go_on(scenario, path, RunState { index: 0, report }, intro(scenario))
}

/// The report before the first step.
pub open spec fn fresh_report(scenario: Scenario) -> EmbeddedReport {
    EmbeddedReport {
        total: scenario.steps@.len() as usize,
        skipped: 0,
        passed: 0,
        failed: 0,
        expectations_verified: 0,
        expectations_failed: 0,
    }
}

/// Records how a command went. `quote` is the quoted form of the expected
/// text of the step.
pub fn record(
    report: &EmbeddedReport,
    step: &ScenarioStep,
    number: u128,
    outcome: &StepOutcome,
    quote: &str,
) -> (r: (String, EmbeddedReport))
    requires
        report.passed < usize::MAX,
        report.failed < usize::MAX,
        report.expectations_verified < usize::MAX,
        report.expectations_failed < usize::MAX,
    ensures
        r.0@ == outcome_text(*step, number as nat, *outcome, quote@),
        r.1 == with_outcome(*report, *step, *outcome),
{
    let mut next: EmbeddedReport = *report;
    match outcome {
        StepOutcome::Exited { success, code, captured } => {
            if *success {
                next.passed = next.passed + 1;
                let mut found: String = String::new();
                match &step.expect {
                    Some(e) => {
                        if split::has_text(captured.as_str(), e.as_str()) {
                            next.expectations_verified = next.expectations_verified + 1;
                            found = "  ✓ expected substring found: ".to_owned();
                        } else {
                            next.expectations_failed = next.expectations_failed + 1;
                            found = "  ✗ expected substring NOT found: ".to_owned();
                        }
                        found.append(quote);
                        found.append("\n");
                    },
                    None => {},
                }
                let mut r: String = "\n  ✓ step ".to_owned();
                r.append(text::decimal_text(number).as_str());
                r.append(" succeeded (exit 0)\n");
                r.append(found.as_str());
                r.append("\n");
                (r, next)
            } else {
                next.failed = next.failed + 1;
                let shown: i32 = match code {
                    Some(c) => *c,
                    None => -1,
                };
                let mut r: String = "\n  ✗ step ".to_owned();
                r.append(text::decimal_text(number).as_str());
                r.append(" exited ");
                r.append(text::decimal_int_text(shown as i128).as_str());
                r.append("\n\n");
                (r, next)
            }
        },
        StepOutcome::SpawnFailed { message } => {
            next.failed = next.failed + 1;
            let mut r: String = "\n  ✗ step ".to_owned();
            r.append(text::decimal_text(number).as_str());
            r.append(" failed to spawn: ");
            r.append(message.as_str());
            r.append("\n");
            if has_shell_metacharacters(split::trimmed(step.command.as_str()).as_str()) {
                r.append("    (routed via `sh -c` because the command contains shell metacharacters; check that `sh` is available)\n\n");
            } else {
                r.append("    (verify the first token of the command is in PATH and the workspace is built)\n\n");
            }
            (r, next)
        },
    }
}

/// Goes on with a run once the command under way is done.
pub fn resume(scenario: &Scenario, path: &str, state: &RunState, outcome: &StepOutcome) -> (r:
    Advance)
    requires
        state.well_formed(*scenario),
        state.index < scenario.steps@.len(),
    ensures
        ({
            let step = scenario.steps@[state.index as int];
            let next = advance(
                *scenario,
                path@,
                state.index as nat + 1,
                with_outcome(state.report, step, *outcome),
            );
            r@ == AdvanceView {
                output: outcome_text(
                    step,
                    state.index as nat + 1,
                    *outcome,
                    expect_quote(step.expect),
                ) + next.output,
                ..next
            }
        }),
        r.state.well_formed(*scenario),
        r.command is Some ==> r.state.index < scenario.steps@.len(),
        r.command is None ==> r.state.index == scenario.steps@.len(),
        r.command is Some ==> command_plan(scenario.steps@[r.state.index as int].command@) is Some,
{
    let step: &ScenarioStep = &scenario.steps[state.index];
    let quote: String = match &step.expect {
        Some(e) => text::quoted(e.as_str()),
        None => String::new(),
    };
    assert(scenario.steps.len() <= usize::MAX);
    let (output, report) = record(
        &state.report,
        step,
        state.index as u128 + 1,
        outcome,
        quote.as_str(),
    );
    go_on(scenario, path, RunState { index: state.index + 1, report }, output)
}

/// What comes next is never before the step it was asked for, so a run ends
/// after at most one command per step.
pub proof fn runs_move_forward(scenario: Scenario, path: Seq<char>, i: nat, report: EmbeddedReport)
    requires
        i <= scenario.steps@.len(),
    ensures
        i <= advance(scenario, path, i, report).index <= scenario.steps@.len(),
        advance(scenario, path, i, report).command is None <==> advance(
            scenario,
            path,
            i,
            report,
        ).index == scenario.steps@.len(),
    decreases scenario.steps@.len() - i,
{
    if i < scenario.steps@.len() && command_plan(scenario.steps@[i as int].command@) is None {
        runs_move_forward(scenario, path, i + 1, with_skip(report));
    }
}

/// When a run is over, every step passed, failed or was skipped, and no more
/// expected texts were looked for than steps passed.
pub proof fn finished_run_accounts_for_every_step(scenario: Scenario, state: RunState)
    requires
        state.well_formed(scenario),
        state.index == scenario.steps@.len(),
    ensures
        state.report.passed + state.report.failed + state.report.skipped == state.report.total,
        state.report.expectations_verified + state.report.expectations_failed
            <= state.report.passed,
{
}

/// Replacing angle brackets, which mark placeholders, by anything that is not
/// itself special never changes whether a command needs a shell.
pub proof fn placeholders_do_not_need_a_shell(a: Seq<char>, b: Seq<char>)
    requires
        a.len() == b.len(),
        forall|i: int|
            0 <= i < a.len() ==> #[trigger] a[i] == b[i] || ((a[i] == '<' || a[i] == '>')
                && b[i] != '&' && b[i] != ';' && b[i] != '|'),
    ensures
        needs_shell(a) == needs_shell(b),
{
    reveal_strlit("&&");
    reveal_strlit("||");
    reveal_strlit(";");
    reveal_strlit("|");
    lemma_plain_needle(a, b, "&&"@);
    lemma_plain_needle(a, b, "||"@);
    lemma_plain_needle(a, b, ";"@);
    lemma_plain_needle(a, b, "|"@);
}

proof fn lemma_plain_needle(a: Seq<char>, b: Seq<char>, needle: Seq<char>)
    requires
        a.len() == b.len(),
        forall|i: int|
            0 <= i < a.len() ==> #[trigger] a[i] == b[i] || ((a[i] == '<' || a[i] == '>')
                && b[i] != '&' && b[i] != ';' && b[i] != '|'),
        forall|i: int|
            0 <= i < needle.len() ==> (#[trigger] needle[i]) == '&' || needle[i] == ';' || needle[i]
                == '|',
    ensures
        split::contains(a, needle) == split::contains(b, needle),
{
    let n = needle.len() as int;
    if split::contains(a, needle) {
        let i = choose|i: int|
            0 <= i <= a.len() - needle.len() && #[trigger] a.subrange(i, i + needle.len())
                == needle;
        assert(b.subrange(i, i + n) =~= needle) by {
            assert forall|j: int| 0 <= j < n implies b.subrange(i, i + n)[j] == needle[j] by {
                assert(a.subrange(i, i + n)[j] == needle[j]);
                assert(a[i + j] == needle[j]);
            }
        }
    }
    if split::contains(b, needle) {
        let i = choose|i: int|
            0 <= i <= b.len() - needle.len() && #[trigger] b.subrange(i, i + needle.len())
                == needle;
        assert(a.subrange(i, i + n) =~= needle) by {
            assert forall|j: int| 0 <= j < n implies a.subrange(i, i + n)[j] == needle[j] by {
                assert(b.subrange(i, i + n)[j] == needle[j]);
                assert(b[i + j] == needle[j]);
                assert(a[i + j] == b[i + j]);
            }
        }
    }
}

} // verus!
