//! Scenarios as text: the list, one in detail, and its steps without running
//! them.

use vstd::prelude::*;
use vstd::string::StringExecFns;

use crate::scenario::types::{Scenario, ScenarioStep};
use crate::split;
use crate::text;

verus! {

/// What every page ends with.
pub open spec fn footer_text() -> Seq<char> {
    "\nNEXT:\n"@ + "  • Adopt this engine  : https://github.com/psyto/openhl-solana\n"@
        + "  • Custom build       : https://fabrknt.com/waitlist.html?product=solana-perp&intent=build\n"@
        + "  • Hosted access      : https://fabrknt.com/waitlist.html?product=solana-perp&intent=hosted\n"@
}

/// What every page ends with.
pub fn cta_footer() -> (r: String)
    ensures
        r@ == footer_text(),
{
    let mut r: String = "\nNEXT:\n".to_owned();
    r.append("  • Adopt this engine  : https://github.com/psyto/openhl-solana\n");
    r.append("  • Custom build       : https://fabrknt.com/waitlist.html?product=solana-perp&intent=build\n");
    r.append("  • Hosted access      : https://fabrknt.com/waitlist.html?product=solana-perp&intent=hosted\n");
    r
}

/// The larger of two numbers.
pub open spec fn larger(a: nat, b: nat) -> nat {
    if a < b {
        b
    } else {
        a
    }
}

/// Width of the column of names: the UTF-8 length of the longest, at least 4.
pub open spec fn name_width(scenarios: Seq<(String, Scenario)>) -> nat
    decreases scenarios.len(),
{
    if scenarios.len() == 0 {
        4
    } else {
        larger(
            name_width(scenarios.drop_last()),
            vstd::utf8::encode_utf8(scenarios.last().1.name@).len(),
        )
    }
}

/// Width of the column of categories: the UTF-8 length of the longest, at
/// least 8.
pub open spec fn category_width(scenarios: Seq<(String, Scenario)>) -> nat
    decreases scenarios.len(),
{
    if scenarios.len() == 0 {
        8
    } else {
        larger(
            category_width(scenarios.drop_last()),
            vstd::utf8::encode_utf8(scenarios.last().1.category@).len(),
        )
    }
}

/// One line of the list.
pub open spec fn list_row(name: Seq<char>, category: Seq<char>, rest: Seq<char>, name_w: nat, cat_w: nat) -> Seq<char> {
    text::pad_right(name, name_w) + "  "@ + text::pad_right(category, cat_w) + "  "@ + rest + "\n"@
}

/// The lines of the first `n` scenarios.
pub open spec fn list_rows(
    scenarios: Seq<(String, Scenario)>,
    name_w: nat,
    cat_w: nat,
    n: nat,
) -> Seq<char>
    decreases n,
{
    if n == 0 {
        seq![]
    } else {
        let s = scenarios[n - 1].1;
        list_rows(scenarios, name_w, cat_w, (n - 1) as nat) + list_row(
            s.name@,
            s.category@,
            s.headline@,
            name_w,
            cat_w,
        )
    }
}

/// The rule below the names of the columns.
pub open spec fn list_rule(name_w: nat, cat_w: nat) -> Seq<char> {
    text::repeat('-', name_w) + "  "@ + text::repeat('-', cat_w) + "  "@ + text::repeat('-', 60)
        + "\n"@
}

/// The list of all scenarios.
pub open spec fn list_text(scenarios: Seq<(String, Scenario)>) -> Seq<char> {
    if scenarios.len() == 0 {
        "No scenarios found.\n"@
    } else {
        let name_w = name_width(scenarios);
        let cat_w = category_width(scenarios);
        list_row("Name"@, "Category"@, "Headline"@, name_w, cat_w) + list_rule(name_w, cat_w)
            + list_rows(scenarios, name_w, cat_w, scenarios.len()) + footer_text()
    }
}

fn row_line(name: &str, category: &str, rest: &str, name_w: usize, cat_w: usize) -> (r: String)
    ensures
        r@ == list_row(name@, category@, rest@, name_w as nat, cat_w as nat),
{
    let mut r: String = text::padded_right(name, name_w);
    r.append("  ");
    r.append(text::padded_right(category, cat_w).as_str());
    r.append("  ");
    r.append(rest);
    r.append("\n");
    r
}

/// The list of all scenarios, each with the file it came from.
pub fn render_list(scenarios: &[(String, Scenario)]) -> (r: String)
    ensures
        r@ == list_text(scenarios@),
{
    if scenarios.len() == 0 {
        return "No scenarios found.\n".to_owned();
    }
    let mut name_w: usize = 4;
    let mut cat_w: usize = 8;
    let mut i: usize = 0;
    while i < scenarios.len()
        invariant
            i <= scenarios@.len(),
            name_w == name_width(scenarios@.take(i as int)),
            cat_w == category_width(scenarios@.take(i as int)),
        decreases scenarios@.len() - i,
    {
        assert(scenarios@.take(i + 1).drop_last() =~= scenarios@.take(i as int));
        let name_len: usize = scenarios[i].1.name.as_str().as_bytes().len();
        if name_w < name_len {
            name_w = name_len;
        }
        let cat_len: usize = scenarios[i].1.category.as_str().as_bytes().len();
        if cat_w < cat_len {
            cat_w = cat_len;
        }
        i += 1;
    }
    assert(scenarios@.take(i as int) =~= scenarios@);
    let mut rows: String = String::new();
    let mut j: usize = 0;
    while j < scenarios.len()
        invariant
            j <= scenarios@.len(),
            rows@ == list_rows(scenarios@, name_w as nat, cat_w as nat, j as nat),
        decreases scenarios@.len() - j,
    {
        let s: &Scenario = &scenarios[j].1;
        rows.append(
            row_line(s.name.as_str(), s.category.as_str(), s.headline.as_str(), name_w, cat_w).as_str(),
        );
        j += 1;
    }
    let mut rule: String = text::repeat_char('-', name_w);
    rule.append("  ");
    rule.append(text::repeat_char('-', cat_w).as_str());
    rule.append("  ");
    rule.append(text::repeat_char('-', 60).as_str());
    rule.append("\n");
    let mut r: String = row_line("Name", "Category", "Headline", name_w, cat_w);
    r.append(rule.as_str());
    r.append(rows.as_str());
    r.append(cta_footer().as_str());
    r
}

/// The first `n` lines of `lines`, indented.
pub open spec fn indented(lines: Seq<Seq<char>>, n: nat) -> Seq<char>
    decreases n,
{
    if n == 0 {
        seq![]
    } else {
        indented(lines, (n - 1) as nat) + "  "@ + lines[n - 1] + "\n"@
    }
}

/// A description, each of its lines indented.
pub open spec fn description_text(description: Seq<char>) -> Seq<char> {
    indented(split::lines(description), split::lines(description).len())
}

/// A description, each of its lines indented.
pub fn description_lines(description: &str) -> (r: String)
    ensures
        r@ == description_text(description@),
{
    let lines: Vec<String> = split::split_lines(description);
    let ghost all = split::lines(description@);
    let mut r: String = String::new();
    let mut i: usize = 0;
    while i < lines.len()
        invariant
            i <= lines@.len(),
            all == split::texts(lines@),
            r@ == indented(all, i as nat),
        decreases lines@.len() - i,
    {
        r.append("  ");
        r.append(lines[i].as_str());
        r.append("\n");
        i += 1;
    }
    r
}

/// The first `n` steps, numbered, by what they explain.
pub open spec fn explanations(steps: Seq<ScenarioStep>, n: nat) -> Seq<char>
    decreases n,
{
    if n == 0 {
        seq![]
    } else {
        explanations(steps, (n - 1) as nat) + "  ["@ + text::decimal(n) + "] "@ + steps[n
            - 1].explanation@ + "\n"@
    }
}

/// One scenario in detail.
pub open spec fn show_text(scenario: Scenario, path: Seq<char>) -> Seq<char> {
    "─── "@ + scenario.headline@ + " ────────────────────────────────────\n"@ + "name        : "@
        + scenario.name@ + "\ncategory    : "@ + scenario.category@ + "\nsource      : "@ + path
        + "\n\ndescription :\n"@ + description_text(scenario.description@) + "\nsteps       : "@
        + text::decimal(scenario.steps@.len()) + " command(s)\n"@ + explanations(
        scenario.steps@,
        scenario.steps@.len(),
    ) + footer_text()
}

/// One scenario in detail, with the file it came from.
pub fn render_show(scenario: &Scenario, path: &str) -> (r: String)
    ensures
        r@ == show_text(*scenario, path@),
{
    let mut list: String = String::new();
    let mut i: usize = 0;
    while i < scenario.steps.len()
        invariant
            i <= scenario.steps@.len(),
            list@ == explanations(scenario.steps@, i as nat),
        decreases scenario.steps@.len() - i,
    {
        list.append("  [");
        list.append(text::decimal_text(i as u128 + 1).as_str());
        list.append("] ");
        list.append(scenario.steps[i].explanation.as_str());
        list.append("\n");
        i += 1;
    }
    let mut r: String = "─── ".to_owned();
    r.append(scenario.headline.as_str());
    r.append(" ────────────────────────────────────\n");
    r.append("name        : ");
    r.append(scenario.name.as_str());
    r.append("\ncategory    : ");
    r.append(scenario.category.as_str());
    r.append("\nsource      : ");
    r.append(path);
    r.append("\n\ndescription :\n");
    r.append(description_lines(scenario.description.as_str()).as_str());
    r.append("\nsteps       : ");
    r.append(text::decimal_text(scenario.steps.len() as u128).as_str());
    r.append(" command(s)\n");
    r.append(list.as_str());
    r.append(cta_footer().as_str());
    r
}

/// The line on the text that a step should print, if it says so.
pub open spec fn expect_line(before: Seq<char>, expect: Option<String>, after: Seq<char>) -> Seq<char> {
    match expect {
        Some(e) => before + e@ + after,
        None => seq![],
    }
}

/// One step, without running it.
pub open spec fn dry_step(step: ScenarioStep, number: nat) -> Seq<char> {
    "\n  Step "@ + text::decimal(number) + " — "@ + step.explanation@ + "\n    $ "@ + step.command@
        + "\n"@ + expect_line("    # expect output to include: "@, step.expect, "\n"@)
}

/// The first `n` steps, without running them.
pub open spec fn dry_steps(steps: Seq<ScenarioStep>, n: nat) -> Seq<char>
    decreases n,
{
    if n == 0 {
        seq![]
    } else {
        dry_steps(steps, (n - 1) as nat) + dry_step(steps[n - 1], n)
    }
}

/// What has to be set up before the steps can run.
pub open spec fn prerequisites() -> Seq<char> {
    "\nPREREQUISITES:\n"@ + "  # local validator running:\n"@ + "  solana-test-validator --reset\n"@
        + "  # build + deploy the on-chain program:\n"@ + "  cargo build-sbf -p openhl-core\n"@
        + "  solana program deploy target/deploy/openhl_core.so\n"@
}

/// A scenario with all its steps, without running them.
pub open spec fn dry_run_text(scenario: Scenario, path: Seq<char>) -> Seq<char> {
    "─── scenario: "@ + scenario.name@ + " ────────────────────────────────────\n"@ + "HEADLINE: "@
        + scenario.headline@ + "\n\nDESCRIPTION:\n"@ + description_text(scenario.description@)
        + prerequisites() + "\nSTEPS ("@ + text::decimal(scenario.steps@.len())
        + " command(s)):\n"@ + dry_steps(scenario.steps@, scenario.steps@.len()) + "\nSOURCE: "@
        + path + "\n"@ + "\nNOTE: v0 prints the step list rather than executing each command\n"@
        + "in-process. Embedded execution with CU-cost aggregation lands in v1.\n"@ + footer_text()
}

/// The line on the text that a step should print, if it says so.
pub fn expect_text(before: &str, expect: &Option<String>, after: &str) -> (r: String)
    ensures
        r@ == expect_line(before@, *expect, after@),
{
    match expect {
        Some(e) => {
            let mut r: String = before.to_owned();
            r.append(e.as_str());
            r.append(after);
            r
        },
        None => String::new(),
    }
}

fn dry_step_text(step: &ScenarioStep, number: u128) -> (r: String)
    ensures
        r@ == dry_step(*step, number as nat),
{
    let mut r: String = "\n  Step ".to_owned();
    r.append(text::decimal_text(number).as_str());
    r.append(" — ");
    r.append(step.explanation.as_str());
    r.append("\n    $ ");
    r.append(step.command.as_str());
    r.append("\n");
    r.append(expect_text("    # expect output to include: ", &step.expect, "\n").as_str());
    r
}

/// A scenario with all its steps, without running them.
pub fn render_run_v0(scenario: &Scenario, path: &str) -> (r: String)
    ensures
        r@ == dry_run_text(*scenario, path@),
{
    let mut steps: String = String::new();
    let mut i: usize = 0;
    while i < scenario.steps.len()
        invariant
            i <= scenario.steps@.len(),
            steps@ == dry_steps(scenario.steps@, i as nat),
        decreases scenario.steps@.len() - i,
    {
        steps.append(dry_step_text(&scenario.steps[i], i as u128 + 1).as_str());
        i += 1;
    }
    let mut needs: String = "\nPREREQUISITES:\n".to_owned();
    needs.append("  # local validator running:\n");
    needs.append("  solana-test-validator --reset\n");
    needs.append("  # build + deploy the on-chain program:\n");
    needs.append("  cargo build-sbf -p openhl-core\n");
    needs.append("  solana program deploy target/deploy/openhl_core.so\n");
    let mut r: String = "─── scenario: ".to_owned();
    r.append(scenario.name.as_str());
    r.append(" ────────────────────────────────────\n");
    r.append("HEADLINE: ");
    r.append(scenario.headline.as_str());
    r.append("\n\nDESCRIPTION:\n");
    r.append(description_lines(scenario.description.as_str()).as_str());
    r.append(needs.as_str());
    r.append("\nSTEPS (");
    r.append(text::decimal_text(scenario.steps.len() as u128).as_str());
    r.append(" command(s)):\n");
    r.append(steps.as_str());
    r.append("\nSOURCE: ");
    r.append(path);
    r.append("\n");
    r.append("\nNOTE: v0 prints the step list rather than executing each command\n");
    r.append("in-process. Embedded execution with CU-cost aggregation lands in v1.\n");
    r.append(cta_footer().as_str());
    r
}

} // verus!
