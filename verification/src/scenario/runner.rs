//! Which way a scenario runs, and which files hold scenarios.

use vstd::prelude::*;
use vstd::string::StringExecFns;

use crate::scenario::in_process;
use crate::scenario::subprocess;
use crate::scenario::subprocess::Advance;
use crate::scenario::types::{DialOverrides, EmbeddedReport, Scenario};
use crate::split;
use crate::text;

verus! {

/// A run that was started.
pub enum EmbeddedRun {
    /// It is over already: this is what to print.
    Finished { output: String, report: EmbeddedReport },
    /// It waits for a command, or is over; commands get these variables.
    Started { first: Advance, env: Vec<(String, String)> },
}

/// Runs a scenario in this process if every step allows it, else starts it
/// command by command.
pub fn run_embedded(scenario: &Scenario, path: &str, dials: &DialOverrides) -> (r: EmbeddedRun)
    ensures
        if in_process::eligible(*scenario) {
            r matches EmbeddedRun::Finished { output, report } && output@ == in_process::run_text(
                *scenario,
                path@,
                *dials,
            ) && report == in_process::all_passed(*scenario)
        } else {
            r matches EmbeddedRun::Started { first, env } && {
                let next = subprocess::advance(
                    *scenario,
                    path@,
                    0,
                    subprocess::fresh_report(*scenario),
                );
                &&& first@ == subprocess::AdvanceView {
                    output: subprocess::intro_text(*scenario) + next.output,
                    ..next
                }
                &&& first.state.well_formed(*scenario)
                &&& first.command is Some ==> first.state.index < scenario.steps@.len()
                &&& subprocess::env_view(env@) == subprocess::dial_env(*dials)
            }
        },
{
    if in_process::is_v2_eligible(scenario) {
        let (output, report) = in_process::run_embedded_v2(scenario, path, dials);
        EmbeddedRun::Finished { output, report }
    } else {
        EmbeddedRun::Started {
            first: subprocess::run_embedded_v1(scenario, path),
            env: subprocess::dial_variables(dials),
        }
    }
}

/// Why a finished run counts as an error, if it does.
pub open spec fn failure_text(report: EmbeddedReport) -> Option<Seq<char>> {
    if report.failed > 0 {
        Some(text::decimal(report.failed as nat) + " step(s) failed during scenario run"@)
    } else {
        None
    }
}

/// Why a finished run counts as an error, if it does.
pub fn run_failure(report: &EmbeddedReport) -> (r: Option<String>)
    ensures
        match r {
            Some(why) => failure_text(*report) == Some(why@),
            None => failure_text(*report) is None,
        },
{
    if report.failed > 0 {
        let mut why: String = text::decimal_text(report.failed as u128);
        why.append(" step(s) failed during scenario run");
        Some(why)
    } else {
        None
    }
}

/// A file with this name holds a scenario: it has a stem, and the extension
/// `json`.
pub open spec fn names_scenario(file_name: Seq<char>) -> bool {
    file_name.len() > 5 && file_name.skip(file_name.len() - 5) == ".json"@
}

/// Whether a file with this name holds a scenario.
pub fn is_scenario_file(file_name: &str) -> (r: bool)
    ensures
        r == names_scenario(file_name@),
{
    let n: usize = file_name.unicode_len();
    if n <= 5 {
        return false;
    }
    let chars: Vec<char> = text::chars_of(file_name);
    let end: String = text::text_of(&chars, n - 5, n);
    assert(end@ =~= file_name@.skip(file_name@.len() - 5));
    text::same_text(end.as_str(), ".json")
}

/// Of the names of the files in a directory, those that hold scenarios.
pub open spec fn scenarios_among(names: Seq<Seq<char>>) -> Seq<Seq<char>> {
    names.filter(|name: Seq<char>| names_scenario(name))
}

/// Where `name` goes in an ascending list: behind all that come before it.
fn place_of(name: &str, sorted: &Vec<String>) -> (r: usize)
    requires
        split::ascending(split::texts(sorted@)),
    ensures
        r <= sorted@.len(),
        split::ascending(split::texts(sorted@).insert(r as int, name@)),
{
    let ghost all = split::texts(sorted@);
    let mut i: usize = 0;
    while i < sorted.len() && split::are_in_order(sorted[i].as_str(), name)
        invariant
            i <= sorted@.len(),
            all == split::texts(sorted@),
            forall|j: int| 0 <= j < i ==> split::in_order(#[trigger] all[j], name@),
        decreases sorted.len() - i,
    {
        assert(all[i as int] == sorted@[i as int]@);
        i += 1;
    }
    proof {
        let after = all.insert(i as int, name@);
        assert forall|j: int| i <= j < all.len() implies split::in_order(
            name@,
            #[trigger] all[j],
        ) by {
            split::lemma_order_is_total(name@, all[i as int]);
            if i < j {
                split::lemma_order_is_transitive(name@, all[i as int], all[j]);
            }
        }
        assert forall|j: int, k: int| 0 <= j < k < after.len() implies split::in_order(
            #[trigger] after[j],
            #[trigger] after[k],
        ) by {
            let before_j = if j < i {
                j
            } else {
                j - 1
            };
            let before_k = if k < i {
                k
            } else {
                k - 1
            };
            if j != i {
                assert(after[j] == all[before_j]);
            }
            if k != i {
                assert(after[k] == all[before_k]);
            }
        }
    }
    i
}

/// Of the names of the files in a directory, those that hold scenarios, in
/// ascending order.
pub fn scenario_names(names: &[String]) -> (r: Vec<String>)
    ensures
        split::ascending(split::texts(r@)),
        split::texts(r@).to_multiset() == scenarios_among(split::texts(names@)).to_multiset(),
{
    let ghost all = split::texts(names@);
    let mut sorted: Vec<String> = Vec::new();
    let mut i: usize = 0;
    assert(split::texts(sorted@) =~= scenarios_among(all.take(0))) by {
        reveal(Seq::filter);
    }
    while i < names.len()
        invariant
            i <= names@.len(),
            all == split::texts(names@),
            split::ascending(split::texts(sorted@)),
            split::texts(sorted@).to_multiset() == scenarios_among(
                all.take(i as int),
            ).to_multiset(),
        decreases names.len() - i,
    {
        let name: &String = &names[i];
        let ghost so_far = scenarios_among(all.take(i as int));
        proof {
            assert(all.take(i + 1) =~= all.take(i as int).push(name@));
            all.take(i as int).lemma_filter_push(
                name@,
                |name: Seq<char>| names_scenario(name),
            );
        }
        if is_scenario_file(name.as_str()) {
            let at: usize = place_of(name.as_str(), &sorted);
            let ghost before = split::texts(sorted@);
            sorted.insert(at, name.as_str().to_owned());
            proof {
                assert(split::texts(sorted@) =~= before.insert(at as int, name@));
                vstd::seq_lib::to_multiset_insert(before, at as int, name@);
                vstd::seq_lib::to_multiset_build(so_far, name@);
            }
        }
        i += 1;
    }
    assert(all.take(i as int) =~= all);
    sorted
}

/// The name of the file that holds the scenario `name`.
pub fn scenario_file(name: &str) -> (r: String)
    ensures
        r@ == name@ + ".json"@,
{
    let mut r: String = name.to_owned();
    r.append(".json");
    r
}

/// A scenario with a name is found again by the name of its file.
pub proof fn scenario_files_are_listed(name: Seq<char>)
    requires
        name.len() > 0,
    ensures
        names_scenario(name + ".json"@),
{
    reveal_strlit(".json");
    let file = name + ".json"@;
    assert(file.skip(file.len() - 5) =~= ".json"@);
}

} // verus!
