use openhl::scenario::account_layout_demo::run_account_layout_demo_structured;
use openhl::scenario::check::{evaluate_solana_check_dispatch, evaluate_solana_check_layout};
use openhl::scenario::in_process::{
    evaluate, is_v2_eligible, render_v2_sections, run_embedded_v2, try_parse_in_process,
};
use openhl::scenario::instruction_dispatch_demo::{
    run_instruction_dispatch_demo_structured, InstructionDispatchDemoResult,
};
use openhl::scenario::render::{cta_footer, render_list, render_run_v0, render_show};
use openhl::scenario::runner::{
    is_scenario_file, run_embedded, run_failure, scenario_file, scenario_names, EmbeddedRun,
};
use openhl::scenario::subprocess::{
    dial_variables, has_shell_metacharacters, plan_command, resume, run_embedded_v1, Advance,
    StepCommand, StepOutcome,
};
use openhl::scenario::types::{
    DialOverrides, EmbeddedReport, ExpectedOutcome, InProcessTarget, OutcomeStatus, Scenario,
    ScenarioStep, SolanaCheck, StepResult,
};
use openhl::split;

fn minimal_scenario() -> Scenario {
    Scenario {
        name: "bring-up".to_string(),
        category: "bring-up".to_string(),
        description: "Initialize the market and verify state.".to_string(),
        headline: "Boot a market, place one order, observe CU cost.".to_string(),
        steps: vec![ScenarioStep {
            explanation: "Allocate the Market account.".to_string(),
            command: "cargo run -p allocate-market".to_string(),
            expect: Some("Market account allocated".to_string()),
        }],
        expected_outcomes: Vec::new(),
    }
}

#[test]
fn render_list_contains_headline_and_cta() {
    let s = minimal_scenario();
    let path = "/tmp/bring-up.json".to_string();
    let out = render_list(&[(path, s)]);
    assert!(out.contains("bring-up"));
    assert!(out.contains("Boot a market"));
    assert!(out.contains("solana-perp"));
    assert!(out.contains("NEXT:"));
}

#[test]
fn render_show_contains_step_summary() {
    let s = minimal_scenario();
    let out = render_show(&s, "/tmp/bring-up.json");
    assert!(out.contains("steps       : 1 command(s)"));
    assert!(out.contains("Allocate the Market"));
}

#[test]
fn render_run_v0_includes_prereqs_and_steps() {
    let s = minimal_scenario();
    let out = render_run_v0(&s, "scenarios/bring-up.json");
    assert!(out.contains("PREREQUISITES"));
    assert!(out.contains("solana-test-validator"));
    assert!(out.contains("Step 1 — Allocate the Market account."));
    assert!(out.contains("$ cargo run -p allocate-market"));
    assert!(out.contains("expect output to include: Market account allocated"));
}

#[test]
fn list_columns_are_as_wide_as_the_longest_entry() {
    assert_eq!(render_list(&[]), "No scenarios found.\n");
    let mut a = minimal_scenario();
    a.name = "a-much-longer-name".to_string();
    a.category = "x".to_string();
    a.headline = "first".to_string();
    let mut b = minimal_scenario();
    b.name = "é".to_string();
    b.category = "measurement".to_string();
    b.headline = "second".to_string();
    let out = render_list(&[("a.json".to_string(), a), ("b.json".to_string(), b)]);
    let mut expected = String::new();
    expected.push_str(&format!("{:<18}  {:<11}  Headline\n", "Name", "Category"));
    expected.push_str(&format!("{:-<18}  {:-<11}  {:-<60}\n", "", "", ""));
    expected.push_str(&format!("{:<18}  {:<11}  {}\n", "a-much-longer-name", "x", "first"));
    expected.push_str(&format!("{:<18}  {:<11}  {}\n", "é", "measurement", "second"));
    expected.push_str(&cta_footer());
    assert_eq!(out, expected);
}

#[test]
fn list_columns_have_a_least_width() {
    let mut s = minimal_scenario();
    s.name = "x".to_string();
    s.category = "y".to_string();
    s.headline = "z".to_string();
    let out = render_list(&[(String::new(), s)]);
    assert!(out.starts_with(&format!("Name  Category  Headline\n----  --------  {:-<60}\n", "")));
    assert!(out.contains("\nx     y         z\n"));
}

#[test]
fn pages_end_with_three_ways_on() {
    let footer = cta_footer();
    assert!(footer.starts_with("\nNEXT:\n"));
    assert_eq!(footer.lines().count(), 5);
    let s = minimal_scenario();
    assert!(render_list(&[(String::new(), s.clone())]).ends_with(&footer));
    assert!(render_show(&s, "p").ends_with(&footer));
    assert!(render_run_v0(&s, "p").ends_with(&footer));
    let (page, _) = run_embedded_v2(
        &make_scenario(&["cargo run -p scenario -- account-layout-demo"]),
        "p",
        &DialOverrides::default(),
    );
    assert!(page.ends_with(&footer));
    assert!(run_embedded_v1(&make_scenario(&[]), "p").output.ends_with(&footer));
}

#[test]
fn descriptions_are_indented_line_by_line() {
    let mut s = minimal_scenario();
    s.description = "one\r\ntwo\n\nfour\n".to_string();
    s.headline = "h".to_string();
    let out = render_show(&s, "dir/x.json");
    let mut expected = String::new();
    expected.push_str("─── h ────────────────────────────────────\n");
    expected.push_str("name        : bring-up\ncategory    : bring-up\nsource      : dir/x.json\n\n");
    expected.push_str("description :\n  one\n  two\n  \n  four\n");
    expected.push_str("\nsteps       : 1 command(s)\n  [1] Allocate the Market account.\n");
    expected.push_str(&cta_footer());
    assert_eq!(out, expected);
}

#[test]
fn metachar_routes_chains_through_sh() {
    assert!(has_shell_metacharacters("cargo run -p a && cargo run -p b"));
    assert!(has_shell_metacharacters("a || b"));
    assert!(has_shell_metacharacters("a; b"));
    assert!(has_shell_metacharacters("a | grep b"));
}

#[test]
fn metachar_does_not_match_angle_bracket_placeholders() {
    assert!(!has_shell_metacharacters("cargo run -p deposit -- --account <ACCOUNT_ID>"));
    assert!(!has_shell_metacharacters("cmd <input> output"));
}

#[test]
fn metachar_does_not_match_plain_commands() {
    assert!(!has_shell_metacharacters("cargo run -p oracle"));
    assert!(!has_shell_metacharacters("cargo run -p position -- liquidate"));
}

#[test]
fn a_lone_ampersand_needs_no_shell() {
    assert!(!has_shell_metacharacters("a & b"));
    assert!(!has_shell_metacharacters(""));
    assert!(has_shell_metacharacters("|"));
}

#[test]
fn try_parse_in_process_matches_account_layout_demo() {
    assert!(matches!(
        try_parse_in_process("cargo run -p scenario -- account-layout-demo"),
        Some(InProcessTarget::AccountLayoutDemo)
    ));
}

#[test]
fn try_parse_in_process_returns_none_for_other_commands() {
    assert!(try_parse_in_process("cargo run -p oracle").is_none());
    assert!(try_parse_in_process("cargo run -p match-cli").is_none());
    assert!(try_parse_in_process("# comment").is_none());
}

#[test]
fn in_process_commands_may_stand_in_white_space() {
    assert!(matches!(
        try_parse_in_process("\t cargo run -p scenario -- instruction-dispatch-demo \n"),
        Some(InProcessTarget::InstructionDispatchDemo)
    ));
    assert!(try_parse_in_process("cargo run -p scenario --  account-layout-demo").is_none());
}

fn make_scenario(commands: &[&str]) -> Scenario {
    Scenario {
        name: "test".to_string(),
        category: "stress".to_string(),
        description: "test".to_string(),
        headline: "test".to_string(),
        steps: commands
            .iter()
            .map(|c| ScenarioStep {
                explanation: "step".to_string(),
                command: (*c).to_string(),
                expect: None,
            })
            .collect(),
        expected_outcomes: Vec::new(),
    }
}

#[test]
fn is_v2_eligible_true_when_all_steps_in_process() {
    let s = make_scenario(&["cargo run -p scenario -- account-layout-demo"]);
    assert!(is_v2_eligible(&s));
}

#[test]
fn is_v2_eligible_false_when_any_step_is_subprocess() {
    let s = make_scenario(&[
        "cargo run -p scenario -- account-layout-demo",
        "cargo run -p oracle",
    ]);
    assert!(!is_v2_eligible(&s));
}

#[test]
fn a_scenario_without_steps_does_not_run_in_process() {
    assert!(!is_v2_eligible(&make_scenario(&[])));
}

#[test]
fn evaluate_solana_check_account_types_min() {
    let r = run_account_layout_demo_structured();
    assert!(matches!(
        evaluate_solana_check_layout(&SolanaCheck::AccountTypesMin(5), &r),
        OutcomeStatus::Pass
    ));
    assert!(matches!(
        evaluate_solana_check_layout(&SolanaCheck::AccountTypesMin(99), &r),
        OutcomeStatus::Fail(_)
    ));
}

#[test]
fn evaluate_solana_check_slab_beats_orderbook() {
    let r = run_account_layout_demo_structured();
    assert!(matches!(
        evaluate_solana_check_layout(&SolanaCheck::SlabBeatsOrderbookOnDensity, &r),
        OutcomeStatus::Pass
    ));
}

#[test]
fn evaluate_solana_check_account_type_size_lookup() {
    let r = run_account_layout_demo_structured();
    assert!(matches!(
        evaluate_solana_check_layout(
            &SolanaCheck::AccountTypeSize { type_label: "Market".to_string(), expected: 256 },
            &r
        ),
        OutcomeStatus::Pass
    ));
    assert!(matches!(
        evaluate_solana_check_layout(
            &SolanaCheck::AccountTypeSize { type_label: "Market".to_string(), expected: 999 },
            &r
        ),
        OutcomeStatus::Fail(_)
    ));
    assert!(matches!(
        evaluate_solana_check_layout(
            &SolanaCheck::AccountTypeSize { type_label: "NonExistent".to_string(), expected: 0 },
            &r
        ),
        OutcomeStatus::Fail(_)
    ));
}

fn why(status: OutcomeStatus) -> String {
    match status {
        OutcomeStatus::Pass => "pass".to_string(),
        OutcomeStatus::Fail(why) => why,
    }
}

#[test]
fn layout_checks_say_what_was_seen() {
    let r = run_account_layout_demo_structured();
    let judge = |c: SolanaCheck| why(evaluate_solana_check_layout(&c, &r));
    assert_eq!(
        judge(SolanaCheck::AccountTypesMin(99)),
        "observed account_types = 11 (expected ≥ 99)"
    );
    assert_eq!(judge(SolanaCheck::AccountTypesExact(11)), "pass");
    assert_eq!(judge(SolanaCheck::AccountTypesExact(12)), "observed account_types = 11");
    assert_eq!(judge(SolanaCheck::OrderbookSizeExact(2112)), "pass");
    assert_eq!(
        judge(SolanaCheck::OrderbookSizeExact(1)),
        "observed OrderBook size = 2112 bytes"
    );
    assert_eq!(judge(SolanaCheck::OrderbookCapacityExact(32)), "pass");
    assert_eq!(
        judge(SolanaCheck::OrderbookCapacityExact(33)),
        "observed OrderBook capacity = 32"
    );
    assert_eq!(judge(SolanaCheck::SlabCapacityMin(1281)), "pass");
    assert_eq!(
        judge(SolanaCheck::SlabCapacityMin(1282)),
        "observed Slab capacity = 1281 (expected ≥ 1282)"
    );
    assert_eq!(
        judge(SolanaCheck::AccountTypeSize { type_label: "Market".to_string(), expected: 999 }),
        "Market size = 256 bytes (expected 999)"
    );
    assert_eq!(
        judge(SolanaCheck::AccountTypeSize { type_label: "Nope".to_string(), expected: 0 }),
        "Nope not found"
    );
    assert_eq!(
        judge(SolanaCheck::InstructionTagsContiguous),
        "this check targets the instruction-dispatch result, not the account layout"
    );
}

#[test]
fn density_is_orders_per_byte() {
    let mut r = run_account_layout_demo_structured();
    r.orderbook_capacity = 10;
    r.orderbook_size = 100;
    r.slab_capacity = 20;
    r.slab_size = 200;
    assert_eq!(
        why(evaluate_solana_check_layout(&SolanaCheck::SlabBeatsOrderbookOnDensity, &r)),
        "Slab size (200 bytes) too large for its capacity (20)"
    );
    r.slab_capacity = 10;
    assert_eq!(
        why(evaluate_solana_check_layout(&SolanaCheck::SlabBeatsOrderbookOnDensity, &r)),
        "Slab capacity (10) ≤ OrderBook capacity (10)"
    );
    r.slab_capacity = 20;
    r.slab_size = 199;
    assert!(matches!(
        evaluate_solana_check_layout(&SolanaCheck::SlabBeatsOrderbookOnDensity, &r),
        OutcomeStatus::Pass
    ));
}

#[test]
fn dispatch_checks_say_what_was_seen() {
    let r = run_instruction_dispatch_demo_structured();
    let judge = |c: SolanaCheck| why(evaluate_solana_check_dispatch(&c, &r));
    assert_eq!(judge(SolanaCheck::InstructionCountExact(34)), "pass");
    assert_eq!(
        judge(SolanaCheck::InstructionCountExact(33)),
        "observed instruction count = 34"
    );
    assert_eq!(judge(SolanaCheck::InstructionTagsContiguous), "pass");
    assert_eq!(
        judge(SolanaCheck::InstructionTagMaps { tag: 10, name: "Match".to_string() }),
        "pass"
    );
    assert_eq!(
        judge(SolanaCheck::InstructionTagMaps { tag: 10, name: "Other".to_string() }),
        "tag 10 → Match (expected Other)"
    );
    assert_eq!(
        judge(SolanaCheck::InstructionTagMaps { tag: 99, name: "Other".to_string() }),
        "tag 99 not found"
    );
    assert_eq!(
        judge(SolanaCheck::InstructionCategoryMin {
            category: "position".to_string(),
            expected_min: 3
        }),
        "pass"
    );
    assert_eq!(
        judge(SolanaCheck::InstructionCategoryMin {
            category: "position".to_string(),
            expected_min: 4
        }),
        "category 'position' has 3 (expected ≥ 4)"
    );
    assert_eq!(
        judge(SolanaCheck::AccountTypesMin(1)),
        "this check targets the account-layout result, not the instruction dispatch"
    );
}

#[test]
fn gaps_between_tags_are_listed() {
    let full = run_instruction_dispatch_demo_structured();
    let entries = full
        .entries
        .iter()
        .filter(|e| e.tag == 0 || e.tag == 2 || e.tag == 5)
        .cloned()
        .collect();
    let r = InstructionDispatchDemoResult { entries };
    assert_eq!(
        why(evaluate_solana_check_dispatch(&SolanaCheck::InstructionTagsContiguous, &r)),
        "missing tags: [1, 3, 4]"
    );
}

#[test]
fn checks_need_a_result_of_their_kind() {
    let layout = vec![StepResult::AccountLayoutDemo(run_account_layout_demo_structured())];
    let dispatch =
        vec![StepResult::InstructionDispatch(run_instruction_dispatch_demo_structured())];
    assert_eq!(why(evaluate(&SolanaCheck::AccountTypesMin(5), &layout)), "pass");
    assert_eq!(
        why(evaluate(&SolanaCheck::AccountTypesMin(5), &dispatch)),
        "no account-layout result available"
    );
    assert_eq!(why(evaluate(&SolanaCheck::InstructionCountExact(34), &dispatch)), "pass");
    assert_eq!(
        why(evaluate(&SolanaCheck::InstructionCountExact(34), &layout)),
        "no instruction-dispatch result available"
    );
}

fn outcome(description: &str, check: SolanaCheck) -> ExpectedOutcome {
    ExpectedOutcome { name: "n".to_string(), description: description.to_string(), check }
}

#[test]
fn in_process_page_shows_every_section() {
    let mut s = make_scenario(&[
        "cargo run -p scenario -- account-layout-demo",
        "cargo run -p scenario -- instruction-dispatch-demo",
    ]);
    s.headline = "claim".to_string();
    s.expected_outcomes = vec![
        outcome("enough types", SolanaCheck::AccountTypesMin(5)),
        outcome("all tags", SolanaCheck::InstructionTagsContiguous),
    ];
    let (page, report) = run_embedded_v2(&s, "scenarios/t.json", &DialOverrides::default());
    assert_eq!(
        report,
        EmbeddedReport {
            total: 2,
            skipped: 0,
            passed: 2,
            failed: 0,
            expectations_verified: 0,
            expectations_failed: 0
        }
    );
    assert!(page.starts_with(
        "─── scenario: test ────────────────────────────────────\n\nHEADLINE ✓: claim\n\nTIMELINE:\n    inspect    11 on-chain account types via openhl-state constants\n    aggregate  85328 bytes total (one of each)\n    compare    OrderBook (2112 bytes / 32 orders) vs Slab (82000 bytes / ~1281 orders)\n    enumerate  34 instruction tags in the openhl-core dispatch table\n"
    ));
    let r = run_instruction_dispatch_demo_structured();
    assert!(page.contains(&format!(
        "    bring-up   {} instructions allocate / initialize state\n    operational  {} order, {} position, {} vault, plus oracle / funding / builder / insurance\n\nDELTA:\n",
        r.count_in_category("bring-up"),
        r.count_in_category("order"),
        r.count_in_category("position"),
        r.count_in_category("vault")
    )));
    assert!(page.contains(&format!("  {:<16}  {:<10}  {:>6}  {}\n", "Market", "MARKET", 256, "v1")));
    assert!(page.contains("  OrderBook (flat): 2112 bytes / 32 orders → 66 bytes/order\n"));
    assert!(page.contains("  Slab (critbit):   82000 bytes / ~1281 orders → ~64 bytes/order\n"));
    assert!(page.contains(&format!(
        "  {}  {}  {}  {}\n",
        "─".repeat(4),
        "─".repeat(28),
        "─".repeat(11),
        "─".repeat(60)
    )));
    assert!(page.contains("\n  Total: 34 instructions; tags contiguous 0..=33\n"));
    assert!(page.contains(
        "\nOUTCOMES:\n  ✓ enough types\n  ✓ all tags\n\n  2 of 2 outcome(s) verified.\n\nsource: scenarios/t.json\n"
    ));
}

#[test]
fn headline_mark_follows_the_checks() {
    let mut s = make_scenario(&["cargo run -p scenario -- account-layout-demo"]);
    let (page, _) = run_embedded_v2(&s, "p", &DialOverrides::default());
    assert!(page.contains("HEADLINE (unverified): test\n"));
    assert!(page
        .contains("OUTCOMES:\n  (no expected_outcomes declared — HEADLINE shown as unverified)\n"));
    s.expected_outcomes = vec![
        outcome("good", SolanaCheck::AccountTypesMin(5)),
        outcome("bad", SolanaCheck::AccountTypesExact(3)),
    ];
    let (page, _) = run_embedded_v2(&s, "p", &DialOverrides::default());
    assert!(page.contains("HEADLINE ⚠: test\n"));
    assert!(page.contains(
        "  ✓ good\n  ✗ bad (observed account_types = 11)\n\n  1 of 2 outcome(s) verified.\n"
    ));
}

#[test]
fn failed_steps_are_counted_on_the_page() {
    let s = make_scenario(&["cargo run -p scenario -- account-layout-demo"]);
    let results = vec![StepResult::AccountLayoutDemo(run_account_layout_demo_structured())];
    let report = EmbeddedReport {
        total: 3,
        skipped: 0,
        passed: 1,
        failed: 2,
        expectations_verified: 0,
        expectations_failed: 0,
    };
    let page = render_v2_sections(&s, "p", &results, &report);
    assert!(page.contains("\n(2 of 3 step(s) failed during execution)\n\nsource: p\n"));
}

#[test]
fn dials_are_shown_with_a_sign_where_they_have_one() {
    let s = make_scenario(&["cargo run -p scenario -- account-layout-demo"]);
    let dials = DialOverrides {
        oracle_shock_bps: Some(250),
        liquidation_buffer_bps: Some(7),
        matching_workload_size: None,
    };
    let (page, _) = run_embedded_v2(&s, "p", &dials);
    assert!(page.contains(
        "\n\nDIAL OVERRIDES (from CLI flags; informational for v2 in-process targets):\n    oracle_shock_bps       : +250\n    liquidation_buffer_bps : 7\n\nHEADLINE"
    ));
    let dials = DialOverrides {
        oracle_shock_bps: Some(-5),
        liquidation_buffer_bps: None,
        matching_workload_size: Some(9),
    };
    let (page, _) = run_embedded_v2(&s, "p", &dials);
    assert!(page.contains("    oracle_shock_bps       : -5\n    matching_workload_size : 9\n"));
}

#[test]
fn dials_become_environment_variables() {
    assert!(dial_variables(&DialOverrides::default()).is_empty());
    let dials = DialOverrides {
        oracle_shock_bps: Some(i32::MIN),
        liquidation_buffer_bps: Some(u32::MAX),
        matching_workload_size: Some(0),
    };
    let expected: Vec<(String, String)> = vec![
        ("OPENHL_ORACLE_SHOCK_BPS".to_string(), "-2147483648".to_string()),
        ("OPENHL_LIQUIDATION_BUFFER_BPS".to_string(), "4294967295".to_string()),
        ("OPENHL_MATCHING_WORKLOAD_SIZE".to_string(), "0".to_string()),
    ];
    assert_eq!(dial_variables(&dials), expected);
}

#[test]
fn expect_substring_is_a_plain_contains_check() {
    let captured = "boot ok\n  deposit successful at slot 1234\n  done\n";
    assert!(split::has_text(captured, "deposit successful"));
    assert!(!split::has_text(captured, "deposit failed"));
    assert!(!split::has_text(captured, "Deposit Successful"));
}

#[test]
fn commands_are_taken_apart() {
    assert!(plan_command("").is_none());
    assert!(plan_command("   \t").is_none());
    assert!(plan_command("  # note | x").is_none());
    match plan_command("  cargo   run -p\toracle ") {
        Some(StepCommand::Direct { program, args }) => {
            assert_eq!(program, "cargo");
            assert_eq!(args, vec!["run", "-p", "oracle"]);
        }
        _ => panic!("a plain command"),
    }
    match plan_command(" a | b ") {
        Some(StepCommand::Shell { script }) => assert_eq!(script, "a | b"),
        _ => panic!("a pipe"),
    }
    match plan_command("deposit --account <ID>") {
        Some(StepCommand::Direct { args, .. }) => assert_eq!(args, vec!["--account", "<ID>"]),
        _ => panic!("a placeholder"),
    }
}

fn exited(success: bool, code: Option<i32>, captured: &str) -> StepOutcome {
    StepOutcome::Exited { success, code, captured: captured.to_string() }
}

fn program_of(next: &Advance) -> String {
    match &next.command {
        Some(StepCommand::Direct { program, .. }) => program.clone(),
        Some(StepCommand::Shell { script }) => format!("sh:{script}"),
        None => "over".to_string(),
    }
}

#[test]
fn a_run_goes_step_by_step() {
    let mut s = make_scenario(&["# read this", "first x", "second | y", "third", ""]);
    s.steps[1].expect = Some("say \"hi\"".to_string());
    s.steps[2].expect = Some("never".to_string());
    let start = run_embedded_v1(&s, "scenarios/t.json");
    assert!(start.output.starts_with(
        "─── scenario: test ────────────────────────────────────\nHEADLINE (curator claim): test\n\nDESCRIPTION:\n  test\n\nPREREQUISITES (operator's responsibility):\n"
    ));
    assert!(start.output.contains(
        "─── Step 1 of 5 ───────────────────────────\n  step\n  $ # read this\n\n  (informational step — no command executed)\n\n"
    ));
    assert!(start.output.ends_with(
        "─── Step 2 of 5 ───────────────────────────\n  step\n  $ first x\n  # (looking for: say \"hi\")\n\n"
    ));
    assert_eq!(program_of(&start), "first");

    let next = resume(&s, "scenarios/t.json", &start.state, &exited(true, Some(0), ".. say \"hi\" .."));
    assert_eq!(program_of(&next), "sh:second | y");
    assert!(next.output.starts_with(
        "\n  ✓ step 2 succeeded (exit 0)\n  ✓ expected substring found: \"say \\\"hi\\\"\"\n\n"
    ));

    let next = resume(&s, "scenarios/t.json", &next.state, &exited(true, Some(0), "nothing"));
    assert_eq!(program_of(&next), "third");
    assert!(next.output.starts_with(
        "\n  ✓ step 3 succeeded (exit 0)\n  ✗ expected substring NOT found: \"never\"\n\n"
    ));

    let next = resume(&s, "scenarios/t.json", &next.state, &exited(false, Some(7), "x"));
    assert_eq!(program_of(&next), "over");
    assert!(next.output.starts_with("\n  ✗ step 4 exited 7\n\n"));
    assert!(next.output.contains(
        "5 step(s): 2 passed / 1 failed / 2 skipped (informational)\n2 declared expected-output substring(s): 1 verified ✓ / 1 not found ✗\nsource: scenarios/t.json\n"
    ));
    assert!(next.output.ends_with(&cta_footer()));
    assert_eq!(
        next.state.report,
        EmbeddedReport {
            total: 5,
            skipped: 2,
            passed: 2,
            failed: 1,
            expectations_verified: 1,
            expectations_failed: 1
        }
    );
    assert_eq!(run_failure(&next.state.report).unwrap(), "1 step(s) failed during scenario run");
}

#[test]
fn steps_that_do_not_start_or_have_no_code() {
    let s = make_scenario(&["one", "two; three"]);
    let start = run_embedded_v1(&s, "p");
    let failed = StepOutcome::SpawnFailed { message: "No such file".to_string() };
    let next = resume(&s, "p", &start.state, &failed);
    assert!(next.output.starts_with(
        "\n  ✗ step 1 failed to spawn: No such file\n    (verify the first token of the command is in PATH and the workspace is built)\n\n"
    ));
    let shell = resume(&s, "p", &next.state, &failed);
    assert!(shell.output.starts_with(
        "\n  ✗ step 2 failed to spawn: No such file\n    (routed via `sh -c` because the command contains shell metacharacters; check that `sh` is available)\n\n"
    ));
    assert_eq!(shell.state.report.failed, 2);
    let killed = resume(&s, "p", &next.state, &exited(false, None, ""));
    assert!(killed.output.starts_with("\n  ✗ step 2 exited -1\n\n"));
    assert!(killed.output.contains("2 step(s): 0 passed / 2 failed / 0 skipped (informational)\nsource: p\n"));
}

#[test]
fn replay_does_not_depend_on_outcomes() {
    let s = make_scenario(&["a", "# skip", "b", "c && d"]);
    let good = exited(true, Some(0), "");
    let bad = exited(false, Some(1), "noise");
    let mut seen: Vec<Vec<String>> = Vec::new();
    for (path, outcome) in [("x", &good), ("y", &bad)] {
        let mut commands = Vec::new();
        let mut next = run_embedded_v1(&s, path);
        while next.command.is_some() {
            commands.push(program_of(&next));
            next = resume(&s, path, &next.state, outcome);
        }
        seen.push(commands);
    }
    assert_eq!(seen[0], vec!["a", "b", "sh:c && d"]);
    assert_eq!(seen[0], seen[1]);
}

#[test]
fn the_runner_picks_the_way() {
    let dials = DialOverrides {
        oracle_shock_bps: Some(1),
        liquidation_buffer_bps: None,
        matching_workload_size: None,
    };
    let inside = make_scenario(&["cargo run -p scenario -- account-layout-demo"]);
    match run_embedded(&inside, "p", &dials) {
        EmbeddedRun::Finished { output, report } => {
            assert!(output.contains("oracle_shock_bps"));
            assert_eq!(report.passed, 1);
            assert!(run_failure(&report).is_none());
        }
        EmbeddedRun::Started { .. } => panic!("should be over"),
    }
    match run_embedded(&make_scenario(&["oracle"]), "p", &dials) {
        EmbeddedRun::Started { first, env } => {
            assert_eq!(program_of(&first), "oracle");
            assert_eq!(env.len(), 1);
        }
        EmbeddedRun::Finished { .. } => panic!("should wait for a command"),
    }
}

#[test]
fn scenario_files_have_a_stem_and_the_extension() {
    assert!(is_scenario_file("bring-up.json"));
    assert!(!is_scenario_file(".json"));
    assert!(!is_scenario_file("bring-up.JSON"));
    assert!(!is_scenario_file("notes.md"));
    assert!(!is_scenario_file("json"));
    assert_eq!(scenario_file("bring-up"), "bring-up.json");
}

#[test]
fn scenario_files_are_listed_in_order() {
    let names: Vec<String> = ["b.json", "é.json", "a-b.json", "notes.md", "a.json", "B.json", "a.json.bak", "ab.json"]
        .iter()
        .map(|n| n.to_string())
        .collect();
    let mut expected: Vec<String> =
        names.iter().filter(|n| n.ends_with(".json")).cloned().collect();
    expected.sort();
    assert_eq!(scenario_names(&names), expected);
    assert_eq!(
        scenario_names(&names),
        ["B.json", "a-b.json", "a.json", "ab.json", "b.json", "é.json"]
    );
    let twice = vec!["x.json".to_string(), "x.json".to_string()];
    assert_eq!(scenario_names(&twice), twice);
    assert!(scenario_names(&[]).is_empty());
    assert!(split::are_in_order("", ""));
    assert!(split::are_in_order("a", "ab"));
    assert!(!split::are_in_order("ab", "a"));
    assert!(!split::are_in_order("b", "ab"));
}
