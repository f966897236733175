use openhl::scenario::account_layout_demo::{
    run_account_layout_demo_cli, run_account_layout_demo_structured, AccountLayoutDemoResult,
    AccountLayoutEntry,
};
use openhl::scenario::instruction_dispatch_demo::{
    run_instruction_dispatch_demo_cli, run_instruction_dispatch_demo_structured,
    InstructionDispatchDemoResult, InstructionEntry,
};

#[test]
fn every_type_has_nonzero_size() {
    let r = run_account_layout_demo_structured();
    assert!(!r.entries.is_empty());
    for e in &r.entries {
        assert!(e.size_bytes > 0, "{} reported zero bytes", e.type_label);
        assert!(!e.discriminator_text.is_empty(), "{} has empty tag", e.type_label);
    }
}

#[test]
fn discriminators_are_distinct() {
    let r = run_account_layout_demo_structured();
    let set: std::collections::HashSet<_> = r.entries.iter().map(|e| e.discriminator).collect();
    assert_eq!(set.len(), r.entries.len(), "duplicate discriminator found");
}

#[test]
fn slab_packs_more_orders_per_byte_than_flat_orderbook() {
    let r = run_account_layout_demo_structured();
    assert!(
        r.slab_capacity > r.orderbook_capacity,
        "expected Slab capacity ({}) > OrderBook capacity ({})",
        r.slab_capacity,
        r.orderbook_capacity
    );
    assert!(r.slab_bytes_per_order < r.orderbook_bytes_per_order);
}

#[test]
fn market_is_versioned() {
    let r = run_account_layout_demo_structured();
    let market = r.entries.iter().find(|e| e.type_label == "Market").unwrap();
    assert!(market.version.is_some(), "Market should expose VERSION");
}

#[test]
fn layout_figures() {
    let r = run_account_layout_demo_structured();
    let seen: Vec<(&str, &str, usize, Option<u8>)> = r
        .entries
        .iter()
        .map(|e| (e.type_label, e.discriminator_text.as_str(), e.size_bytes, e.version))
        .collect();
    assert_eq!(
        seen,
        vec![
            ("Market", "MARKET", 256, Some(1)),
            ("Stats", "STATS", 56, None),
            ("OrderBook", "BOOK", 2112, None),
            ("Oracle", "ORACLE", 112, None),
            ("FundingState", "FUNDING", 120, None),
            ("Position", "POSITION", 144, None),
            ("TradingVault", "TVAULT", 160, None),
            ("VaultShare", "VSHARE", 128, None),
            ("BuilderProfile", "BUILDER", 104, None),
            ("InsuranceFund", "INSFUND", 136, None),
            ("Slab", "SLAB", 82000, None),
        ]
    );
    assert_eq!(r.total_bytes(), 85328);
    assert_eq!(r.distinct_account_types(), 11);
    assert_eq!(r.largest().unwrap().type_label, "Slab");
    assert_eq!(r.smallest().unwrap().type_label, "Stats");
    assert_eq!((r.orderbook_capacity, r.orderbook_size, r.orderbook_bytes_per_order), (32, 2112, 66));
    assert_eq!((r.slab_capacity, r.slab_size, r.slab_bytes_per_order), (1281, 82000, 64));
}

fn entry(label: &'static str, discriminator: [u8; 8], size_bytes: usize) -> AccountLayoutEntry {
    let mut e = run_account_layout_demo_structured().entries[0].clone();
    e.type_label = label;
    e.discriminator = discriminator;
    e.size_bytes = size_bytes;
    e
}

fn result(entries: Vec<AccountLayoutEntry>) -> AccountLayoutDemoResult {
    let mut r = run_account_layout_demo_structured();
    r.entries = entries;
    r
}

#[test]
fn ties_go_to_the_last_largest_and_the_first_smallest() {
    let r = result(vec![
        entry("a", [1; 8], 5),
        entry("b", [2; 8], 5),
        entry("c", [3; 8], 5),
    ]);
    assert_eq!(r.largest().unwrap().type_label, "c");
    assert_eq!(r.smallest().unwrap().type_label, "a");
    assert_eq!(r.total_bytes(), 15);
}

#[test]
fn types_are_counted_by_discriminator() {
    let r = result(vec![
        entry("a", [1; 8], 5),
        entry("b", [2; 8], 6),
        entry("c", [1; 8], 7),
    ]);
    assert_eq!(r.distinct_account_types(), 2);
    let empty = result(Vec::new());
    assert_eq!(empty.distinct_account_types(), 0);
    assert_eq!(empty.total_bytes(), 0);
    assert!(empty.largest().is_none());
    assert!(empty.smallest().is_none());
}

#[test]
fn layout_report_reads_as_printed() {
    let out = run_account_layout_demo_cli();
    let lines: Vec<&str> = out.lines().collect();
    assert_eq!(lines[0], "");
    assert_eq!(lines[1], "=== openhl-solana — account-layout demo ===");
    assert_eq!(lines[8], format!("    {:<16}  {:<10}  {:>6}  Version", "Type", "Tag", "Bytes"));
    assert_eq!(
        lines[9],
        format!("    {}  {}  {}  {}", "─".repeat(16), "─".repeat(10), "─".repeat(6), "─".repeat(7))
    );
    assert_eq!(lines[10], format!("    {:<16}  {:<10}  {:>6}  {}", "Market", "MARKET", 256, "v1"));
    assert_eq!(lines[11], format!("    {:<16}  {:<10}  {:>6}  {}", "Stats", "STATS", 56, "—"));
    assert!(out.contains("    Total bytes (one of each, 11 types):  85328\n"));
    assert!(out.contains("    Largest single type:                   Slab (82000 bytes)\n"));
    assert!(out.contains("    Smallest single type:                  Stats (56 bytes)\n"));
    assert!(out.contains(
        "    OrderBook (flat array): 2112 bytes for 32 order capacity → 66 bytes/order\n"
    ));
    assert!(out.contains(
        "    Slab (critbit tree):    82000 bytes for ~1281 order capacity → ~64 bytes/order\n"
    ));
    assert!(out.ends_with("    O(N) per fill but the byte layout is trivial to inspect.\n\n"));
}

#[test]
fn dispatch_table_has_thirty_four_entries() {
    let r = run_instruction_dispatch_demo_structured();
    assert_eq!(r.total_instructions(), 34);
}

#[test]
fn all_tags_are_distinct() {
    let r = run_instruction_dispatch_demo_structured();
    assert_eq!(r.distinct_tags(), r.total_instructions());
}

#[test]
fn tags_are_contiguous_zero_to_thirty_three() {
    let r = run_instruction_dispatch_demo_structured();
    for i in 0..=33u8 {
        assert!(r.find_tag(i).is_some(), "missing tag {i}");
    }
    assert_eq!(r.max_tag(), 33);
}

#[test]
fn known_tags_map_to_known_names() {
    let r = run_instruction_dispatch_demo_structured();
    assert_eq!(r.find_tag(0).unwrap().name, "Initialize");
    assert_eq!(r.find_tag(10).unwrap().name, "Match");
    assert_eq!(r.find_tag(18).unwrap().name, "Liquidate");
    assert_eq!(r.find_tag(31).unwrap().name, "SlabMatch");
    assert_eq!(r.find_tag(33).unwrap().name, "PlaceOrderCheckedPythV2");
}

#[test]
fn categories_cover_expected_buckets() {
    let r = run_instruction_dispatch_demo_structured();
    // Every category must appear at least once; spot-check counts.
    assert!(r.count_in_category("bring-up") >= 10);
    assert!(r.count_in_category("order") >= 5);
    assert!(r.count_in_category("position") == 3);
    assert!(r.count_in_category("vault") == 3);
}

#[test]
fn missing_tags_are_not_found() {
    let r = run_instruction_dispatch_demo_structured();
    assert!(r.find_tag(34).is_none());
    assert!(r.find_tag(255).is_none());
    assert_eq!(r.count_in_category("nothing"), 0);
    assert_eq!(r.find_tag(16).unwrap().category, "position");
}

#[test]
fn repeated_tags_are_counted_once() {
    let full = run_instruction_dispatch_demo_structured();
    let entries: Vec<InstructionEntry> =
        vec![full.entries[3].clone(), full.entries[3].clone(), full.entries[9].clone()];
    let r = InstructionDispatchDemoResult { entries };
    assert_eq!(r.total_instructions(), 3);
    assert_eq!(r.distinct_tags(), 2);
    assert_eq!(r.max_tag(), 9);
    let empty = InstructionDispatchDemoResult { entries: Vec::new() };
    assert_eq!(empty.max_tag(), 0);
    assert_eq!(empty.distinct_tags(), 0);
}

#[test]
fn dispatch_report_reads_as_printed() {
    let out = run_instruction_dispatch_demo_cli();
    let r = run_instruction_dispatch_demo_structured();
    assert!(out.starts_with("\n=== openhl-solana — instruction dispatch demo ===\n\n"));
    assert!(out.contains(&format!(
        "    {:<4}  {:<28}  {:<11}  Description\n",
        "Tag", "Name", "Category"
    )));
    assert!(out.contains(&format!("    {:-<4}  {:-<28}  {:-<11}  {:-<60}\n", "", "", "", "")));
    for e in &r.entries {
        assert!(out.contains(&format!(
            "    {:>3}   {:<28}  {:<11}  {}\n",
            e.tag, e.name, e.category, e.description
        )));
    }
    assert!(out.contains("    Total instructions: 34\n"));
    assert!(out.contains("    Distinct tags     : 34\n"));
    assert!(out.contains("    Max tag           : 33\n"));
    let order = r.entries.iter().filter(|e| e.category == "order").count();
    assert!(out.contains(&format!("      {:<11}  {order}\n", "order")));
    assert!(out.ends_with("    operational surface a perp trader actually touches.\n\n"));
}
