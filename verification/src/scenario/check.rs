//! Checks on the results of a scenario.

use vstd::prelude::*;
use vstd::string::StringExecFns;

use crate::scenario::account_layout_demo;
use crate::scenario::account_layout_demo::AccountLayoutDemoResult;
use crate::scenario::instruction_dispatch_demo;
use crate::scenario::instruction_dispatch_demo::InstructionDispatchDemoResult;
use crate::scenario::types;
use crate::scenario::types::{OutcomeStatus, SolanaCheck};
use crate::text;

verus! {

/// The first account type with this name.
pub open spec fn first_with_label(
    entries: Seq<account_layout_demo::EntryView>,
    label: Seq<char>,
) -> Option<account_layout_demo::EntryView>
    decreases entries.len(),
{
    if entries.len() == 0 {
        None
    } else {
        match first_with_label(entries.drop_last(), label) {
            Some(e) => Some(e),
            None => if entries.last().type_label == label {
                Some(entries.last())
            } else {
                None
            },
        }
    }
}

/// A pass if `holds`, else a failure with the reason `why`.
pub open spec fn judge(holds: bool, why: Seq<char>) -> types::StatusView {
    if holds {
        types::StatusView::Pass
    } else {
        types::StatusView::Fail(why)
    }
}

/// Whether a check looks at the account layouts, not at the instructions.
pub open spec fn targets_layout(check: SolanaCheck) -> bool {
    match check {
        SolanaCheck::InstructionCountExact(_) => false,
        SolanaCheck::InstructionTagsContiguous => false,
        SolanaCheck::InstructionTagMaps { .. } => false,
        SolanaCheck::InstructionCategoryMin { .. } => false,
        _ => true,
    }
}

/// What is wrong if the slab does not pack more orders into a byte than the
/// flat order book: it holds no more orders, or it takes too many bytes.
pub open spec fn density_complaint(d: account_layout_demo::LayoutView) -> Seq<char> {
    if d.slab_capacity <= d.orderbook_capacity {
        "Slab capacity ("@ + text::decimal(d.slab_capacity) + ") ≤ OrderBook capacity ("@
            + text::decimal(d.orderbook_capacity) + ")"@
    } else {
        "Slab size ("@ + text::decimal(d.slab_size) + " bytes) too large for its capacity ("@
            + text::decimal(d.slab_capacity) + ")"@
    }
}

/// How a check of the account layouts goes.
pub open spec fn layout_status(
    check: SolanaCheck,
    d: account_layout_demo::LayoutView,
) -> types::StatusView {
    let observed = account_layout_demo::discriminators(d.entries).to_set().len();
    match check {
        SolanaCheck::AccountTypesMin(min) => judge(
            observed >= min,
            "observed account_types = "@ + text::decimal(observed) + " (expected ≥ "@
                + text::decimal(min as nat) + ")"@,
        ),
        SolanaCheck::AccountTypesExact(expected) => judge(
            observed == expected,
            "observed account_types = "@ + text::decimal(observed),
        ),
        SolanaCheck::OrderbookSizeExact(expected) => judge(
            d.orderbook_size == expected,
            "observed OrderBook size = "@ + text::decimal(d.orderbook_size) + " bytes"@,
        ),
        SolanaCheck::OrderbookCapacityExact(expected) => judge(
            d.orderbook_capacity == expected,
            "observed OrderBook capacity = "@ + text::decimal(d.orderbook_capacity),
        ),
        SolanaCheck::SlabCapacityMin(min) => judge(
            d.slab_capacity >= min,
            "observed Slab capacity = "@ + text::decimal(d.slab_capacity) + " (expected ≥ "@
                + text::decimal(min as nat) + ")"@,
        ),
        SolanaCheck::SlabBeatsOrderbookOnDensity => judge(
            d.slab_capacity * d.orderbook_size > d.orderbook_capacity * d.slab_size,
            density_complaint(d),
        ),
        SolanaCheck::AccountTypeSize { type_label, expected } => {
            match first_with_label(d.entries, type_label@) {
                Some(e) => judge(
                    e.size_bytes == expected,
                    type_label@ + " size = "@ + text::decimal(e.size_bytes) + " bytes (expected "@
                        + text::decimal(expected as nat) + ")"@,
                ),
                None => types::StatusView::Fail(type_label@ + " not found"@),
            }
        },
        _ => types::StatusView::Fail(
            "this check targets the instruction-dispatch result, not the account layout"@,
        ),
    }
}

/// The tags below `n` that no instruction has, in order.
pub open spec fn missing_tags(
    entries: Seq<instruction_dispatch_demo::InstructionEntryView>,
    n: nat,
) -> Seq<u8>
    decreases n,
{
    if n == 0 {
        seq![]
    } else {
        let before = missing_tags(entries, (n - 1) as nat);
        if instruction_dispatch_demo::first_with_tag(entries, (n - 1) as u8) is None {
            before.push((n - 1) as u8)
        } else {
            before
        }
    }
}

/// How a check of the instruction set goes.
pub open spec fn dispatch_status(
    check: SolanaCheck,
    entries: Seq<instruction_dispatch_demo::InstructionEntryView>,
) -> types::StatusView {
    match check {
        SolanaCheck::InstructionCountExact(expected) => judge(
            entries.len() == expected,
            "observed instruction count = "@ + text::decimal(entries.len()),
        ),
        SolanaCheck::InstructionTagsContiguous => {
            let missing = missing_tags(
                entries,
                (instruction_dispatch_demo::highest_tag(entries) + 1) as nat,
            );
            judge(missing.len() == 0, "missing tags: ["@ + text::comma_list(missing) + "]"@)
        },
        SolanaCheck::InstructionTagMaps { tag, name } => {
            match instruction_dispatch_demo::first_with_tag(entries, tag) {
                Some(e) => judge(
                    e.name == name@,
                    "tag "@ + text::decimal(tag as nat) + " → "@ + e.name + " (expected "@ + name@
                        + ")"@,
                ),
                None => types::StatusView::Fail(
                    "tag "@ + text::decimal(tag as nat) + " not found"@,
                ),
            }
        },
        SolanaCheck::InstructionCategoryMin { category, expected_min } => {
            let observed = instruction_dispatch_demo::category_count(entries, category@);
            judge(
                observed >= expected_min,
                "category '"@ + category@ + "' has "@ + text::decimal(observed) + " (expected ≥ "@
                    + text::decimal(expected_min as nat) + ")"@,
            )
        },
        _ => types::StatusView::Fail(
            "this check targets the account-layout result, not the instruction dispatch"@,
        ),
    }
}

/// `before`, the number `n` in decimal, `after`.
fn with_number(before: &str, n: usize, after: &str) -> (r: String)
    ensures
        r@ == before@ + text::decimal(n as nat) + after@,
{
    let mut r: String = before.to_owned();
    r.append(text::decimal_text(n as u128).as_str());
    r.append(after);
    r
}

/// `before`, two numbers in decimal around `between`, `after`.
fn with_numbers(before: &str, a: usize, between: &str, b: usize, after: &str) -> (r: String)
    ensures
        r@ == before@ + text::decimal(a as nat) + between@ + text::decimal(b as nat) + after@,
{
    let mut r: String = with_number(before, a, between);
    r.append(text::decimal_text(b as u128).as_str());
    r.append(after);
    r
}

/// `before`, the number `n` in decimal.
fn ending_in_number(before: &str, n: usize) -> (r: String)
    ensures
        r@ == before@ + text::decimal(n as nat),
{
    let mut r: String = before.to_owned();
    r.append(text::decimal_text(n as u128).as_str());
    r
}

fn judged(holds: bool, why: String) -> (r: OutcomeStatus)
    ensures
        r@ == judge(holds, why@),
{
    if holds {
        OutcomeStatus::Pass
    } else {
        OutcomeStatus::Fail(why)
    }
}

fn find_label<'a>(d: &'a AccountLayoutDemoResult, label: &str) -> (r: Option<
    &'a account_layout_demo::AccountLayoutEntry,
>)
    ensures
        match r {
            Some(e) => first_with_label(d@.entries, label@) == Some(e@),
            None => first_with_label(d@.entries, label@) is None,
        },
{
    let ghost all = d@.entries;
    let mut i: usize = 0;
    while i < d.entries.len()
        invariant
            i <= d.entries@.len(),
            all == account_layout_demo::entries_view(d.entries@),
            first_with_label(all.take(i as int), label@) is None,
        decreases d.entries@.len() - i,
    {
        assert(all.take(i + 1).drop_last() =~= all.take(i as int));
        if text::same_text(d.entries[i].type_label, label) {
            proof {
                lemma_first_with_label_extends(all, label@, (i + 1) as nat);
            }
            return Some(&d.entries[i]);
        }
        i += 1;
    }
    assert(all.take(i as int) =~= all);
    None
}

proof fn lemma_first_with_label_extends(
    entries: Seq<account_layout_demo::EntryView>,
    label: Seq<char>,
    n: nat,
)
    requires
        n <= entries.len(),
        first_with_label(entries.take(n as int), label) is Some,
    ensures
        first_with_label(entries, label) == first_with_label(entries.take(n as int), label),
    decreases entries.len(),
{
    if n < entries.len() {
        assert(entries.drop_last().take(n as int) =~= entries.take(n as int));
        lemma_first_with_label_extends(entries.drop_last(), label, n);
    } else {
        assert(entries.take(n as int) =~= entries);
    }
}

/// Applies a check to the account layouts.
pub fn evaluate_solana_check_layout(check: &SolanaCheck, result: &AccountLayoutDemoResult) -> (r:
    OutcomeStatus)
    ensures
        r@ == layout_status(*check, result@),
{
    match check {
        SolanaCheck::AccountTypesMin(min) => {
            let observed: usize = result.distinct_account_types();
            judged(
                observed >= *min,
                with_numbers("observed account_types = ", observed, " (expected ≥ ", *min, ")"),
            )
        },
        SolanaCheck::AccountTypesExact(expected) => {
            let observed: usize = result.distinct_account_types();
            judged(
                observed == *expected,
                ending_in_number("observed account_types = ", observed),
            )
        },
        SolanaCheck::OrderbookSizeExact(expected) => judged(
            result.orderbook_size == *expected,
            with_number("observed OrderBook size = ", result.orderbook_size, " bytes"),
        ),
        SolanaCheck::OrderbookCapacityExact(expected) => judged(
            result.orderbook_capacity == *expected,
            ending_in_number("observed OrderBook capacity = ", result.orderbook_capacity),
        ),
        SolanaCheck::SlabCapacityMin(min) => judged(
            result.slab_capacity >= *min,
            with_numbers(
                "observed Slab capacity = ",
                result.slab_capacity,
                " (expected ≥ ",
                *min,
                ")",
            ),
        ),
        SolanaCheck::SlabBeatsOrderbookOnDensity => {
            let slab: u128 = wide_product(result.slab_capacity, result.orderbook_size);
            let book: u128 = wide_product(result.orderbook_capacity, result.slab_size);
            let why: String = if result.slab_capacity <= result.orderbook_capacity {
                with_numbers(
                    "Slab capacity (",
                    result.slab_capacity,
                    ") ≤ OrderBook capacity (",
                    result.orderbook_capacity,
                    ")",
                )
            } else {
                with_numbers(
                    "Slab size (",
                    result.slab_size,
                    " bytes) too large for its capacity (",
                    result.slab_capacity,
                    ")",
                )
            };
            judged(slab > book, why)
        },
        SolanaCheck::AccountTypeSize { type_label, expected } => {
            match find_label(result, type_label.as_str()) {
                Some(e) => {
                    let mut before: String = type_label.as_str().to_owned();
                    before.append(" size = ");
                    judged(
                        e.size_bytes == *expected,
                        with_numbers(
                            before.as_str(),
                            e.size_bytes,
                            " bytes (expected ",
                            *expected,
                            ")",
                        ),
                    )
                },
                None => {
                    let mut why: String = type_label.as_str().to_owned();
                    why.append(" not found");
                    OutcomeStatus::Fail(why)
                },
            }
        },
        _ => OutcomeStatus::Fail(
            "this check targets the instruction-dispatch result, not the account layout".to_owned(),
        ),
    }
}

/// A product that cannot overflow.
fn wide_product(a: usize, b: usize) -> (r: u128)
    ensures
        r == a * b,
{
    assert(a * b <= 0xffff_ffff_ffff_ffff * 0xffff_ffff_ffff_ffff) by (nonlinear_arith)
        requires
            0 <= a <= 0xffff_ffff_ffff_ffff,
            0 <= b <= 0xffff_ffff_ffff_ffff,
    ;
    a as u128 * b as u128
}

/// The tags from 0 up to and including `max` that no instruction has.
fn tags_missing(result: &InstructionDispatchDemoResult, max: u8) -> (r: Vec<u8>)
    ensures
        r@ == missing_tags(result@, (max + 1) as nat),
{
    let mut missing: Vec<u8> = Vec::new();
    let mut t: u16 = 0;
    while t <= max as u16
        invariant
            t <= max + 1,
            missing@ == missing_tags(result@, t as nat),
        decreases max + 1 - t,
    {
        if result.find_tag(t as u8).is_none() {
            missing.push(t as u8);
        }
        t += 1;
    }
    missing
}

/// Applies a check to the instruction set.
pub fn evaluate_solana_check_dispatch(
    check: &SolanaCheck,
    result: &InstructionDispatchDemoResult,
) -> (r: OutcomeStatus)
    ensures
        r@ == dispatch_status(*check, result@),
{
    match check {
        SolanaCheck::InstructionCountExact(expected) => judged(
            result.total_instructions() == *expected,
            ending_in_number("observed instruction count = ", result.total_instructions()),
        ),
        SolanaCheck::InstructionTagsContiguous => {
            let missing: Vec<u8> = tags_missing(result, result.max_tag());
            let mut why: String = "missing tags: [".to_owned();
            why.append(text::comma_text(&missing).as_str());
            why.append("]");
            judged(missing.len() == 0, why)
        },
        SolanaCheck::InstructionTagMaps { tag, name } => {
            match result.find_tag(*tag) {
                Some(e) => {
                    let mut why: String = with_number("tag ", *tag as usize, " → ");
                    why.append(e.name);
                    why.append(" (expected ");
                    why.append(name.as_str());
                    why.append(")");
                    judged(text::same_text(e.name, name.as_str()), why)
                },
                None => OutcomeStatus::Fail(with_number("tag ", *tag as usize, " not found")),
            }
        },
        SolanaCheck::InstructionCategoryMin { category, expected_min } => {
            let observed: usize = result.count_in_category(category.as_str());
            let mut before: String = "category '".to_owned();
            before.append(category.as_str());
            before.append("' has ");
            judged(
                observed >= *expected_min,
                with_numbers(before.as_str(), observed, " (expected ≥ ", *expected_min, ")"),
            )
        },
        _ => OutcomeStatus::Fail(
            "this check targets the account-layout result, not the instruction dispatch".to_owned(),
        ),
    }
}

} // verus!
