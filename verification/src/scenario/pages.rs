//! What the pages of the scenario runner and of the demos show: which value stands where,
//! and that nothing else does.

use vstd::prelude::*;

use crate::reading;
use crate::scenario::account_layout_demo;
use crate::scenario::account_layout_demo::{EntryView, LayoutView};
use crate::scenario::in_process;
use crate::scenario::in_process::ResultView;
use crate::scenario::instruction_dispatch_demo;
use crate::scenario::instruction_dispatch_demo::InstructionEntryView;
use crate::scenario::render;
use crate::scenario::subprocess;
use crate::scenario::subprocess::StepOutcome;
use crate::scenario::types;
use crate::scenario::types::{
    DialOverrides, EmbeddedReport, ExpectedOutcome, Scenario, ScenarioStep,
};
use crate::split;
use crate::text;

verus! {

/// The row of an account type shows its name, its tag, its size at the right of
/// the column, and its version.
pub proof fn account_rows_show_their_type(
    indent: Seq<char>,
    e: EntryView,
)
    ensures
        reading::made_of(
            account_layout_demo::row_text(indent, e),
            seq![
                indent,
                text::pad_right(e.type_label, 16),
                "  "@,
                text::pad_right(e.discriminator_text, 10),
                "  "@,
                text::pad_left(text::decimal(e.size_bytes), 6),
                "  "@,
                account_layout_demo::version_text(e.version),
                "\n"@,
            ],
        ),
        reading::reads(account_layout_demo::row_text(indent, e), indent, text::pad_right(e.type_label, 16), "  "@),
        reading::reads(account_layout_demo::row_text(indent, e), "  "@, text::pad_right(e.discriminator_text, 10), "  "@),
        reading::reads(account_layout_demo::row_text(indent, e), "  "@, text::pad_left(text::decimal(e.size_bytes), 6), "  "@),
        reading::reads(account_layout_demo::row_text(indent, e), "  "@, account_layout_demo::version_text(e.version), "\n"@),
{
    let pieces = seq![
        indent,
        text::pad_right(e.type_label, 16),
        "  "@,
        text::pad_right(e.discriminator_text, 10),
        "  "@,
        text::pad_left(text::decimal(e.size_bytes), 6),
        "  "@,
        account_layout_demo::version_text(e.version),
        "\n"@,
    ];
    reveal_with_fuel(reading::joined, 10);
    assert(seq![] + pieces[0] =~= pieces[0]);
    assert(account_layout_demo::row_text(indent, e) == reading::joined(pieces, 9));
    reading::lemma_pieces(pieces);
    assert(reading::reads(reading::joined(pieces, 9), pieces[0], pieces[1], pieces[2]));
    assert(reading::reads(reading::joined(pieces, 9), pieces[2], pieces[3], pieces[4]));
    assert(reading::reads(reading::joined(pieces, 9), pieces[4], pieces[5], pieces[6]));
    assert(reading::reads(reading::joined(pieces, 9), pieces[6], pieces[7], pieces[8]));
}

/// A version is written behind a `v`; without one there is a dash.
pub proof fn versions_are_written(version: u8)
    ensures
        account_layout_demo::version_text(Some(version)) == "v"@ + text::decimal(version as nat),
        account_layout_demo::version_text(None) == "—"@,
{
}

/// The table of account types has their rows, each once and in order.
pub proof fn every_account_row_is_listed(
    indent: Seq<char>,
    entries: Seq<EntryView>,
    n: nat,
)
    requires
        n <= entries.len(),
    ensures
        account_layout_demo::rows_text(indent, entries, n) == reading::joined(
            Seq::new(entries.len(), |i: int| account_layout_demo::row_text(indent, entries[i])),
            n,
        ),
    decreases n,
{
    if n > 0 {
        every_account_row_is_listed(indent, entries, (n - 1) as nat);
        let pieces = Seq::new(entries.len(), |i: int| account_layout_demo::row_text(indent, entries[i]));
        assert(account_layout_demo::rows_text(indent, entries, n) =~= reading::joined(pieces, n));
    }
}

/// The layout demo shows the table, the number of types and of bytes, the largest and
/// the smallest type, and the two books.
#[verifier::rlimit(60)]
pub proof fn layout_demo_shows_its_numbers(
    d: LayoutView,
)
    ensures
        reading::made_of(
            account_layout_demo::demo_text(d),
            seq![
                account_layout_demo::demo_intro(),
                account_layout_demo::table_text("    "@, d.entries),
                "\n"@,
                "    Total bytes (one of each, "@,
                text::decimal(account_layout_demo::discriminators(d.entries).to_set().len()),
                " types):  "@,
                text::decimal(account_layout_demo::total_size(d.entries)),
                "\n"@,
                account_layout_demo::demo_extremes(d),
                "\n"@,
                account_layout_demo::demo_books(d),
                "\n"@,
                account_layout_demo::demo_takeaway(),
            ],
        ),
        reading::reads(account_layout_demo::demo_text(d), account_layout_demo::demo_intro(), account_layout_demo::table_text("    "@, d.entries), "\n"@),
        reading::reads(account_layout_demo::demo_text(d), "    Total bytes (one of each, "@, text::decimal(account_layout_demo::discriminators(d.entries).to_set().len()), " types):  "@),
        reading::reads(account_layout_demo::demo_text(d), " types):  "@, text::decimal(account_layout_demo::total_size(d.entries)), "\n"@),
        reading::reads(account_layout_demo::demo_text(d), "\n"@, account_layout_demo::demo_extremes(d), "\n"@),
        reading::reads(account_layout_demo::demo_text(d), "\n"@, account_layout_demo::demo_books(d), "\n"@),
{
    let pieces = seq![
        account_layout_demo::demo_intro(),
        account_layout_demo::table_text("    "@, d.entries),
        "\n"@,
        "    Total bytes (one of each, "@,
        text::decimal(account_layout_demo::discriminators(d.entries).to_set().len()),
        " types):  "@,
        text::decimal(account_layout_demo::total_size(d.entries)),
        "\n"@,
        account_layout_demo::demo_extremes(d),
        "\n"@,
        account_layout_demo::demo_books(d),
        "\n"@,
        account_layout_demo::demo_takeaway(),
    ];
    reveal_with_fuel(reading::joined, 14);
    assert(seq![] + pieces[0] =~= pieces[0]);
    assert(account_layout_demo::demo_text(d) =~= reading::joined(pieces, 13));
    reading::lemma_pieces(pieces);
    assert(reading::reads(reading::joined(pieces, 13), pieces[0], pieces[1], pieces[2]));
    assert(reading::reads(reading::joined(pieces, 13), pieces[3], pieces[4], pieces[5]));
    assert(reading::reads(reading::joined(pieces, 13), pieces[5], pieces[6], pieces[7]));
    assert(reading::reads(reading::joined(pieces, 13), pieces[7], pieces[8], pieces[9]));
    assert(reading::reads(reading::joined(pieces, 13), pieces[9], pieces[10], pieces[11]));
}

/// The two books are shown with the size, the capacity and the bytes per order of
/// each.
pub proof fn books_are_compared(
    d: LayoutView,
)
    ensures
        reading::made_of(
            account_layout_demo::demo_books(d),
            seq![
                "    OrderBook (flat array): "@,
                text::decimal(d.orderbook_size),
                " bytes for "@,
                text::decimal(d.orderbook_capacity),
                " order capacity → "@,
                text::decimal(d.orderbook_bytes_per_order),
                " bytes/order\n"@,
                "    Slab (critbit tree):    "@,
                text::decimal(d.slab_size),
                " bytes for ~"@,
                text::decimal(d.slab_capacity),
                " order capacity → ~"@,
                text::decimal(d.slab_bytes_per_order),
                " bytes/order\n"@,
            ],
        ),
        reading::reads(account_layout_demo::demo_books(d), "    OrderBook (flat array): "@, text::decimal(d.orderbook_size), " bytes for "@),
        reading::reads(account_layout_demo::demo_books(d), " bytes for "@, text::decimal(d.orderbook_capacity), " order capacity → "@),
        reading::reads(account_layout_demo::demo_books(d), " order capacity → "@, text::decimal(d.orderbook_bytes_per_order), " bytes/order\n"@),
        reading::reads(account_layout_demo::demo_books(d), "    Slab (critbit tree):    "@, text::decimal(d.slab_size), " bytes for ~"@),
        reading::reads(account_layout_demo::demo_books(d), " bytes for ~"@, text::decimal(d.slab_capacity), " order capacity → ~"@),
        reading::reads(account_layout_demo::demo_books(d), " order capacity → ~"@, text::decimal(d.slab_bytes_per_order), " bytes/order\n"@),
{
    let pieces = seq![
        "    OrderBook (flat array): "@,
        text::decimal(d.orderbook_size),
        " bytes for "@,
        text::decimal(d.orderbook_capacity),
        " order capacity → "@,
        text::decimal(d.orderbook_bytes_per_order),
        " bytes/order\n"@,
        "    Slab (critbit tree):    "@,
        text::decimal(d.slab_size),
        " bytes for ~"@,
        text::decimal(d.slab_capacity),
        " order capacity → ~"@,
        text::decimal(d.slab_bytes_per_order),
        " bytes/order\n"@,
    ];
    reveal_with_fuel(reading::joined, 15);
    assert(seq![] + pieces[0] =~= pieces[0]);
    assert(account_layout_demo::demo_books(d) == reading::joined(pieces, 14));
    reading::lemma_pieces(pieces);
    assert(reading::reads(reading::joined(pieces, 14), pieces[0], pieces[1], pieces[2]));
    assert(reading::reads(reading::joined(pieces, 14), pieces[2], pieces[3], pieces[4]));
    assert(reading::reads(reading::joined(pieces, 14), pieces[4], pieces[5], pieces[6]));
    assert(reading::reads(reading::joined(pieces, 14), pieces[7], pieces[8], pieces[9]));
    assert(reading::reads(reading::joined(pieces, 14), pieces[9], pieces[10], pieces[11]));
    assert(reading::reads(reading::joined(pieces, 14), pieces[11], pieces[12], pieces[13]));
}

/// The table of account types has the names of its columns above its rows, all of them
/// behind the same indent.
pub proof fn tables_have_a_head(
    indent: Seq<char>,
    entries: Seq<EntryView>,
)
    ensures
        reading::made_of(
            account_layout_demo::table_text(indent, entries),
            seq![
                indent,
                "Type              Tag          Bytes  Version\n"@,
                indent,
                "────────────────  ──────────  ──────  ───────\n"@,
                account_layout_demo::rows_text(indent, entries, entries.len()),
                ""@,
            ],
        ),
        reading::reads(account_layout_demo::table_text(indent, entries), "Type              Tag          Bytes  Version\n"@, indent, "────────────────  ──────────  ──────  ───────\n"@),
        reading::reads(account_layout_demo::table_text(indent, entries), "────────────────  ──────────  ──────  ───────\n"@, account_layout_demo::rows_text(indent, entries, entries.len()), ""@),
{
    reveal_strlit("");
    let pieces = seq![
        indent,
        "Type              Tag          Bytes  Version\n"@,
        indent,
        "────────────────  ──────────  ──────  ───────\n"@,
        account_layout_demo::rows_text(indent, entries, entries.len()),
        ""@,
    ];
    reveal_with_fuel(reading::joined, 7);
    assert(seq![] + pieces[0] =~= pieces[0]);
    assert(account_layout_demo::table_text(indent, entries) =~= reading::joined(pieces, 6));
    reading::lemma_pieces(pieces);
    assert(reading::reads(reading::joined(pieces, 6), pieces[1], pieces[2], pieces[3]));
    assert(reading::reads(reading::joined(pieces, 6), pieces[3], pieces[4], pieces[5]));
}

/// The demo names a type that none is larger than, and one that none is smaller
/// than, each with its size.
pub proof fn extremes_are_named(d: LayoutView)
    requires
        d.entries.len() > 0,
    ensures
        exists|large: int, small: int|
            #![trigger d.entries[large], d.entries[small]]
            {
                &&& 0 <= large < d.entries.len()
                &&& 0 <= small < d.entries.len()
                &&& forall|i: int|
                    0 <= i < d.entries.len() ==> d.entries[small].size_bytes <= (
                    #[trigger] d.entries[i]).size_bytes <= d.entries[large].size_bytes
                &&& account_layout_demo::demo_extremes(d)
                    == "    Largest single type:                   "@ + d.entries[large].type_label
                    + " ("@ + text::decimal(d.entries[large].size_bytes) + " bytes)\n"@ + (
                "    Smallest single type:                  "@ + d.entries[small].type_label + " ("@
                    + text::decimal(d.entries[small].size_bytes) + " bytes)\n"@)
            },
{
    account_layout_demo::largest_is_largest(d.entries);
    account_layout_demo::smallest_is_smallest(d.entries);
    let large = account_layout_demo::largest_index(d.entries);
    let small = account_layout_demo::smallest_index(d.entries);
    assert(d.entries[large] == d.entries[large] && d.entries[small] == d.entries[small]);
}

/// The row of an instruction shows its tag at the right of the column, its name, its
/// category and what it does.
pub proof fn instruction_rows_show_their_tag(
    indent: Seq<char>,
    e: InstructionEntryView,
)
    ensures
        reading::made_of(
            instruction_dispatch_demo::row_text(indent, e),
            seq![
                indent,
                text::pad_left(text::decimal(e.tag as nat), 3),
                "   "@,
                text::pad_right(e.name, 28),
                "  "@,
                text::pad_right(e.category, 11),
                "  "@,
                e.description,
                "\n"@,
            ],
        ),
        reading::reads(instruction_dispatch_demo::row_text(indent, e), indent, text::pad_left(text::decimal(e.tag as nat), 3), "   "@),
        reading::reads(instruction_dispatch_demo::row_text(indent, e), "   "@, text::pad_right(e.name, 28), "  "@),
        reading::reads(instruction_dispatch_demo::row_text(indent, e), "  "@, text::pad_right(e.category, 11), "  "@),
        reading::reads(instruction_dispatch_demo::row_text(indent, e), "  "@, e.description, "\n"@),
{
    let pieces = seq![
        indent,
        text::pad_left(text::decimal(e.tag as nat), 3),
        "   "@,
        text::pad_right(e.name, 28),
        "  "@,
        text::pad_right(e.category, 11),
        "  "@,
        e.description,
        "\n"@,
    ];
    reveal_with_fuel(reading::joined, 10);
    assert(seq![] + pieces[0] =~= pieces[0]);
    assert(instruction_dispatch_demo::row_text(indent, e) == reading::joined(pieces, 9));
    reading::lemma_pieces(pieces);
    assert(reading::reads(reading::joined(pieces, 9), pieces[0], pieces[1], pieces[2]));
    assert(reading::reads(reading::joined(pieces, 9), pieces[2], pieces[3], pieces[4]));
    assert(reading::reads(reading::joined(pieces, 9), pieces[4], pieces[5], pieces[6]));
    assert(reading::reads(reading::joined(pieces, 9), pieces[6], pieces[7], pieces[8]));
}

/// The table of instructions has their rows, each once and in order.
pub proof fn every_instruction_row_is_listed(
    indent: Seq<char>,
    entries: Seq<InstructionEntryView>,
    n: nat,
)
    requires
        n <= entries.len(),
    ensures
        instruction_dispatch_demo::rows_text(indent, entries, n) == reading::joined(
            Seq::new(entries.len(), |i: int| instruction_dispatch_demo::row_text(indent, entries[i])),
            n,
        ),
    decreases n,
{
    if n > 0 {
        every_instruction_row_is_listed(indent, entries, (n - 1) as nat);
        let pieces = Seq::new(entries.len(), |i: int| instruction_dispatch_demo::row_text(indent, entries[i]));
        assert(instruction_dispatch_demo::rows_text(indent, entries, n) =~= reading::joined(pieces, n));
    }
}

/// A category that has instructions gets a line with their number; one without
/// gets none.
pub proof fn categories_are_shown_if_used(entries: Seq<InstructionEntryView>, category: Seq<char>)
    ensures
        entries.filter(|e: InstructionEntryView| e.category == category).len() == 0
            ==> instruction_dispatch_demo::category_line(entries, category) == Seq::<char>::empty(),
        entries.filter(|e: InstructionEntryView| e.category == category).len() > 0
            ==> instruction_dispatch_demo::category_line(entries, category) == "      "@
            + text::pad_right(category, 11) + "  "@ + text::decimal(
            entries.filter(|e: InstructionEntryView| e.category == category).len(),
        ) + "\n"@,
{
    crate::scenario::verdicts::categories_are_counted(entries, category);
}

/// The categories come in a fixed order.
pub proof fn categories_come_in_order(entries: Seq<InstructionEntryView>)
    ensures
        instruction_dispatch_demo::category_lines(entries) == reading::joined(
            seq![
                "bring-up"@,
                "order"@,
                "position"@,
                "vault"@,
                "oracle"@,
                "funding"@,
                "collateral"@,
                "builder"@,
                "insurance"@,
                "benchmark"@,
            ].map(|i: int, c: Seq<char>| instruction_dispatch_demo::category_line(entries, c)),
            10,
        ),
{
    let lines = seq![
        "bring-up"@,
        "order"@,
        "position"@,
        "vault"@,
        "oracle"@,
        "funding"@,
        "collateral"@,
        "builder"@,
        "insurance"@,
        "benchmark"@,
    ].map(|i: int, c: Seq<char>| instruction_dispatch_demo::category_line(entries, c));
    reveal_with_fuel(reading::joined, 11);
    assert(seq![] + lines[0] =~= lines[0]);
}

/// The dispatch demo shows the table, the number of instructions and of distinct
/// tags, the highest tag and the categories.
#[verifier::rlimit(60)]
pub proof fn dispatch_demo_shows_its_numbers(
    entries: Seq<InstructionEntryView>,
)
    ensures
        reading::made_of(
            instruction_dispatch_demo::demo_text(entries),
            seq![
                "\n=== openhl-solana — instruction dispatch demo ===\n\n"@,
                "    Every openhl-core instruction is dispatched by a 1-byte tag\n"@,
                "    at byte 0 of the instruction data. This demo prints the full\n"@,
                "    table so a buyer evaluating the engine sees the API surface\n"@,
                "    at a glance. Pure Rust — no validator, no deployed program.\n\n"@,
                "    "@,
                "Tag   Name                          Category     Description\n"@,
                "    ----  ----------------------------  -----------  ------------------------------------------------------------\n"@,
                instruction_dispatch_demo::rows_text("    "@, entries, entries.len()),
                "\n"@,
                "    Total instructions: "@,
                text::decimal(entries.len()),
                "\n    Distinct tags     : "@,
                text::decimal(instruction_dispatch_demo::tags(entries).to_set().len()),
                "\n    Max tag           : "@,
                text::decimal(instruction_dispatch_demo::highest_tag(entries) as nat),
                "\n\n    Category breakdown:\n"@,
                instruction_dispatch_demo::category_lines(entries),
                "\n    Takeaway: openhl-core packs a complete perp DEX into a single\n"@,
                "    34-instruction program. Half are bring-up; the rest are the\n"@,
                "    operational surface a perp trader actually touches.\n\n"@,
            ],
        ),
        reading::reads(instruction_dispatch_demo::demo_text(entries), "    ----  ----------------------------  -----------  ------------------------------------------------------------\n"@, instruction_dispatch_demo::rows_text("    "@, entries, entries.len()), "\n"@),
        reading::reads(instruction_dispatch_demo::demo_text(entries), "    Total instructions: "@, text::decimal(entries.len()), "\n    Distinct tags     : "@),
        reading::reads(instruction_dispatch_demo::demo_text(entries), "\n    Distinct tags     : "@, text::decimal(instruction_dispatch_demo::tags(entries).to_set().len()), "\n    Max tag           : "@),
        reading::reads(instruction_dispatch_demo::demo_text(entries), "\n    Max tag           : "@, text::decimal(instruction_dispatch_demo::highest_tag(entries) as nat), "\n\n    Category breakdown:\n"@),
        reading::reads(instruction_dispatch_demo::demo_text(entries), "\n\n    Category breakdown:\n"@, instruction_dispatch_demo::category_lines(entries), "\n    Takeaway: openhl-core packs a complete perp DEX into a single\n"@),
{
    let pieces = seq![
        "\n=== openhl-solana — instruction dispatch demo ===\n\n"@,
        "    Every openhl-core instruction is dispatched by a 1-byte tag\n"@,
        "    at byte 0 of the instruction data. This demo prints the full\n"@,
        "    table so a buyer evaluating the engine sees the API surface\n"@,
        "    at a glance. Pure Rust — no validator, no deployed program.\n\n"@,
        "    "@,
        "Tag   Name                          Category     Description\n"@,
        "    ----  ----------------------------  -----------  ------------------------------------------------------------\n"@,
        instruction_dispatch_demo::rows_text("    "@, entries, entries.len()),
        "\n"@,
        "    Total instructions: "@,
        text::decimal(entries.len()),
        "\n    Distinct tags     : "@,
        text::decimal(instruction_dispatch_demo::tags(entries).to_set().len()),
        "\n    Max tag           : "@,
        text::decimal(instruction_dispatch_demo::highest_tag(entries) as nat),
        "\n\n    Category breakdown:\n"@,
        instruction_dispatch_demo::category_lines(entries),
        "\n    Takeaway: openhl-core packs a complete perp DEX into a single\n"@,
        "    34-instruction program. Half are bring-up; the rest are the\n"@,
        "    operational surface a perp trader actually touches.\n\n"@,
    ];
    reveal_with_fuel(reading::joined, 22);
    assert(seq![] + pieces[0] =~= pieces[0]);
    assert(instruction_dispatch_demo::demo_text(entries) =~= reading::joined(pieces, 21));
    reading::lemma_pieces(pieces);
    assert(reading::reads(reading::joined(pieces, 21), pieces[7], pieces[8], pieces[9]));
    assert(reading::reads(reading::joined(pieces, 21), pieces[10], pieces[11], pieces[12]));
    assert(reading::reads(reading::joined(pieces, 21), pieces[12], pieces[13], pieces[14]));
    assert(reading::reads(reading::joined(pieces, 21), pieces[14], pieces[15], pieces[16]));
    assert(reading::reads(reading::joined(pieces, 21), pieces[16], pieces[17], pieces[18]));
}

/// The timeline of a layout step tells the number of types and bytes, and compares
/// the two books.
pub proof fn layout_steps_are_told(
    d: LayoutView,
)
    ensures
        reading::made_of(
            in_process::timeline_entry(ResultView::Layout(d)),
            seq![
                "    inspect    "@,
                text::decimal(account_layout_demo::discriminators(d.entries).to_set().len()),
                " on-chain account types via openhl-state constants\n"@,
                "    aggregate  "@,
                text::decimal(account_layout_demo::total_size(d.entries)),
                " bytes total (one of each)\n"@,
                "    compare    OrderBook ("@,
                text::decimal(d.orderbook_size),
                " bytes / "@,
                text::decimal(d.orderbook_capacity),
                " orders) vs Slab ("@,
                text::decimal(d.slab_size),
                " bytes / ~"@,
                text::decimal(d.slab_capacity),
                " orders)\n"@,
            ],
        ),
        reading::reads(in_process::timeline_entry(ResultView::Layout(d)), "    inspect    "@, text::decimal(account_layout_demo::discriminators(d.entries).to_set().len()), " on-chain account types via openhl-state constants\n"@),
        reading::reads(in_process::timeline_entry(ResultView::Layout(d)), "    aggregate  "@, text::decimal(account_layout_demo::total_size(d.entries)), " bytes total (one of each)\n"@),
        reading::reads(in_process::timeline_entry(ResultView::Layout(d)), "    compare    OrderBook ("@, text::decimal(d.orderbook_size), " bytes / "@),
        reading::reads(in_process::timeline_entry(ResultView::Layout(d)), " bytes / "@, text::decimal(d.orderbook_capacity), " orders) vs Slab ("@),
        reading::reads(in_process::timeline_entry(ResultView::Layout(d)), " orders) vs Slab ("@, text::decimal(d.slab_size), " bytes / ~"@),
        reading::reads(in_process::timeline_entry(ResultView::Layout(d)), " bytes / ~"@, text::decimal(d.slab_capacity), " orders)\n"@),
{
    let pieces = seq![
        "    inspect    "@,
        text::decimal(account_layout_demo::discriminators(d.entries).to_set().len()),
        " on-chain account types via openhl-state constants\n"@,
        "    aggregate  "@,
        text::decimal(account_layout_demo::total_size(d.entries)),
        " bytes total (one of each)\n"@,
        "    compare    OrderBook ("@,
        text::decimal(d.orderbook_size),
        " bytes / "@,
        text::decimal(d.orderbook_capacity),
        " orders) vs Slab ("@,
        text::decimal(d.slab_size),
        " bytes / ~"@,
        text::decimal(d.slab_capacity),
        " orders)\n"@,
    ];
    reveal_with_fuel(reading::joined, 16);
    assert(seq![] + pieces[0] =~= pieces[0]);
    assert(in_process::timeline_entry(ResultView::Layout(d)) == reading::joined(pieces, 15));
    reading::lemma_pieces(pieces);
    assert(reading::reads(reading::joined(pieces, 15), pieces[0], pieces[1], pieces[2]));
    assert(reading::reads(reading::joined(pieces, 15), pieces[3], pieces[4], pieces[5]));
    assert(reading::reads(reading::joined(pieces, 15), pieces[6], pieces[7], pieces[8]));
    assert(reading::reads(reading::joined(pieces, 15), pieces[8], pieces[9], pieces[10]));
    assert(reading::reads(reading::joined(pieces, 15), pieces[10], pieces[11], pieces[12]));
    assert(reading::reads(reading::joined(pieces, 15), pieces[12], pieces[13], pieces[14]));
}

/// The timeline of a dispatch step tells the number of instructions, and how many of
/// them are of which category.
pub proof fn dispatch_steps_are_told(
    entries: Seq<InstructionEntryView>,
)
    ensures
        reading::made_of(
            in_process::timeline_entry(ResultView::Dispatch(entries)),
            seq![
                "    enumerate  "@,
                text::decimal(entries.len()),
                " instruction tags in the openhl-core dispatch table\n"@,
                "    bring-up   "@,
                text::decimal(entries.filter(|e: InstructionEntryView| e.category == "bring-up"@).len()),
                " instructions allocate / initialize state\n"@,
                "    operational  "@,
                text::decimal(entries.filter(|e: InstructionEntryView| e.category == "order"@).len()),
                " order, "@,
                text::decimal(entries.filter(|e: InstructionEntryView| e.category == "position"@).len()),
                " position, "@,
                text::decimal(entries.filter(|e: InstructionEntryView| e.category == "vault"@).len()),
                " vault, plus oracle / funding / builder / insurance\n"@,
            ],
        ),
        reading::reads(in_process::timeline_entry(ResultView::Dispatch(entries)), "    enumerate  "@, text::decimal(entries.len()), " instruction tags in the openhl-core dispatch table\n"@),
        reading::reads(in_process::timeline_entry(ResultView::Dispatch(entries)), "    bring-up   "@, text::decimal(entries.filter(|e: InstructionEntryView| e.category == "bring-up"@).len()), " instructions allocate / initialize state\n"@),
        reading::reads(in_process::timeline_entry(ResultView::Dispatch(entries)), "    operational  "@, text::decimal(entries.filter(|e: InstructionEntryView| e.category == "order"@).len()), " order, "@),
        reading::reads(in_process::timeline_entry(ResultView::Dispatch(entries)), " order, "@, text::decimal(entries.filter(|e: InstructionEntryView| e.category == "position"@).len()), " position, "@),
        reading::reads(in_process::timeline_entry(ResultView::Dispatch(entries)), " position, "@, text::decimal(entries.filter(|e: InstructionEntryView| e.category == "vault"@).len()), " vault, plus oracle / funding / builder / insurance\n"@),
{
    crate::scenario::verdicts::categories_are_counted(entries, "bring-up"@);
    crate::scenario::verdicts::categories_are_counted(entries, "order"@);
    crate::scenario::verdicts::categories_are_counted(entries, "position"@);
    crate::scenario::verdicts::categories_are_counted(entries, "vault"@);
    let pieces = seq![
        "    enumerate  "@,
        text::decimal(entries.len()),
        " instruction tags in the openhl-core dispatch table\n"@,
        "    bring-up   "@,
        text::decimal(entries.filter(|e: InstructionEntryView| e.category == "bring-up"@).len()),
        " instructions allocate / initialize state\n"@,
        "    operational  "@,
        text::decimal(entries.filter(|e: InstructionEntryView| e.category == "order"@).len()),
        " order, "@,
        text::decimal(entries.filter(|e: InstructionEntryView| e.category == "position"@).len()),
        " position, "@,
        text::decimal(entries.filter(|e: InstructionEntryView| e.category == "vault"@).len()),
        " vault, plus oracle / funding / builder / insurance\n"@,
    ];
    reveal_with_fuel(reading::joined, 14);
    assert(seq![] + pieces[0] =~= pieces[0]);
    assert(in_process::timeline_entry(ResultView::Dispatch(entries)) == reading::joined(pieces, 13));
    reading::lemma_pieces(pieces);
    assert(reading::reads(reading::joined(pieces, 13), pieces[0], pieces[1], pieces[2]));
    assert(reading::reads(reading::joined(pieces, 13), pieces[3], pieces[4], pieces[5]));
    assert(reading::reads(reading::joined(pieces, 13), pieces[6], pieces[7], pieces[8]));
    assert(reading::reads(reading::joined(pieces, 13), pieces[8], pieces[9], pieces[10]));
    assert(reading::reads(reading::joined(pieces, 13), pieces[10], pieces[11], pieces[12]));
}

/// What a layout step brought to light is the table, and the two books with the size,
/// the capacity and the bytes per order of each.
pub proof fn layout_findings_are_shown(
    d: LayoutView,
)
    ensures
        reading::made_of(
            in_process::delta_entry(ResultView::Layout(d)),
            seq![
                ""@,
                account_layout_demo::table_text("  "@, d.entries),
                "\n"@,
                "  OrderBook (flat): "@,
                text::decimal(d.orderbook_size),
                " bytes / "@,
                text::decimal(d.orderbook_capacity),
                " orders → "@,
                text::decimal(d.orderbook_bytes_per_order),
                " bytes/order\n"@,
                "  Slab (critbit):   "@,
                text::decimal(d.slab_size),
                " bytes / ~"@,
                text::decimal(d.slab_capacity),
                " orders → ~"@,
                text::decimal(d.slab_bytes_per_order),
                " bytes/order\n"@,
            ],
        ),
        reading::reads(in_process::delta_entry(ResultView::Layout(d)), ""@, account_layout_demo::table_text("  "@, d.entries), "\n"@),
        reading::reads(in_process::delta_entry(ResultView::Layout(d)), "  OrderBook (flat): "@, text::decimal(d.orderbook_size), " bytes / "@),
        reading::reads(in_process::delta_entry(ResultView::Layout(d)), " bytes / "@, text::decimal(d.orderbook_capacity), " orders → "@),
        reading::reads(in_process::delta_entry(ResultView::Layout(d)), " orders → "@, text::decimal(d.orderbook_bytes_per_order), " bytes/order\n"@),
        reading::reads(in_process::delta_entry(ResultView::Layout(d)), "  Slab (critbit):   "@, text::decimal(d.slab_size), " bytes / ~"@),
        reading::reads(in_process::delta_entry(ResultView::Layout(d)), " bytes / ~"@, text::decimal(d.slab_capacity), " orders → ~"@),
        reading::reads(in_process::delta_entry(ResultView::Layout(d)), " orders → ~"@, text::decimal(d.slab_bytes_per_order), " bytes/order\n"@),
{
    reveal_strlit("");
    let pieces = seq![
        ""@,
        account_layout_demo::table_text("  "@, d.entries),
        "\n"@,
        "  OrderBook (flat): "@,
        text::decimal(d.orderbook_size),
        " bytes / "@,
        text::decimal(d.orderbook_capacity),
        " orders → "@,
        text::decimal(d.orderbook_bytes_per_order),
        " bytes/order\n"@,
        "  Slab (critbit):   "@,
        text::decimal(d.slab_size),
        " bytes / ~"@,
        text::decimal(d.slab_capacity),
        " orders → ~"@,
        text::decimal(d.slab_bytes_per_order),
        " bytes/order\n"@,
    ];
    reveal_with_fuel(reading::joined, 18);
    assert(seq![] + pieces[0] =~= pieces[0]);
    assert(in_process::delta_entry(ResultView::Layout(d)) =~= reading::joined(pieces, 17));
    reading::lemma_pieces(pieces);
    assert(reading::reads(reading::joined(pieces, 17), pieces[0], pieces[1], pieces[2]));
    assert(reading::reads(reading::joined(pieces, 17), pieces[3], pieces[4], pieces[5]));
    assert(reading::reads(reading::joined(pieces, 17), pieces[5], pieces[6], pieces[7]));
    assert(reading::reads(reading::joined(pieces, 17), pieces[7], pieces[8], pieces[9]));
    assert(reading::reads(reading::joined(pieces, 17), pieces[10], pieces[11], pieces[12]));
    assert(reading::reads(reading::joined(pieces, 17), pieces[12], pieces[13], pieces[14]));
    assert(reading::reads(reading::joined(pieces, 17), pieces[14], pieces[15], pieces[16]));
}

/// What a dispatch step brought to light is the table, the number of instructions and
/// the highest tag.
pub proof fn dispatch_findings_are_shown(
    entries: Seq<InstructionEntryView>,
)
    ensures
        reading::made_of(
            in_process::delta_entry(ResultView::Dispatch(entries)),
            seq![
                "  Tag   Name                          Category     Description\n"@,
                "  ────  ────────────────────────────  ───────────  ────────────────────────────────────────────────────────────\n"@,
                instruction_dispatch_demo::rows_text("  "@, entries, entries.len()),
                "\n"@,
                "  Total: "@,
                text::decimal(entries.len()),
                " instructions; tags contiguous 0..="@,
                text::decimal(instruction_dispatch_demo::highest_tag(entries) as nat),
                "\n"@,
            ],
        ),
        reading::reads(in_process::delta_entry(ResultView::Dispatch(entries)), "  ────  ────────────────────────────  ───────────  ────────────────────────────────────────────────────────────\n"@, instruction_dispatch_demo::rows_text("  "@, entries, entries.len()), "\n"@),
        reading::reads(in_process::delta_entry(ResultView::Dispatch(entries)), "  Total: "@, text::decimal(entries.len()), " instructions; tags contiguous 0..="@),
        reading::reads(in_process::delta_entry(ResultView::Dispatch(entries)), " instructions; tags contiguous 0..="@, text::decimal(instruction_dispatch_demo::highest_tag(entries) as nat), "\n"@),
{
    let pieces = seq![
        "  Tag   Name                          Category     Description\n"@,
        "  ────  ────────────────────────────  ───────────  ────────────────────────────────────────────────────────────\n"@,
        instruction_dispatch_demo::rows_text("  "@, entries, entries.len()),
        "\n"@,
        "  Total: "@,
        text::decimal(entries.len()),
        " instructions; tags contiguous 0..="@,
        text::decimal(instruction_dispatch_demo::highest_tag(entries) as nat),
        "\n"@,
    ];
    reveal_with_fuel(reading::joined, 10);
    assert(seq![] + pieces[0] =~= pieces[0]);
    assert(in_process::delta_entry(ResultView::Dispatch(entries)) == reading::joined(pieces, 9));
    reading::lemma_pieces(pieces);
    assert(reading::reads(reading::joined(pieces, 9), pieces[1], pieces[2], pieces[3]));
    assert(reading::reads(reading::joined(pieces, 9), pieces[4], pieces[5], pieces[6]));
    assert(reading::reads(reading::joined(pieces, 9), pieces[6], pieces[7], pieces[8]));
}

/// The timeline tells of every step, once and in order.
pub proof fn every_step_is_told(
    results: Seq<ResultView>,
    n: nat,
)
    requires
        n <= results.len(),
    ensures
        in_process::timeline(results, n) == reading::joined(
            Seq::new(results.len(), |i: int| in_process::timeline_entry(results[i])),
            n,
        ),
    decreases n,
{
    if n > 0 {
        every_step_is_told(results, (n - 1) as nat);
        let pieces = Seq::new(results.len(), |i: int| in_process::timeline_entry(results[i]));
        assert(in_process::timeline(results, n) =~= reading::joined(pieces, n));
    }
}

/// Every step that brought something to light has its part of the page, in order.
pub proof fn every_finding_is_shown(
    results: Seq<ResultView>,
    n: nat,
)
    requires
        n <= results.len(),
    ensures
        in_process::delta(results, n) == reading::joined(
            Seq::new(results.len(), |i: int| in_process::delta_entry(results[i])),
            n,
        ),
    decreases n,
{
    if n > 0 {
        every_finding_is_shown(results, (n - 1) as nat);
        let pieces = Seq::new(results.len(), |i: int| in_process::delta_entry(results[i]));
        assert(in_process::delta(results, n) =~= reading::joined(pieces, n));
    }
}

/// Every expected outcome has its line, with its own status, in order.
pub proof fn every_outcome_has_its_line(
    outcomes: Seq<ExpectedOutcome>,
    statuses: Seq<types::StatusView>,
    n: nat,
)
    requires
        n <= outcomes.len(),
        n <= statuses.len(),
    ensures
        in_process::outcome_lines(outcomes, statuses, n) == reading::joined(
            Seq::new(outcomes.len(), |i: int| in_process::outcome_line(outcomes[i].description@, statuses[i])),
            n,
        ),
    decreases n,
{
    if n > 0 {
        every_outcome_has_its_line(outcomes, statuses, (n - 1) as nat);
        let pieces = Seq::new(outcomes.len(), |i: int| in_process::outcome_line(outcomes[i].description@, statuses[i]));
        assert(in_process::outcome_lines(outcomes, statuses, n) =~= reading::joined(pieces, n));
    }
}

/// Below the outcomes stands how many of how many passed.
pub proof fn outcomes_are_tallied(
    outcomes: Seq<ExpectedOutcome>,
    statuses: Seq<types::StatusView>,
)
    requires
        statuses.len() > 0,
    ensures
        reading::made_of(
            in_process::outcomes_text(outcomes, statuses),
            seq![
                ""@,
                in_process::outcome_lines(outcomes, statuses, statuses.len()),
                "\n  "@,
                text::decimal(statuses.filter(|s: types::StatusView| s is Pass).len()),
                " of "@,
                text::decimal(statuses.len()),
                " outcome(s) verified.\n"@,
            ],
        ),
        reading::reads(in_process::outcomes_text(outcomes, statuses), ""@, in_process::outcome_lines(outcomes, statuses, statuses.len()), "\n  "@),
        reading::reads(in_process::outcomes_text(outcomes, statuses), "\n  "@, text::decimal(statuses.filter(|s: types::StatusView| s is Pass).len()), " of "@),
        reading::reads(in_process::outcomes_text(outcomes, statuses), " of "@, text::decimal(statuses.len()), " outcome(s) verified.\n"@),
{
    reveal_strlit("");
    crate::scenario::verdicts::passes_are_counted(statuses, statuses.len());
    assert(statuses.take(statuses.len() as int) =~= statuses);
    let pieces = seq![
        ""@,
        in_process::outcome_lines(outcomes, statuses, statuses.len()),
        "\n  "@,
        text::decimal(statuses.filter(|s: types::StatusView| s is Pass).len()),
        " of "@,
        text::decimal(statuses.len()),
        " outcome(s) verified.\n"@,
    ];
    reveal_with_fuel(reading::joined, 8);
    assert(seq![] + pieces[0] =~= pieces[0]);
    assert(in_process::outcomes_text(outcomes, statuses) =~= reading::joined(pieces, 7));
    reading::lemma_pieces(pieces);
    assert(reading::reads(reading::joined(pieces, 7), pieces[0], pieces[1], pieces[2]));
    assert(reading::reads(reading::joined(pieces, 7), pieces[2], pieces[3], pieces[4]));
    assert(reading::reads(reading::joined(pieces, 7), pieces[4], pieces[5], pieces[6]));
}

/// Without expected outcomes the page says that nothing was verified.
pub proof fn missing_outcomes_are_told(outcomes: Seq<ExpectedOutcome>)
    ensures
        in_process::outcomes_text(outcomes, seq![])
            == "  (no expected_outcomes declared — HEADLINE shown as unverified)\n"@,
{
}

/// Steps that failed are told with their number and that of all steps; if none
/// did, nothing is said.
pub proof fn failures_are_told(report: EmbeddedReport)
    ensures
        report.failed == 0 ==> in_process::failures_text(report) == Seq::<char>::empty(),
        report.failed > 0 ==> in_process::failures_text(report) == "("@ + text::decimal(
            report.failed as nat,
        ) + " of "@ + text::decimal(report.total as nat)
            + " step(s) failed during execution)\n\n"@,
{
}

/// The page of a run has the headline with its mark, the timeline, the findings, the
/// outcomes, the failures and where the scenario came from, in this order.
pub proof fn sections_come_in_order(
    scenario: Scenario,
    path: Seq<char>,
    results: Seq<ResultView>,
    report: EmbeddedReport,
)
    ensures
        reading::made_of(
            in_process::sections_text(scenario, path, results, report),
            seq![
                ""@,
                in_process::headline_text(scenario.headline@, in_process::statuses(scenario.expected_outcomes@, results)),
                "TIMELINE:\n"@,
                in_process::timeline(results, results.len()),
                "\nDELTA:\n"@,
                in_process::delta(results, results.len()),
                "\nOUTCOMES:\n"@,
                in_process::outcomes_text(scenario.expected_outcomes@, in_process::statuses(scenario.expected_outcomes@, results)),
                "\n"@,
                in_process::failures_text(report),
                "source: "@,
                path,
                "\n"@,
                render::footer_text(),
                ""@,
            ],
        ),
        reading::reads(in_process::sections_text(scenario, path, results, report), ""@, in_process::headline_text(scenario.headline@, in_process::statuses(scenario.expected_outcomes@, results)), "TIMELINE:\n"@),
        reading::reads(in_process::sections_text(scenario, path, results, report), "TIMELINE:\n"@, in_process::timeline(results, results.len()), "\nDELTA:\n"@),
        reading::reads(in_process::sections_text(scenario, path, results, report), "\nDELTA:\n"@, in_process::delta(results, results.len()), "\nOUTCOMES:\n"@),
        reading::reads(in_process::sections_text(scenario, path, results, report), "\nOUTCOMES:\n"@, in_process::outcomes_text(scenario.expected_outcomes@, in_process::statuses(scenario.expected_outcomes@, results)), "\n"@),
        reading::reads(in_process::sections_text(scenario, path, results, report), "\n"@, in_process::failures_text(report), "source: "@),
        reading::reads(in_process::sections_text(scenario, path, results, report), "source: "@, path, "\n"@),
        reading::reads(in_process::sections_text(scenario, path, results, report), "\n"@, render::footer_text(), ""@),
{
    reveal_strlit("");
    let pieces = seq![
        ""@,
        in_process::headline_text(scenario.headline@, in_process::statuses(scenario.expected_outcomes@, results)),
        "TIMELINE:\n"@,
        in_process::timeline(results, results.len()),
        "\nDELTA:\n"@,
        in_process::delta(results, results.len()),
        "\nOUTCOMES:\n"@,
        in_process::outcomes_text(scenario.expected_outcomes@, in_process::statuses(scenario.expected_outcomes@, results)),
        "\n"@,
        in_process::failures_text(report),
        "source: "@,
        path,
        "\n"@,
        render::footer_text(),
        ""@,
    ];
    reveal_with_fuel(reading::joined, 16);
    assert(seq![] + pieces[0] =~= pieces[0]);
    assert(in_process::sections_text(scenario, path, results, report) =~= reading::joined(pieces, 15));
    reading::lemma_pieces(pieces);
    assert(reading::reads(reading::joined(pieces, 15), pieces[0], pieces[1], pieces[2]));
    assert(reading::reads(reading::joined(pieces, 15), pieces[2], pieces[3], pieces[4]));
    assert(reading::reads(reading::joined(pieces, 15), pieces[4], pieces[5], pieces[6]));
    assert(reading::reads(reading::joined(pieces, 15), pieces[6], pieces[7], pieces[8]));
    assert(reading::reads(reading::joined(pieces, 15), pieces[8], pieces[9], pieces[10]));
    assert(reading::reads(reading::joined(pieces, 15), pieces[10], pieces[11], pieces[12]));
    assert(reading::reads(reading::joined(pieces, 15), pieces[12], pieces[13], pieces[14]));
}

/// The page of a run in this process names the scenario, shows the dials, and then
/// what its steps gave.
pub proof fn in_process_pages_are_about_the_scenario(
    scenario: Scenario,
    path: Seq<char>,
    dials: DialOverrides,
)
    ensures
        reading::made_of(
            in_process::run_text(scenario, path, dials),
            seq![
                "─── scenario: "@,
                scenario.name@,
                " ────────────────────────────────────\n"@,
                in_process::dials_text(dials),
                "\n"@,
                in_process::sections_text(scenario, path, in_process::scenario_results(scenario), in_process::all_passed(scenario)),
                ""@,
            ],
        ),
        reading::reads(in_process::run_text(scenario, path, dials), "─── scenario: "@, scenario.name@, " ────────────────────────────────────\n"@),
        reading::reads(in_process::run_text(scenario, path, dials), " ────────────────────────────────────\n"@, in_process::dials_text(dials), "\n"@),
        reading::reads(in_process::run_text(scenario, path, dials), "\n"@, in_process::sections_text(scenario, path, in_process::scenario_results(scenario), in_process::all_passed(scenario)), ""@),
{
    reveal_strlit("");
    let pieces = seq![
        "─── scenario: "@,
        scenario.name@,
        " ────────────────────────────────────\n"@,
        in_process::dials_text(dials),
        "\n"@,
        in_process::sections_text(scenario, path, in_process::scenario_results(scenario), in_process::all_passed(scenario)),
        ""@,
    ];
    reveal_with_fuel(reading::joined, 8);
    assert(seq![] + pieces[0] =~= pieces[0]);
    assert(in_process::run_text(scenario, path, dials) =~= reading::joined(pieces, 7));
    reading::lemma_pieces(pieces);
    assert(reading::reads(reading::joined(pieces, 7), pieces[0], pieces[1], pieces[2]));
    assert(reading::reads(reading::joined(pieces, 7), pieces[2], pieces[3], pieces[4]));
    assert(reading::reads(reading::joined(pieces, 7), pieces[4], pieces[5], pieces[6]));
}

/// Every dial that is set is shown under its own name with its value, the shock
/// with its sign; without one nothing is said of dials.
pub proof fn dials_are_shown(dials: DialOverrides)
    ensures
        dials.oracle_shock_bps matches Some(v) ==> reading::reads(
            in_process::dials_text(dials),
            "    oracle_shock_bps       : "@,
            text::decimal_signed(v as int),
            "\n"@,
        ),
        dials.liquidation_buffer_bps matches Some(v) ==> reading::reads(
            in_process::dials_text(dials),
            "    liquidation_buffer_bps : "@,
            text::decimal(v as nat),
            "\n"@,
        ),
        dials.matching_workload_size matches Some(v) ==> reading::reads(
            in_process::dials_text(dials),
            "    matching_workload_size : "@,
            text::decimal(v as nat),
            "\n"@,
        ),
        in_process::dials_text(dials) == Seq::<char>::empty() <==> (dials.oracle_shock_bps is None
            && dials.liquidation_buffer_bps is None && dials.matching_workload_size is None),
{
    reveal_strlit("\nDIAL OVERRIDES (from CLI flags; informational for v2 in-process targets):\n");
    let page = in_process::dials_text(dials);
    let intro =
        "\nDIAL OVERRIDES (from CLI flags; informational for v2 in-process targets):\n"@;
    let shock = match dials.oracle_shock_bps {
        Some(v) => "    oracle_shock_bps       : "@ + text::decimal_signed(v as int) + "\n"@,
        None => seq![],
    };
    let buffer = match dials.liquidation_buffer_bps {
        Some(v) => "    liquidation_buffer_bps : "@ + text::decimal(v as nat) + "\n"@,
        None => seq![],
    };
    let size = match dials.matching_workload_size {
        Some(v) => "    matching_workload_size : "@ + text::decimal(v as nat) + "\n"@,
        None => seq![],
    };
    if page.len() > 0 {
        assert(page =~= intro + shock + buffer + size);
        assert(page =~= intro + shock + (buffer + size));
        assert(page =~= (intro + shock) + buffer + size);
        assert(page =~= (intro + shock + buffer) + size + Seq::<char>::empty());
    } else {
        assert(page =~= Seq::<char>::empty());
        assert(intro.len() > 0);
    }
}

/// The column of names holds every name and is no wider than the longest asks for,
/// or than its own title; that of categories is as wide for the categories.
pub proof fn columns_fit_their_cells(scenarios: Seq<(String, Scenario)>)
    ensures
        render::name_width(scenarios) >= 4,
        render::category_width(scenarios) >= 8,
        forall|i: int|
            0 <= i < scenarios.len() ==> render::name_width(scenarios) >= vstd::utf8::encode_utf8(
                (#[trigger] scenarios[i]).1.name@,
            ).len() && render::category_width(scenarios) >= vstd::utf8::encode_utf8(
                scenarios[i].1.category@,
            ).len(),
        render::name_width(scenarios) > 4 ==> exists|i: int|
            0 <= i < scenarios.len() && render::name_width(scenarios) == vstd::utf8::encode_utf8(
                (#[trigger] scenarios[i]).1.name@,
            ).len(),
        render::category_width(scenarios) > 8 ==> exists|i: int|
            0 <= i < scenarios.len() && render::category_width(scenarios)
                == vstd::utf8::encode_utf8((#[trigger] scenarios[i]).1.category@).len(),
    decreases scenarios.len(),
{
    if scenarios.len() > 0 {
        let front = scenarios.drop_last();
        columns_fit_their_cells(front);
        let last = scenarios.len() - 1;
        assert(scenarios[last] == scenarios.last());
        assert forall|i: int| 0 <= i < scenarios.len() implies render::name_width(scenarios)
            >= vstd::utf8::encode_utf8((#[trigger] scenarios[i]).1.name@).len()
            && render::category_width(scenarios) >= vstd::utf8::encode_utf8(
            scenarios[i].1.category@,
        ).len() by {
            if i < last {
                assert(front[i] == scenarios[i]);
            }
        }
        if render::name_width(front) > 4 {
            let k = choose|i: int|
                0 <= i < front.len() && render::name_width(front) == vstd::utf8::encode_utf8(
                    (#[trigger] front[i]).1.name@,
                ).len();
            assert(front[k] == scenarios[k]);
        }
        if render::category_width(front) > 8 {
            let k = choose|i: int|
                0 <= i < front.len() && render::category_width(front) == vstd::utf8::encode_utf8(
                    (#[trigger] front[i]).1.category@,
                ).len();
            assert(front[k] == scenarios[k]);
        }
    }
}

/// Without scenarios the list says so.
pub proof fn empty_lists_say_so()
    ensures
        render::list_text(seq![]) == "No scenarios found.\n"@,
{
}

/// A line of the list shows the name and the category, each in its column, and then
/// the rest.
pub proof fn list_rows_show_their_scenario(
    name: Seq<char>,
    category: Seq<char>,
    rest: Seq<char>,
    name_w: nat,
    cat_w: nat,
)
    ensures
        reading::made_of(
            render::list_row(name, category, rest, name_w, cat_w),
            seq![
                ""@,
                text::pad_right(name, name_w),
                "  "@,
                text::pad_right(category, cat_w),
                "  "@,
                rest,
                "\n"@,
            ],
        ),
        reading::reads(render::list_row(name, category, rest, name_w, cat_w), ""@, text::pad_right(name, name_w), "  "@),
        reading::reads(render::list_row(name, category, rest, name_w, cat_w), "  "@, text::pad_right(category, cat_w), "  "@),
        reading::reads(render::list_row(name, category, rest, name_w, cat_w), "  "@, rest, "\n"@),
{
    reveal_strlit("");
    let pieces = seq![
        ""@,
        text::pad_right(name, name_w),
        "  "@,
        text::pad_right(category, cat_w),
        "  "@,
        rest,
        "\n"@,
    ];
    reveal_with_fuel(reading::joined, 8);
    assert(seq![] + pieces[0] =~= pieces[0]);
    assert(render::list_row(name, category, rest, name_w, cat_w) =~= reading::joined(pieces, 7));
    reading::lemma_pieces(pieces);
    assert(reading::reads(reading::joined(pieces, 7), pieces[0], pieces[1], pieces[2]));
    assert(reading::reads(reading::joined(pieces, 7), pieces[2], pieces[3], pieces[4]));
    assert(reading::reads(reading::joined(pieces, 7), pieces[4], pieces[5], pieces[6]));
}

/// The list has a line for every scenario, in order, with its headline behind name
/// and category.
pub proof fn every_scenario_is_listed(
    scenarios: Seq<(String, Scenario)>,
    name_w: nat,
    cat_w: nat,
    n: nat,
)
    requires
        n <= scenarios.len(),
    ensures
        render::list_rows(scenarios, name_w, cat_w, n) == reading::joined(
            Seq::new(scenarios.len(), |i: int| render::list_row(scenarios[i].1.name@, scenarios[i].1.category@, scenarios[i].1.headline@, name_w, cat_w)),
            n,
        ),
    decreases n,
{
    if n > 0 {
        every_scenario_is_listed(scenarios, name_w, cat_w, (n - 1) as nat);
        let pieces = Seq::new(scenarios.len(), |i: int| render::list_row(scenarios[i].1.name@, scenarios[i].1.category@, scenarios[i].1.headline@, name_w, cat_w));
        assert(render::list_rows(scenarios, name_w, cat_w, n) =~= reading::joined(pieces, n));
    }
}

/// A list that is not empty has the titles of the columns, a rule of dashes as wide as
/// they are, and then the scenarios.
pub proof fn lists_have_a_title_and_a_rule(
    scenarios: Seq<(String, Scenario)>,
)
    requires
        scenarios.len() > 0,
    ensures
        reading::made_of(
            render::list_text(scenarios),
            seq![
                ""@,
                render::list_row("Name"@, "Category"@, "Headline"@, render::name_width(scenarios), render::category_width(scenarios)),
                text::repeat('-', render::name_width(scenarios)),
                "  "@,
                text::repeat('-', render::category_width(scenarios)),
                "  "@,
                text::repeat('-', 60),
                "\n"@,
                render::list_rows(scenarios, render::name_width(scenarios), render::category_width(scenarios), scenarios.len()),
                render::footer_text(),
                ""@,
            ],
        ),
        reading::reads(render::list_text(scenarios), ""@, render::list_row("Name"@, "Category"@, "Headline"@, render::name_width(scenarios), render::category_width(scenarios)), text::repeat('-', render::name_width(scenarios))),
        reading::reads(render::list_text(scenarios), render::list_row("Name"@, "Category"@, "Headline"@, render::name_width(scenarios), render::category_width(scenarios)), text::repeat('-', render::name_width(scenarios)), "  "@),
        reading::reads(render::list_text(scenarios), "  "@, text::repeat('-', render::category_width(scenarios)), "  "@),
        reading::reads(render::list_text(scenarios), "  "@, text::repeat('-', 60), "\n"@),
        reading::reads(render::list_text(scenarios), "\n"@, render::list_rows(scenarios, render::name_width(scenarios), render::category_width(scenarios), scenarios.len()), render::footer_text()),
        reading::reads(render::list_text(scenarios), render::list_rows(scenarios, render::name_width(scenarios), render::category_width(scenarios), scenarios.len()), render::footer_text(), ""@),
{
    reveal_strlit("");
    let pieces = seq![
        ""@,
        render::list_row("Name"@, "Category"@, "Headline"@, render::name_width(scenarios), render::category_width(scenarios)),
        text::repeat('-', render::name_width(scenarios)),
        "  "@,
        text::repeat('-', render::category_width(scenarios)),
        "  "@,
        text::repeat('-', 60),
        "\n"@,
        render::list_rows(scenarios, render::name_width(scenarios), render::category_width(scenarios), scenarios.len()),
        render::footer_text(),
        ""@,
    ];
    reveal_with_fuel(reading::joined, 12);
    assert(seq![] + pieces[0] =~= pieces[0]);
    assert(render::list_text(scenarios) =~= reading::joined(pieces, 11));
    reading::lemma_pieces(pieces);
    assert(reading::reads(reading::joined(pieces, 11), pieces[0], pieces[1], pieces[2]));
    assert(reading::reads(reading::joined(pieces, 11), pieces[1], pieces[2], pieces[3]));
    assert(reading::reads(reading::joined(pieces, 11), pieces[3], pieces[4], pieces[5]));
    assert(reading::reads(reading::joined(pieces, 11), pieces[5], pieces[6], pieces[7]));
    assert(reading::reads(reading::joined(pieces, 11), pieces[7], pieces[8], pieces[9]));
    assert(reading::reads(reading::joined(pieces, 11), pieces[8], pieces[9], pieces[10]));
}

/// Every line of a description is indented by two spaces and ends in a line feed, in
/// order.
pub proof fn every_line_is_indented(
    lines: Seq<Seq<char>>,
    n: nat,
)
    requires
        n <= lines.len(),
    ensures
        render::indented(lines, n) == reading::joined(
            Seq::new(lines.len(), |i: int| "  "@ + lines[i] + "\n"@),
            n,
        ),
    decreases n,
{
    if n > 0 {
        every_line_is_indented(lines, (n - 1) as nat);
        let pieces = Seq::new(lines.len(), |i: int| "  "@ + lines[i] + "\n"@);
        assert(render::indented(lines, n) =~= reading::joined(pieces, n));
    }
}

/// Every step is explained behind its number, counted from one.
pub proof fn every_step_is_explained(
    steps: Seq<ScenarioStep>,
    n: nat,
)
    requires
        n <= steps.len(),
    ensures
        render::explanations(steps, n) == reading::joined(
            Seq::new(steps.len(), |i: int| "  ["@ + text::decimal((i + 1) as nat) + "] "@ + steps[i].explanation@ + "\n"@),
            n,
        ),
    decreases n,
{
    if n > 0 {
        every_step_is_explained(steps, (n - 1) as nat);
        let pieces = Seq::new(steps.len(), |i: int| "  ["@ + text::decimal((i + 1) as nat) + "] "@ + steps[i].explanation@ + "\n"@);
        assert(render::explanations(steps, n) =~= reading::joined(pieces, n));
    }
}

/// A dry run shows every step under its number, counted from one.
pub proof fn every_step_is_in_the_dry_run(
    steps: Seq<ScenarioStep>,
    n: nat,
)
    requires
        n <= steps.len(),
    ensures
        render::dry_steps(steps, n) == reading::joined(
            Seq::new(steps.len(), |i: int| render::dry_step(steps[i], (i + 1) as nat)),
            n,
        ),
    decreases n,
{
    if n > 0 {
        every_step_is_in_the_dry_run(steps, (n - 1) as nat);
        let pieces = Seq::new(steps.len(), |i: int| render::dry_step(steps[i], (i + 1) as nat));
        assert(render::dry_steps(steps, n) =~= reading::joined(pieces, n));
    }
}

/// A step of a dry run shows its number, its explanation and its command.
pub proof fn dry_steps_show_the_command(
    step: ScenarioStep,
    number: nat,
)
    ensures
        reading::made_of(
            render::dry_step(step, number),
            seq![
                "\n  Step "@,
                text::decimal(number),
                " — "@,
                step.explanation@,
                "\n    $ "@,
                step.command@,
                "\n"@,
                render::expect_line("    # expect output to include: "@, step.expect, "\n"@),
                ""@,
            ],
        ),
        reading::reads(render::dry_step(step, number), "\n  Step "@, text::decimal(number), " — "@),
        reading::reads(render::dry_step(step, number), " — "@, step.explanation@, "\n    $ "@),
        reading::reads(render::dry_step(step, number), "\n    $ "@, step.command@, "\n"@),
        reading::reads(render::dry_step(step, number), "\n"@, render::expect_line("    # expect output to include: "@, step.expect, "\n"@), ""@),
{
    reveal_strlit("");
    let pieces = seq![
        "\n  Step "@,
        text::decimal(number),
        " — "@,
        step.explanation@,
        "\n    $ "@,
        step.command@,
        "\n"@,
        render::expect_line("    # expect output to include: "@, step.expect, "\n"@),
        ""@,
    ];
    reveal_with_fuel(reading::joined, 10);
    assert(seq![] + pieces[0] =~= pieces[0]);
    assert(render::dry_step(step, number) =~= reading::joined(pieces, 9));
    reading::lemma_pieces(pieces);
    assert(reading::reads(reading::joined(pieces, 9), pieces[0], pieces[1], pieces[2]));
    assert(reading::reads(reading::joined(pieces, 9), pieces[2], pieces[3], pieces[4]));
    assert(reading::reads(reading::joined(pieces, 9), pieces[4], pieces[5], pieces[6]));
    assert(reading::reads(reading::joined(pieces, 9), pieces[6], pieces[7], pieces[8]));
}

/// An expected text stands between what comes before and after; without one
/// there is no line.
pub proof fn expected_texts_are_shown(before: Seq<char>, e: String, after: Seq<char>)
    ensures
        render::expect_line(before, Some(e), after) == before + e@ + after,
        render::expect_line(before, None, after) == Seq::<char>::empty(),
{
}

/// The page on one scenario shows its headline, name, category, source, description
/// and steps, with their number.
pub proof fn details_are_about_the_scenario(
    scenario: Scenario,
    path: Seq<char>,
)
    ensures
        reading::made_of(
            render::show_text(scenario, path),
            seq![
                "─── "@,
                scenario.headline@,
                " ────────────────────────────────────\n"@,
                "name        : "@,
                scenario.name@,
                "\ncategory    : "@,
                scenario.category@,
                "\nsource      : "@,
                path,
                "\n\ndescription :\n"@,
                render::description_text(scenario.description@),
                "\nsteps       : "@,
                text::decimal(scenario.steps@.len()),
                " command(s)\n"@,
                render::explanations(scenario.steps@, scenario.steps@.len()),
                render::footer_text(),
                ""@,
            ],
        ),
        reading::reads(render::show_text(scenario, path), "─── "@, scenario.headline@, " ────────────────────────────────────\n"@),
        reading::reads(render::show_text(scenario, path), "name        : "@, scenario.name@, "\ncategory    : "@),
        reading::reads(render::show_text(scenario, path), "\ncategory    : "@, scenario.category@, "\nsource      : "@),
        reading::reads(render::show_text(scenario, path), "\nsource      : "@, path, "\n\ndescription :\n"@),
        reading::reads(render::show_text(scenario, path), "\n\ndescription :\n"@, render::description_text(scenario.description@), "\nsteps       : "@),
        reading::reads(render::show_text(scenario, path), "\nsteps       : "@, text::decimal(scenario.steps@.len()), " command(s)\n"@),
        reading::reads(render::show_text(scenario, path), " command(s)\n"@, render::explanations(scenario.steps@, scenario.steps@.len()), render::footer_text()),
        reading::reads(render::show_text(scenario, path), render::explanations(scenario.steps@, scenario.steps@.len()), render::footer_text(), ""@),
{
    reveal_strlit("");
    let pieces = seq![
        "─── "@,
        scenario.headline@,
        " ────────────────────────────────────\n"@,
        "name        : "@,
        scenario.name@,
        "\ncategory    : "@,
        scenario.category@,
        "\nsource      : "@,
        path,
        "\n\ndescription :\n"@,
        render::description_text(scenario.description@),
        "\nsteps       : "@,
        text::decimal(scenario.steps@.len()),
        " command(s)\n"@,
        render::explanations(scenario.steps@, scenario.steps@.len()),
        render::footer_text(),
        ""@,
    ];
    reveal_with_fuel(reading::joined, 18);
    assert(seq![] + pieces[0] =~= pieces[0]);
    assert(render::show_text(scenario, path) =~= reading::joined(pieces, 17));
    reading::lemma_pieces(pieces);
    assert(reading::reads(reading::joined(pieces, 17), pieces[0], pieces[1], pieces[2]));
    assert(reading::reads(reading::joined(pieces, 17), pieces[3], pieces[4], pieces[5]));
    assert(reading::reads(reading::joined(pieces, 17), pieces[5], pieces[6], pieces[7]));
    assert(reading::reads(reading::joined(pieces, 17), pieces[7], pieces[8], pieces[9]));
    assert(reading::reads(reading::joined(pieces, 17), pieces[9], pieces[10], pieces[11]));
    assert(reading::reads(reading::joined(pieces, 17), pieces[11], pieces[12], pieces[13]));
    assert(reading::reads(reading::joined(pieces, 17), pieces[13], pieces[14], pieces[15]));
    assert(reading::reads(reading::joined(pieces, 17), pieces[14], pieces[15], pieces[16]));
}

/// The page of a dry run shows the name, the headline, the description, what has to be
/// set up, the steps with their number, and the source.
pub proof fn dry_runs_are_about_the_scenario(
    scenario: Scenario,
    path: Seq<char>,
)
    ensures
        reading::made_of(
            render::dry_run_text(scenario, path),
            seq![
                "─── scenario: "@,
                scenario.name@,
                " ────────────────────────────────────\n"@,
                "HEADLINE: "@,
                scenario.headline@,
                "\n\nDESCRIPTION:\n"@,
                render::description_text(scenario.description@),
                render::prerequisites(),
                "\nSTEPS ("@,
                text::decimal(scenario.steps@.len()),
                " command(s)):\n"@,
                render::dry_steps(scenario.steps@, scenario.steps@.len()),
                "\nSOURCE: "@,
                path,
                "\n"@,
                "\nNOTE: v0 prints the step list rather than executing each command\n"@,
                "in-process. Embedded execution with CU-cost aggregation lands in v1.\n"@,
                render::footer_text(),
                ""@,
            ],
        ),
        reading::reads(render::dry_run_text(scenario, path), "─── scenario: "@, scenario.name@, " ────────────────────────────────────\n"@),
        reading::reads(render::dry_run_text(scenario, path), "HEADLINE: "@, scenario.headline@, "\n\nDESCRIPTION:\n"@),
        reading::reads(render::dry_run_text(scenario, path), "\n\nDESCRIPTION:\n"@, render::description_text(scenario.description@), render::prerequisites()),
        reading::reads(render::dry_run_text(scenario, path), render::description_text(scenario.description@), render::prerequisites(), "\nSTEPS ("@),
        reading::reads(render::dry_run_text(scenario, path), "\nSTEPS ("@, text::decimal(scenario.steps@.len()), " command(s)):\n"@),
        reading::reads(render::dry_run_text(scenario, path), " command(s)):\n"@, render::dry_steps(scenario.steps@, scenario.steps@.len()), "\nSOURCE: "@),
        reading::reads(render::dry_run_text(scenario, path), "\nSOURCE: "@, path, "\n"@),
        reading::reads(render::dry_run_text(scenario, path), "in-process. Embedded execution with CU-cost aggregation lands in v1.\n"@, render::footer_text(), ""@),
{
    reveal_strlit("");
    let pieces = seq![
        "─── scenario: "@,
        scenario.name@,
        " ────────────────────────────────────\n"@,
        "HEADLINE: "@,
        scenario.headline@,
        "\n\nDESCRIPTION:\n"@,
        render::description_text(scenario.description@),
        render::prerequisites(),
        "\nSTEPS ("@,
        text::decimal(scenario.steps@.len()),
        " command(s)):\n"@,
        render::dry_steps(scenario.steps@, scenario.steps@.len()),
        "\nSOURCE: "@,
        path,
        "\n"@,
        "\nNOTE: v0 prints the step list rather than executing each command\n"@,
        "in-process. Embedded execution with CU-cost aggregation lands in v1.\n"@,
        render::footer_text(),
        ""@,
    ];
    reveal_with_fuel(reading::joined, 20);
    assert(seq![] + pieces[0] =~= pieces[0]);
    assert(render::dry_run_text(scenario, path) =~= reading::joined(pieces, 19));
    reading::lemma_pieces(pieces);
    assert(reading::reads(reading::joined(pieces, 19), pieces[0], pieces[1], pieces[2]));
    assert(reading::reads(reading::joined(pieces, 19), pieces[3], pieces[4], pieces[5]));
    assert(reading::reads(reading::joined(pieces, 19), pieces[5], pieces[6], pieces[7]));
    assert(reading::reads(reading::joined(pieces, 19), pieces[6], pieces[7], pieces[8]));
    assert(reading::reads(reading::joined(pieces, 19), pieces[8], pieces[9], pieces[10]));
    assert(reading::reads(reading::joined(pieces, 19), pieces[10], pieces[11], pieces[12]));
    assert(reading::reads(reading::joined(pieces, 19), pieces[12], pieces[13], pieces[14]));
    assert(reading::reads(reading::joined(pieces, 19), pieces[16], pieces[17], pieces[18]));
}

/// A description is shown line by line.
pub proof fn descriptions_are_shown_in_lines(description: Seq<char>)
    ensures
        render::description_text(description) == reading::joined(
            split::lines(description).map(|i: int, line: Seq<char>| "  "@ + line + "\n"@),
            split::lines(description).len(),
        ),
{
    let lines = split::lines(description);
    every_line_is_indented(lines, lines.len());
    assert(lines.map(|i: int, line: Seq<char>| "  "@ + line + "\n"@) =~= Seq::new(
        lines.len(),
        |i: int| "  "@ + lines[i] + "\n"@,
    ));
}

/// Before the first step stand the name, the headline and the description.
pub proof fn intros_are_about_the_scenario(
    scenario: Scenario,
)
    ensures
        reading::made_of(
            subprocess::intro_text(scenario),
            seq![
                "─── scenario: "@,
                scenario.name@,
                " ────────────────────────────────────\n"@,
                "HEADLINE (curator claim): "@,
                scenario.headline@,
                "\n\nDESCRIPTION:\n"@,
                render::description_text(scenario.description@),
                "\nPREREQUISITES (operator's responsibility):\n"@,
                "  solana-test-validator --reset    # in another terminal\n"@,
                "  cargo build-sbf -p openhl-core\n"@,
                "  solana program deploy target/deploy/openhl_core.so\n\n"@,
            ],
        ),
        reading::reads(subprocess::intro_text(scenario), "─── scenario: "@, scenario.name@, " ────────────────────────────────────\n"@),
        reading::reads(subprocess::intro_text(scenario), "HEADLINE (curator claim): "@, scenario.headline@, "\n\nDESCRIPTION:\n"@),
        reading::reads(subprocess::intro_text(scenario), "\n\nDESCRIPTION:\n"@, render::description_text(scenario.description@), "\nPREREQUISITES (operator's responsibility):\n"@),
{
    let pieces = seq![
        "─── scenario: "@,
        scenario.name@,
        " ────────────────────────────────────\n"@,
        "HEADLINE (curator claim): "@,
        scenario.headline@,
        "\n\nDESCRIPTION:\n"@,
        render::description_text(scenario.description@),
        "\nPREREQUISITES (operator's responsibility):\n"@,
        "  solana-test-validator --reset    # in another terminal\n"@,
        "  cargo build-sbf -p openhl-core\n"@,
        "  solana program deploy target/deploy/openhl_core.so\n\n"@,
    ];
    reveal_with_fuel(reading::joined, 12);
    assert(seq![] + pieces[0] =~= pieces[0]);
    assert(subprocess::intro_text(scenario) == reading::joined(pieces, 11));
    reading::lemma_pieces(pieces);
    assert(reading::reads(reading::joined(pieces, 11), pieces[0], pieces[1], pieces[2]));
    assert(reading::reads(reading::joined(pieces, 11), pieces[3], pieces[4], pieces[5]));
    assert(reading::reads(reading::joined(pieces, 11), pieces[5], pieces[6], pieces[7]));
}

/// Before a step stand its number and that of all steps, its explanation, its command
/// and the expected text.
pub proof fn steps_are_announced(
    step: ScenarioStep,
    number: nat,
    total: nat,
)
    ensures
        reading::made_of(
            subprocess::step_text(step, number, total),
            seq![
                "─── Step "@,
                text::decimal(number),
                " of "@,
                text::decimal(total),
                " ───────────────────────────\n"@,
                "  "@,
                step.explanation@,
                "\n  $ "@,
                step.command@,
                "\n"@,
                render::expect_line("  # (looking for: "@, step.expect, ")\n"@),
                "\n"@,
            ],
        ),
        reading::reads(subprocess::step_text(step, number, total), "─── Step "@, text::decimal(number), " of "@),
        reading::reads(subprocess::step_text(step, number, total), " of "@, text::decimal(total), " ───────────────────────────\n"@),
        reading::reads(subprocess::step_text(step, number, total), "  "@, step.explanation@, "\n  $ "@),
        reading::reads(subprocess::step_text(step, number, total), "\n  $ "@, step.command@, "\n"@),
        reading::reads(subprocess::step_text(step, number, total), "\n"@, render::expect_line("  # (looking for: "@, step.expect, ")\n"@), "\n"@),
{
    let pieces = seq![
        "─── Step "@,
        text::decimal(number),
        " of "@,
        text::decimal(total),
        " ───────────────────────────\n"@,
        "  "@,
        step.explanation@,
        "\n  $ "@,
        step.command@,
        "\n"@,
        render::expect_line("  # (looking for: "@, step.expect, ")\n"@),
        "\n"@,
    ];
    reveal_with_fuel(reading::joined, 13);
    assert(seq![] + pieces[0] =~= pieces[0]);
    assert(subprocess::step_text(step, number, total) == reading::joined(pieces, 12));
    reading::lemma_pieces(pieces);
    assert(reading::reads(reading::joined(pieces, 12), pieces[0], pieces[1], pieces[2]));
    assert(reading::reads(reading::joined(pieces, 12), pieces[2], pieces[3], pieces[4]));
    assert(reading::reads(reading::joined(pieces, 12), pieces[5], pieces[6], pieces[7]));
    assert(reading::reads(reading::joined(pieces, 12), pieces[7], pieces[8], pieces[9]));
    assert(reading::reads(reading::joined(pieces, 12), pieces[9], pieces[10], pieces[11]));
}

/// The verdict tells how many steps there were, passed, failed and were skipped, and
/// how many expected texts there were, were found and were not.
pub proof fn verdicts_tell_the_report(
    report: EmbeddedReport,
    path: Seq<char>,
)
    requires
        report.expectations_verified + report.expectations_failed > 0,
    ensures
        reading::made_of(
            subprocess::verdict_text(report, path),
            seq![
                "─── verdict ───────────────────────────────────────────\n"@,
                text::decimal(report.total as nat),
                " step(s): "@,
                text::decimal(report.passed as nat),
                " passed / "@,
                text::decimal(report.failed as nat),
                " failed / "@,
                text::decimal(report.skipped as nat),
                " skipped (informational)\n"@,
                text::decimal((report.expectations_verified + report.expectations_failed) as nat),
                " declared expected-output substring(s): "@,
                text::decimal(report.expectations_verified as nat),
                " verified ✓ / "@,
                text::decimal(report.expectations_failed as nat),
                " not found ✗\n"@,
                "source: "@,
                path,
                "\n"@,
                render::footer_text(),
                ""@,
            ],
        ),
        reading::reads(subprocess::verdict_text(report, path), "─── verdict ───────────────────────────────────────────\n"@, text::decimal(report.total as nat), " step(s): "@),
        reading::reads(subprocess::verdict_text(report, path), " step(s): "@, text::decimal(report.passed as nat), " passed / "@),
        reading::reads(subprocess::verdict_text(report, path), " passed / "@, text::decimal(report.failed as nat), " failed / "@),
        reading::reads(subprocess::verdict_text(report, path), " failed / "@, text::decimal(report.skipped as nat), " skipped (informational)\n"@),
        reading::reads(subprocess::verdict_text(report, path), " skipped (informational)\n"@, text::decimal((report.expectations_verified + report.expectations_failed) as nat), " declared expected-output substring(s): "@),
        reading::reads(subprocess::verdict_text(report, path), " declared expected-output substring(s): "@, text::decimal(report.expectations_verified as nat), " verified ✓ / "@),
        reading::reads(subprocess::verdict_text(report, path), " verified ✓ / "@, text::decimal(report.expectations_failed as nat), " not found ✗\n"@),
        reading::reads(subprocess::verdict_text(report, path), "source: "@, path, "\n"@),
        reading::reads(subprocess::verdict_text(report, path), "\n"@, render::footer_text(), ""@),
{
    reveal_strlit("");
    let pieces = seq![
        "─── verdict ───────────────────────────────────────────\n"@,
        text::decimal(report.total as nat),
        " step(s): "@,
        text::decimal(report.passed as nat),
        " passed / "@,
        text::decimal(report.failed as nat),
        " failed / "@,
        text::decimal(report.skipped as nat),
        " skipped (informational)\n"@,
        text::decimal((report.expectations_verified + report.expectations_failed) as nat),
        " declared expected-output substring(s): "@,
        text::decimal(report.expectations_verified as nat),
        " verified ✓ / "@,
        text::decimal(report.expectations_failed as nat),
        " not found ✗\n"@,
        "source: "@,
        path,
        "\n"@,
        render::footer_text(),
        ""@,
    ];
    reveal_with_fuel(reading::joined, 21);
    assert(seq![] + pieces[0] =~= pieces[0]);
    assert(subprocess::verdict_text(report, path) =~= reading::joined(pieces, 20));
    reading::lemma_pieces(pieces);
    assert(reading::reads(reading::joined(pieces, 20), pieces[0], pieces[1], pieces[2]));
    assert(reading::reads(reading::joined(pieces, 20), pieces[2], pieces[3], pieces[4]));
    assert(reading::reads(reading::joined(pieces, 20), pieces[4], pieces[5], pieces[6]));
    assert(reading::reads(reading::joined(pieces, 20), pieces[6], pieces[7], pieces[8]));
    assert(reading::reads(reading::joined(pieces, 20), pieces[8], pieces[9], pieces[10]));
    assert(reading::reads(reading::joined(pieces, 20), pieces[10], pieces[11], pieces[12]));
    assert(reading::reads(reading::joined(pieces, 20), pieces[12], pieces[13], pieces[14]));
    assert(reading::reads(reading::joined(pieces, 20), pieces[15], pieces[16], pieces[17]));
    assert(reading::reads(reading::joined(pieces, 20), pieces[17], pieces[18], pieces[19]));
}

/// A verdict on steps without expected texts says nothing of such texts.
pub proof fn verdicts_without_expectations_say_nothing_of_them(
    report: EmbeddedReport,
    path: Seq<char>,
)
    requires
        report.expectations_verified == 0,
        report.expectations_failed == 0,
    ensures
        reading::made_of(
            subprocess::verdict_text(report, path),
            seq![
                "─── verdict ───────────────────────────────────────────\n"@,
                text::decimal(report.total as nat),
                " step(s): "@,
                text::decimal(report.passed as nat),
                " passed / "@,
                text::decimal(report.failed as nat),
                " failed / "@,
                text::decimal(report.skipped as nat),
                " skipped (informational)\n"@,
                "source: "@,
                path,
                "\n"@,
                render::footer_text(),
                ""@,
            ],
        ),
        reading::reads(subprocess::verdict_text(report, path), "─── verdict ───────────────────────────────────────────\n"@, text::decimal(report.total as nat), " step(s): "@),
        reading::reads(subprocess::verdict_text(report, path), " step(s): "@, text::decimal(report.passed as nat), " passed / "@),
        reading::reads(subprocess::verdict_text(report, path), " passed / "@, text::decimal(report.failed as nat), " failed / "@),
        reading::reads(subprocess::verdict_text(report, path), " failed / "@, text::decimal(report.skipped as nat), " skipped (informational)\n"@),
        reading::reads(subprocess::verdict_text(report, path), "source: "@, path, "\n"@),
        reading::reads(subprocess::verdict_text(report, path), "\n"@, render::footer_text(), ""@),
        reading::reads(subprocess::verdict_text(report, path), text::decimal(report.skipped as nat), " skipped (informational)\n"@, "source: "@),
{
    reveal_strlit("");
    let pieces = seq![
        "─── verdict ───────────────────────────────────────────\n"@,
        text::decimal(report.total as nat),
        " step(s): "@,
        text::decimal(report.passed as nat),
        " passed / "@,
        text::decimal(report.failed as nat),
        " failed / "@,
        text::decimal(report.skipped as nat),
        " skipped (informational)\n"@,
        "source: "@,
        path,
        "\n"@,
        render::footer_text(),
        ""@,
    ];
    reveal_with_fuel(reading::joined, 15);
    assert(seq![] + pieces[0] =~= pieces[0]);
    assert(subprocess::verdict_text(report, path) =~= reading::joined(pieces, 14));
    reading::lemma_pieces(pieces);
    assert(reading::reads(reading::joined(pieces, 14), pieces[0], pieces[1], pieces[2]));
    assert(reading::reads(reading::joined(pieces, 14), pieces[2], pieces[3], pieces[4]));
    assert(reading::reads(reading::joined(pieces, 14), pieces[4], pieces[5], pieces[6]));
    assert(reading::reads(reading::joined(pieces, 14), pieces[6], pieces[7], pieces[8]));
    assert(reading::reads(reading::joined(pieces, 14), pieces[9], pieces[10], pieces[11]));
    assert(reading::reads(reading::joined(pieces, 14), pieces[11], pieces[12], pieces[13]));
}

/// A command that succeeded is told with the number of its step, and if a text was
/// expected, with whether the output has it.
pub proof fn successes_are_told(
    step: ScenarioStep,
    number: nat,
    code: Option<i32>,
    captured: String,
    quote: Seq<char>,
)
    ensures
        ({
            let page = subprocess::outcome_text(
                step,
                number,
                StepOutcome::Exited { success: true, code, captured },
                quote,
            );
            let head = "\n  ✓ step "@ + text::decimal(number) + " succeeded (exit 0)\n"@;
            &&& step.expect is None ==> page == head + "\n"@
            &&& step.expect matches Some(e) ==> (reading::holds(captured@, e@) ==> page == head + ("  ✓ expected substring found: "@ + quote + "\n"@)
                + "\n"@)
            &&& step.expect matches Some(e) ==> (!reading::holds(captured@, e@) ==> page == head + ("  ✗ expected substring NOT found: "@ + quote + "\n"@)
                + "\n"@)
        }),
{
    let head = "\n  ✓ step "@ + text::decimal(number) + " succeeded (exit 0)\n"@;
    assert(head + Seq::<char>::empty() =~= head);
    if let Some(e) = step.expect {
        crate::text_laws::occurrences_have_a_place(captured@, e@);
    }
}

/// A command that failed is told with the number of its step and its exit code, -1
/// if it has none.
pub proof fn failed_commands_are_told(
    step: ScenarioStep,
    number: nat,
    code: i32,
    captured: String,
    quote: Seq<char>,
)
    ensures
        subprocess::outcome_text(
            step,
            number,
            StepOutcome::Exited { success: false, code: Some(code), captured },
            quote,
        ) == "\n  ✗ step "@ + text::decimal(number) + " exited "@ + text::decimal_int(code as int)
            + "\n\n"@,
        subprocess::outcome_text(
            step,
            number,
            StepOutcome::Exited { success: false, code: None, captured },
            quote,
        ) == "\n  ✗ step "@ + text::decimal(number) + " exited "@ + text::decimal_int(-1)
            + "\n\n"@,
{
}

/// A command that could not be started is told with the number of its step and why.
pub proof fn commands_that_did_not_start_are_told(
    step: ScenarioStep,
    number: nat,
    message: String,
    quote: Seq<char>,
)
    ensures
        reading::reads(
            subprocess::outcome_text(step, number, StepOutcome::SpawnFailed { message }, quote),
            "\n  ✗ step "@,
            text::decimal(number),
            " failed to spawn: "@,
        ),
        reading::reads(
            subprocess::outcome_text(step, number, StepOutcome::SpawnFailed { message }, quote),
            " failed to spawn: "@,
            message@,
            "\n"@,
        ),
{
    let page = subprocess::outcome_text(step, number, StepOutcome::SpawnFailed { message }, quote);
    let front = "\n  ✗ step "@ + text::decimal(number);
    let hint = page.skip((front + " failed to spawn: "@ + message@ + "\n"@).len() as int);
    assert(page =~= Seq::<char>::empty() + ("\n  ✗ step "@ + text::decimal(number)
        + " failed to spawn: "@) + (message@ + "\n"@ + hint));
    assert(page =~= front + (" failed to spawn: "@ + message@ + "\n"@) + hint);
}

/// What is the same on every page: the footer, what has to be set up, and what the demos
/// say before and after their tables.
pub proof fn fixed_texts_are_made_of_their_lines()
    ensures
        reading::made_of(
            render::footer_text(),
            seq![
                "\nNEXT:\n"@,
                "  • Adopt this engine  : https://github.com/psyto/openhl-solana\n"@,
                "  • Custom build       : https://fabrknt.com/waitlist.html?product=solana-perp&intent=build\n"@,
                "  • Hosted access      : https://fabrknt.com/waitlist.html?product=solana-perp&intent=hosted\n"@,
            ],
        ),
        reading::made_of(
            render::prerequisites(),
            seq![
                "\nPREREQUISITES:\n"@,
                "  # local validator running:\n"@,
                "  solana-test-validator --reset\n"@,
                "  # build + deploy the on-chain program:\n"@,
                "  cargo build-sbf -p openhl-core\n"@,
                "  solana program deploy target/deploy/openhl_core.so\n"@,
            ],
        ),
        reading::made_of(
            account_layout_demo::demo_intro(),
            seq![
                "\n=== openhl-solana — account-layout demo ===\n\n"@,
                "    Solana accounts are fixed-size and byte-precise. This demo\n"@,
                "    inspects every on-chain type the engine defines, surfacing the\n"@,
                "    discriminator tag, byte size, and version. Pure Rust against\n"@,
                "    `openhl-state` constants — no validator, no program deploy.\n\n"@,
            ],
        ),
        reading::made_of(
            account_layout_demo::demo_takeaway(),
            seq![
                "    Takeaway: Solana account sizes are predictable up-front — every\n"@,
                "    field offset is known at compile time. The Slab packs more orders\n"@,
                "    per byte but pays a per-fill log(N) cost; the flat OrderBook is\n"@,
                "    O(N) per fill but the byte layout is trivial to inspect.\n\n"@,
            ],
        ),
        reading::made_of(
            instruction_dispatch_demo::demo_intro(),
            seq![
                "\n=== openhl-solana — instruction dispatch demo ===\n\n"@,
                "    Every openhl-core instruction is dispatched by a 1-byte tag\n"@,
                "    at byte 0 of the instruction data. This demo prints the full\n"@,
                "    table so a buyer evaluating the engine sees the API surface\n"@,
                "    at a glance. Pure Rust — no validator, no deployed program.\n\n"@,
            ],
        ),
        reading::made_of(
            instruction_dispatch_demo::demo_takeaway(),
            seq![
                "\n    Takeaway: openhl-core packs a complete perp DEX into a single\n"@,
                "    34-instruction program. Half are bring-up; the rest are the\n"@,
                "    operational surface a perp trader actually touches.\n\n"@,
            ],
        ),
        reading::made_of(
            subprocess::informational_text(),
            seq![
                "  (informational step — no command executed)\n\n"@,
            ],
        ),
{
    reveal_with_fuel(reading::joined, 7);
    assert(seq![] + "\nNEXT:\n"@ =~= "\nNEXT:\n"@);
    assert(seq![] + "\nPREREQUISITES:\n"@ =~= "\nPREREQUISITES:\n"@);
    assert(seq![] + "\n=== openhl-solana — account-layout demo ===\n\n"@ =~= "\n=== openhl-solana — account-layout demo ===\n\n"@);
    assert(seq![] + "    Takeaway: Solana account sizes are predictable up-front — every\n"@ =~= "    Takeaway: Solana account sizes are predictable up-front — every\n"@);
    assert(seq![] + "\n=== openhl-solana — instruction dispatch demo ===\n\n"@ =~= "\n=== openhl-solana — instruction dispatch demo ===\n\n"@);
    assert(seq![] + "\n    Takeaway: openhl-core packs a complete perp DEX into a single\n"@ =~= "\n    Takeaway: openhl-core packs a complete perp DEX into a single\n"@);
    assert(seq![] + "  (informational step — no command executed)\n\n"@ =~= "  (informational step — no command executed)\n\n"@);
}

} // verus!
