//! The instruction set: tag, name and purpose of every instruction.

use vstd::prelude::*;
use vstd::string::StringExecFns;

use crate::program::dispatch;
use crate::text;

verus! {

/// One instruction.
#[derive(Debug, Clone)]
pub struct InstructionEntry {
    pub tag: u8,
    pub name: &'static str,
    pub description: &'static str,
    /// What the instruction is about.
    pub category: &'static str,
}

/// The mathematical value of an `InstructionEntry`.
pub struct InstructionEntryView {
    pub tag: u8,
    pub name: Seq<char>,
    pub category: Seq<char>,
    pub description: Seq<char>,
}

impl View for InstructionEntry {
    type V = InstructionEntryView;

    open spec fn view(&self) -> InstructionEntryView {
        InstructionEntryView {
            tag: self.tag,
            name: self.name@,
            category: self.category@,
            description: self.description@,
        }
    }
}

/// The whole instruction set.
#[derive(Debug, Clone)]
pub struct InstructionDispatchDemoResult {
    pub entries: Vec<InstructionEntry>,
}

impl View for InstructionDispatchDemoResult {
    type V = Seq<InstructionEntryView>;

    open spec fn view(&self) -> Seq<InstructionEntryView> {
        Seq::new(self.entries@.len(), |i: int| self.entries@[i]@)
    }
}

/// The tags of all instructions.
pub open spec fn tags(entries: Seq<InstructionEntryView>) -> Seq<u8> {
    Seq::new(entries.len(), |i: int| entries[i].tag)
}

/// How many instructions are of one category.
pub open spec fn category_count(entries: Seq<InstructionEntryView>, category: Seq<char>) -> nat
    decreases entries.len(),
{
    if entries.len() == 0 {
        0
    } else {
        category_count(entries.drop_last(), category) + if entries.last().category == category {
            1nat
        } else {
            0nat
        }
    }
}

/// The first instruction with the tag `tag`.
pub open spec fn first_with_tag(entries: Seq<InstructionEntryView>, tag: u8) -> Option<
    InstructionEntryView,
>
    decreases entries.len(),
{
    if entries.len() == 0 {
        None
    } else {
        match first_with_tag(entries.drop_last(), tag) {
            Some(e) => Some(e),
            None => if entries.last().tag == tag {
                Some(entries.last())
            } else {
                None
            },
        }
    }
}

/// The highest tag; 0 if there is no instruction.
pub open spec fn highest_tag(entries: Seq<InstructionEntryView>) -> u8
    decreases entries.len(),
{
    if entries.len() == 0 {
        0
    } else {
        let before = highest_tag(entries.drop_last());
        if entries.last().tag > before {
            entries.last().tag
        } else {
            before
        }
    }
}

/// A lookup finds an instruction exactly if its tag occurs, and then one that
/// has that tag.
pub proof fn lookup_is_sound(entries: Seq<InstructionEntryView>, tag: u8)
    ensures
        first_with_tag(entries, tag) is Some <==> tags(entries).contains(tag),
        first_with_tag(entries, tag) matches Some(e) ==> e.tag == tag && entries.contains(e),
    decreases entries.len(),
{
    if entries.len() > 0 {
        let init = entries.drop_last();
        lookup_is_sound(init, tag);
        if first_with_tag(entries, tag) is Some {
            match first_with_tag(init, tag) {
                Some(e) => {
                    let k = choose|k: int| 0 <= k < init.len() && init[k] == e;
                    assert(entries[k] == e);
                    assert(tags(entries)[k] == tag);
                },
                None => {
                    assert(tags(entries)[entries.len() - 1] == tag);
                    assert(entries[entries.len() - 1] == entries.last());
                },
            }
        }
        if tags(entries).contains(tag) {
            let k = choose|k: int| 0 <= k < entries.len() && tags(entries)[k] == tag;
            if k < init.len() {
                assert(tags(init)[k] == tag);
            }
        }
    }
}

/// No instruction has a tag above the highest.
pub proof fn highest_tag_is_highest(entries: Seq<InstructionEntryView>)
    ensures
        forall|i: int|
            0 <= i < entries.len() ==> (#[trigger] entries[i]).tag <= highest_tag(entries),
        entries.len() > 0 ==> tags(entries).contains(highest_tag(entries)),
    decreases entries.len(),
{
    if entries.len() > 0 {
        let init = entries.drop_last();
        highest_tag_is_highest(init);
        assert forall|i: int| 0 <= i < entries.len() implies (#[trigger] entries[i]).tag
            <= highest_tag(entries) by {
            if i < init.len() {
                assert(init[i] == entries[i]);
            }
        }
        if highest_tag(entries) == entries.last().tag {
            assert(tags(entries)[entries.len() - 1] == highest_tag(entries));
        } else {
            let k = choose|k: int| 0 <= k < init.len() && tags(init)[k] == highest_tag(init);
            assert(tags(entries)[k] == highest_tag(entries));
        }
    }
}

impl InstructionDispatchDemoResult {
    /// How many instructions there are.
    #[must_use]
    pub fn total_instructions(&self) -> (r: usize)
        ensures
            r == self@.len(),
    {
        self.entries.len()
    }

    /// How many different tags there are.
    #[must_use]
    pub fn distinct_tags(&self) -> (r: usize)
        ensures
            r == tags(self@).to_set().len(),
    {
        let ghost all = tags(self@);
        let mut count: usize = 0;
        let mut i: usize = 0;
        assert(all.take(0).to_set() =~= Set::empty());
        while i < self.entries.len()
            invariant
                i <= self.entries@.len(),
                count <= i,
                all == tags(self@),
                all.take(i as int).to_set().finite(),
                count == all.take(i as int).to_set().len(),
            decreases self.entries@.len() - i,
        {
            let mut seen: bool = false;
            let mut j: usize = 0;
            while j < i
                invariant
                    j <= i < self.entries@.len(),
                    all == tags(self@),
                    seen == exists|k: int| 0 <= k < j && #[trigger] all[k] == all[i as int],
                decreases i - j,
            {
                if self.entries[j].tag == self.entries[i].tag {
                    assert(all[j as int] == all[i as int]);
                    seen = true;
                }
                j += 1;
            }
            proof {
                let before = all.take(i as int);
                let after = all.take(i + 1);
                let tag = all[i as int];
                assert(after.to_set() =~= before.to_set().insert(tag)) by {
                    assert forall|x: u8| after.to_set().contains(x) implies before.to_set().insert(
                        tag,
                    ).contains(x) by {
                        let k = choose|k: int| 0 <= k < after.len() && after[k] == x;
                        if k < i {
                            assert(before[k] == x);
                        }
                    }
                    assert forall|x: u8|
                        before.to_set().insert(tag).contains(x) implies after.to_set().contains(x) by {
                        if x == tag {
                            assert(after[i as int] == x);
                        } else {
                            let k = choose|k: int| 0 <= k < before.len() && before[k] == x;
                            assert(after[k] == x);
                        }
                    }
                }
                if seen {
                    let k = choose|k: int| 0 <= k < i && #[trigger] all[k] == tag;
                    assert(before[k] == tag);
                    assert(before.to_set().contains(tag));
                } else {
                    assert(!before.to_set().contains(tag));
                }
            }
            if !seen {
                count += 1;
            }
            i += 1;
        }
        assert(all.take(i as int) =~= all);
        count
    }

    /// How many instructions are of one category.
    #[must_use]
    pub fn count_in_category(&self, category: &str) -> (r: usize)
        ensures
            r == category_count(self@, category@),
    {
        let mut count: usize = 0;
        let mut i: usize = 0;
        while i < self.entries.len()
            invariant
                count <= i <= self.entries@.len(),
                count == category_count(self@.take(i as int), category@),
            decreases self.entries@.len() - i,
        {
            assert(self@.take(i + 1).drop_last() =~= self@.take(i as int));
            if text::same_text(self.entries[i].category, category) {
                count += 1;
            }
            i += 1;
        }
        assert(self@.take(i as int) =~= self@);
        count
    }

    /// The instruction with the tag `tag`.
    #[must_use]
    pub fn find_tag(&self, tag: u8) -> (r: Option<&InstructionEntry>)
        ensures
            match r {
                Some(e) => first_with_tag(self@, tag) == Some(e@),
                None => first_with_tag(self@, tag) is None,
            },
    {
        let mut i: usize = 0;
        while i < self.entries.len()
            invariant
                i <= self.entries@.len(),
                first_with_tag(self@.take(i as int), tag) is None,
            decreases self.entries@.len() - i,
        {
            assert(self@.take(i + 1).drop_last() =~= self@.take(i as int));
            if self.entries[i].tag == tag {
                proof {
                    lemma_first_with_tag_extends(self@, tag, (i + 1) as nat);
                }
                return Some(&self.entries[i]);
            }
            i += 1;
        }
        assert(self@.take(i as int) =~= self@);
        None
    }

    /// The highest tag; 0 if there is no instruction.
    #[must_use]
    pub fn max_tag(&self) -> (r: u8)
        ensures
            r == highest_tag(self@),
    {
        let mut max: u8 = 0;
        let mut i: usize = 0;
        while i < self.entries.len()
            invariant
                i <= self.entries@.len(),
                max == highest_tag(self@.take(i as int)),
            decreases self.entries@.len() - i,
        {
            assert(self@.take(i + 1).drop_last() =~= self@.take(i as int));
            if self.entries[i].tag > max {
                max = self.entries[i].tag;
            }
            i += 1;
        }
        assert(self@.take(i as int) =~= self@);
        max
    }
}

proof fn lemma_first_with_tag_extends(entries: Seq<InstructionEntryView>, tag: u8, n: nat)
    requires
        n <= entries.len(),
        first_with_tag(entries.take(n as int), tag) is Some,
    ensures
        first_with_tag(entries, tag) == first_with_tag(entries.take(n as int), tag),
    decreases entries.len(),
{
    if n < entries.len() {
        assert(entries.drop_last().take(n as int) =~= entries.take(n as int));
        lemma_first_with_tag_extends(entries.drop_last(), tag, n);
    } else {
        assert(entries.take(n as int) =~= entries);
    }
}

/// One row of the instruction set.
fn entry(
    tag: u8,
    name: &'static str,
    category: &'static str,
    description: &'static str,
) -> (r: InstructionEntry)
    ensures
        r@ == (InstructionEntryView {
            tag,
            name: name@,
            category: category@,
            description: description@,
        }),
{
    InstructionEntry { tag, name, description, category }
}

/// The instruction set of the engine.
pub open spec fn dispatch_table() -> Seq<InstructionEntryView> {
    seq![
        InstructionEntryView {
            tag: 0,
            name: "Initialize"@,
            category: "bring-up"@,
            description: "Boot a Market account from raw allocation"@,
        },
        InstructionEntryView {
            tag: 1,
            name: "CreateMarket"@,
            category: "bring-up"@,
            description: "Derive and create the per-market PDA"@,
        },
        InstructionEntryView {
            tag: 2,
            name: "Bench"@,
            category: "benchmark"@,
            description: "CU-instrumentation harness for measurement"@,
        },
        InstructionEntryView {
            tag: 3,
            name: "CreateStats"@,
            category: "bring-up"@,
            description: "Allocate the Stats singleton (parallelism counter-example)"@,
        },
        InstructionEntryView {
            tag: 4,
            name: "BumpStats"@,
            category: "benchmark"@,
            description: "Increment the Stats counter — surfaces account-lock cost"@,
        },
        InstructionEntryView {
            tag: 5,
            name: "CreateVault"@,
            category: "bring-up"@,
            description: "Allocate the per-(market, mint) vault PDA"@,
        },
        InstructionEntryView {
            tag: 6,
            name: "Deposit"@,
            category: "collateral"@,
            description: "CPI to SPL Token to deposit collateral"@,
        },
        InstructionEntryView {
            tag: 7,
            name: "CreateOrderBook"@,
            category: "bring-up"@,
            description: "Allocate the flat-array OrderBook"@,
        },
        InstructionEntryView {
            tag: 8,
            name: "PlaceOrder"@,
            category: "order"@,
            description: "Place a limit order into the flat OrderBook"@,
        },
        InstructionEntryView {
            tag: 9,
            name: "CancelOrder"@,
            category: "order"@,
            description: "Cancel a resting limit order"@,
        },
        InstructionEntryView {
            tag: 10,
            name: "Match"@,
            category: "order"@,
            description: "Cross resting orders with a market order (paginated)"@,
        },
        InstructionEntryView {
            tag: 11,
            name: "CreateOracle"@,
            category: "bring-up"@,
            description: "Allocate the mock-oracle account"@,
        },
        InstructionEntryView {
            tag: 12,
            name: "SetOraclePrice"@,
            category: "oracle"@,
            description: "Mock-oracle publisher: set the next price"@,
        },
        InstructionEntryView {
            tag: 13,
            name: "PlaceOrderChecked"@,
            category: "order"@,
            description: "Place an order with oracle staleness guard"@,
        },
        InstructionEntryView {
            tag: 14,
            name: "CreateFundingState"@,
            category: "bring-up"@,
            description: "Allocate the FundingState account"@,
        },
        InstructionEntryView {
            tag: 15,
            name: "UpdateFunding"@,
            category: "funding"@,
            description: "Drive the funding rate accumulator one period"@,
        },
        InstructionEntryView {
            tag: 16,
            name: "OpenPosition"@,
            category: "position"@,
            description: "Open a perp position from a fill"@,
        },
        InstructionEntryView {
            tag: 17,
            name: "ClosePosition"@,
            category: "position"@,
            description: "Close a perp position; realize P&L"@,
        },
        InstructionEntryView {
            tag: 18,
            name: "Liquidate"@,
            category: "position"@,
            description: "Liquidate an underwater position; debit insurance fund"@,
        },
        InstructionEntryView {
            tag: 19,
            name: "CreateTradingVault"@,
            category: "bring-up"@,
            description: "Allocate the trading-vault account"@,
        },
        InstructionEntryView {
            tag: 20,
            name: "VaultDeposit"@,
            category: "vault"@,
            description: "Deposit into a trading vault; mint vault shares"@,
        },
        InstructionEntryView {
            tag: 21,
            name: "VaultWithdraw"@,
            category: "vault"@,
            description: "Burn vault shares; withdraw collateral"@,
        },
        InstructionEntryView {
            tag: 22,
            name: "VaultUpdateNav"@,
            category: "vault"@,
            description: "Update vault NAV per share"@,
        },
        InstructionEntryView {
            tag: 23,
            name: "RegisterBuilder"@,
            category: "bring-up"@,
            description: "Register a builder code + fee profile"@,
        },
        InstructionEntryView {
            tag: 24,
            name: "PlaceOrderWithBuilder"@,
            category: "order"@,
            description: "Place an order tagged with a builder code"@,
        },
        InstructionEntryView {
            tag: 25,
            name: "ClaimBuilderFees"@,
            category: "builder"@,
            description: "Builder claims accrued fee revenue"@,
        },
        InstructionEntryView {
            tag: 26,
            name: "CreateFeeVault"@,
            category: "bring-up"@,
            description: "Allocate the fee-vault PDA"@,
        },
        InstructionEntryView {
            tag: 27,
            name: "CreateInsuranceFund"@,
            category: "bring-up"@,
            description: "Allocate the insurance fund account"@,
        },
        InstructionEntryView {
            tag: 28,
            name: "InsuranceFundDeposit"@,
            category: "insurance"@,
            description: "Top up the insurance fund"@,
        },
        InstructionEntryView {
            tag: 29,
            name: "CreateSlab"@,
            category: "bring-up"@,
            description: "Allocate the critbit Slab orderbook"@,
        },
        InstructionEntryView {
            tag: 30,
            name: "SlabPlaceOrder"@,
            category: "order"@,
            description: "Place a limit order into the Slab"@,
        },
        InstructionEntryView {
            tag: 31,
            name: "SlabMatch"@,
            category: "order"@,
            description: "Cross Slab resting orders with a market order"@,
        },
        InstructionEntryView {
            tag: 32,
            name: "PlaceOrderCheckedPyth"@,
            category: "order"@,
            description: "Place an order checked against legacy Pyth oracle"@,
        },
        InstructionEntryView {
            tag: 33,
            name: "PlaceOrderCheckedPythV2"@,
            category: "order"@,
            description: "Place an order checked against Pyth V2 PriceUpdate"@,
        },
    ]
}

/// Lists the instruction set.
#[must_use]
pub fn run_instruction_dispatch_demo_structured() -> (r: InstructionDispatchDemoResult)
    ensures
        r@ == dispatch_table(),
{
    let entries: Vec<InstructionEntry> = vec![
        entry(
            0,
            "Initialize",
            "bring-up",
            "Boot a Market account from raw allocation",
        ),
        entry(
            1,
            "CreateMarket",
            "bring-up",
            "Derive and create the per-market PDA",
        ),
        entry(
            2,
            "Bench",
            "benchmark",
            "CU-instrumentation harness for measurement",
        ),
        entry(
            3,
            "CreateStats",
            "bring-up",
            "Allocate the Stats singleton (parallelism counter-example)",
        ),
        entry(
            4,
            "BumpStats",
            "benchmark",
            "Increment the Stats counter — surfaces account-lock cost",
        ),
        entry(
            5,
            "CreateVault",
            "bring-up",
            "Allocate the per-(market, mint) vault PDA",
        ),
        entry(
            6,
            "Deposit",
            "collateral",
            "CPI to SPL Token to deposit collateral",
        ),
        entry(
            7,
            "CreateOrderBook",
            "bring-up",
            "Allocate the flat-array OrderBook",
        ),
        entry(
            8,
            "PlaceOrder",
            "order",
            "Place a limit order into the flat OrderBook",
        ),
        entry(
            9,
            "CancelOrder",
            "order",
            "Cancel a resting limit order",
        ),
        entry(
            10,
            "Match",
            "order",
            "Cross resting orders with a market order (paginated)",
        ),
        entry(
            11,
            "CreateOracle",
            "bring-up",
            "Allocate the mock-oracle account",
        ),
        entry(
            12,
            "SetOraclePrice",
            "oracle",
            "Mock-oracle publisher: set the next price",
        ),
        entry(
            13,
            "PlaceOrderChecked",
            "order",
            "Place an order with oracle staleness guard",
        ),
        entry(
            14,
            "CreateFundingState",
            "bring-up",
            "Allocate the FundingState account",
        ),
        entry(
            15,
            "UpdateFunding",
            "funding",
            "Drive the funding rate accumulator one period",
        ),
        entry(
            16,
            "OpenPosition",
            "position",
            "Open a perp position from a fill",
        ),
        entry(
            17,
            "ClosePosition",
            "position",
            "Close a perp position; realize P&L",
        ),
        entry(
            18,
            "Liquidate",
            "position",
            "Liquidate an underwater position; debit insurance fund",
        ),
        entry(
            19,
            "CreateTradingVault",
            "bring-up",
            "Allocate the trading-vault account",
        ),
        entry(
            20,
            "VaultDeposit",
            "vault",
            "Deposit into a trading vault; mint vault shares",
        ),
        entry(
            21,
            "VaultWithdraw",
            "vault",
            "Burn vault shares; withdraw collateral",
        ),
        entry(
            22,
            "VaultUpdateNav",
            "vault",
            "Update vault NAV per share",
        ),
        entry(
            23,
            "RegisterBuilder",
            "bring-up",
            "Register a builder code + fee profile",
        ),
        entry(
            24,
            "PlaceOrderWithBuilder",
            "order",
            "Place an order tagged with a builder code",
        ),
        entry(
            25,
            "ClaimBuilderFees",
            "builder",
            "Builder claims accrued fee revenue",
        ),
        entry(
            26,
            "CreateFeeVault",
            "bring-up",
            "Allocate the fee-vault PDA",
        ),
        entry(
            27,
            "CreateInsuranceFund",
            "bring-up",
            "Allocate the insurance fund account",
        ),
        entry(
            28,
            "InsuranceFundDeposit",
            "insurance",
            "Top up the insurance fund",
        ),
        entry(
            29,
            "CreateSlab",
            "bring-up",
            "Allocate the critbit Slab orderbook",
        ),
        entry(
            30,
            "SlabPlaceOrder",
            "order",
            "Place a limit order into the Slab",
        ),
        entry(
            31,
            "SlabMatch",
            "order",
            "Cross Slab resting orders with a market order",
        ),
        entry(
            32,
            "PlaceOrderCheckedPyth",
            "order",
            "Place an order checked against legacy Pyth oracle",
        ),
        entry(
            33,
            "PlaceOrderCheckedPythV2",
            "order",
            "Place an order checked against Pyth V2 PriceUpdate",
        ),
    ];
    let r: InstructionDispatchDemoResult = InstructionDispatchDemoResult { entries };
    assert(r@ =~= dispatch_table());
    r
}

/// The tags of the engine are 0, 1, 2 and so on without a gap: the tag of an
/// instruction is its position in the table, and none occurs twice.
pub proof fn tags_are_contiguous()
    ensures
        dispatch_table().len() == 34,
        forall|i: int| 0 <= i < 34 ==> (#[trigger] dispatch_table()[i]).tag == i,
        tags(dispatch_table()).no_duplicates(),
        tags(dispatch_table()).to_set().len() == 34,
        highest_tag(dispatch_table()) == 33,
        forall|t: u8| #[trigger] first_with_tag(dispatch_table(), t) is Some <==> t <= 33,
{
    let table = dispatch_table();
    assert(table.len() == 34);
    assert forall|i: int| 0 <= i < 34 implies (#[trigger] table[i]).tag == i by {}
    assert forall|i: int, j: int| 0 <= i < j < 34 implies tags(table)[i] != tags(table)[j] by {
        assert(table[i].tag == i);
        assert(table[j].tag == j);
    }
    tags(table).unique_seq_to_set();
    highest_tag_is_highest(table);
    assert(table[33].tag <= highest_tag(table));
    let k = choose|k: int| 0 <= k < 34 && tags(table)[k] == highest_tag(table);
    assert(table[k].tag == k);
    assert forall|t: u8| #[trigger] first_with_tag(table, t) is Some <==> t <= 33 by {
        lookup_is_sound(table, t);
        if t <= 33 {
            assert(table[t as int].tag == t);
            assert(tags(table)[t as int] == t);
        } else if tags(table).contains(t) {
            let m = choose|m: int| 0 <= m < 34 && tags(table)[m] == t;
            assert(table[m].tag == m);
        }
    }
}

/// One row of the table of instructions.
pub open spec fn row_text(indent: Seq<char>, e: InstructionEntryView) -> Seq<char> {
    indent + text::pad_left(text::decimal(e.tag as nat), 3) + "   "@ + text::pad_right(e.name, 28)
        + "  "@ + text::pad_right(e.category, 11) + "  "@ + e.description + "\n"@
}

/// The first `n` rows.
pub open spec fn rows_text(
    indent: Seq<char>,
    entries: Seq<InstructionEntryView>,
    n: nat,
) -> Seq<char>
    decreases n,
{
    if n == 0 {
        seq![]
    } else {
        rows_text(indent, entries, (n - 1) as nat) + row_text(indent, entries[n - 1])
    }
}

/// Names of the columns.
pub open spec fn column_names(indent: Seq<char>) -> Seq<char> {
    indent + "Tag   Name                          Category     Description\n"@
}

fn row_line(indent: &str, e: &InstructionEntry) -> (r: String)
    ensures
        r@ == row_text(indent@, e@),
{
    let mut r: String = indent.to_owned();
    r.append(text::padded_left(text::decimal_text(e.tag as u128).as_str(), 3).as_str());
    r.append("   ");
    r.append(text::padded_right(e.name, 28).as_str());
    r.append("  ");
    r.append(text::padded_right(e.category, 11).as_str());
    r.append("  ");
    r.append(e.description);
    r.append("\n");
    r
}

/// The rows of the table of instructions, each behind `indent`.
pub fn rows(indent: &str, d: &InstructionDispatchDemoResult) -> (r: String)
    ensures
        r@ == rows_text(indent@, d@, d@.len()),
{
    let mut r: String = String::new();
    let mut i: usize = 0;
    while i < d.entries.len()
        invariant
            i <= d.entries@.len(),
            r@ == rows_text(indent@, d@, i as nat),
        decreases d.entries@.len() - i,
    {
        r.append(row_line(indent, &d.entries[i]).as_str());
        i += 1;
    }
    r
}

/// The line on one category; none if it has no instruction.
pub open spec fn category_line(entries: Seq<InstructionEntryView>, category: Seq<char>) -> Seq<char> {
    if category_count(entries, category) > 0 {
        "      "@ + text::pad_right(category, 11) + "  "@ + text::decimal(
            category_count(entries, category),
        ) + "\n"@
    } else {
        seq![]
    }
}

/// The lines on all categories.
pub open spec fn category_lines(entries: Seq<InstructionEntryView>) -> Seq<char> {
    category_line(entries, "bring-up"@) + category_line(entries, "order"@) + category_line(entries, "position"@) + category_line(entries, "vault"@) + category_line(entries, "oracle"@) + category_line(entries, "funding"@) + category_line(entries, "collateral"@) + category_line(entries, "builder"@) + category_line(entries, "insurance"@) + category_line(entries, "benchmark"@)
}

/// What the demo prints before the table.
pub open spec fn demo_intro() -> Seq<char> {
    "\n=== openhl-solana — instruction dispatch demo ===\n\n"@
        + "    Every openhl-core instruction is dispatched by a 1-byte tag\n"@
        + "    at byte 0 of the instruction data. This demo prints the full\n"@
        + "    table so a buyer evaluating the engine sees the API surface\n"@
        + "    at a glance. Pure Rust — no validator, no deployed program.\n\n"@
}

/// The numbers below the table.
pub open spec fn demo_totals(entries: Seq<InstructionEntryView>) -> Seq<char> {
    "    Total instructions: "@ + text::decimal(entries.len()) + "\n    Distinct tags     : "@
        + text::decimal(tags(entries).to_set().len()) + "\n    Max tag           : "@
        + text::decimal(highest_tag(entries) as nat) + "\n\n    Category breakdown:\n"@
}

/// What the demo prints at its end.
pub open spec fn demo_takeaway() -> Seq<char> {
    "\n    Takeaway: openhl-core packs a complete perp DEX into a single\n"@
        + "    34-instruction program. Half are bring-up; the rest are the\n"@
        + "    operational surface a perp trader actually touches.\n\n"@
}

/// All that the demo prints.
pub open spec fn demo_text(entries: Seq<InstructionEntryView>) -> Seq<char> {
    demo_intro() + column_names("    "@) + "    ----  ----------------------------  -----------  ------------------------------------------------------------\n"@
        + rows_text("    "@, entries, entries.len()) + "\n"@ + demo_totals(entries)
        + category_lines(entries) + demo_takeaway()
}

fn category_text(d: &InstructionDispatchDemoResult, category: &str) -> (r: String)
    ensures
        r@ == category_line(d@, category@),
{
    let n: usize = d.count_in_category(category);
    if n > 0 {
        let mut r: String = "      ".to_owned();
        r.append(text::padded_right(category, 11).as_str());
        r.append("  ");
        r.append(text::decimal_text(n as u128).as_str());
        r.append("\n");
        r
    } else {
        String::new()
    }
}

fn category_texts(d: &InstructionDispatchDemoResult) -> (r: String)
    ensures
        r@ == category_lines(d@),
{
    let mut r: String = self::category_text(d, "bring-up");
    r.append(self::category_text(d, "order").as_str());
    r.append(self::category_text(d, "position").as_str());
    r.append(self::category_text(d, "vault").as_str());
    r.append(self::category_text(d, "oracle").as_str());
    r.append(self::category_text(d, "funding").as_str());
    r.append(self::category_text(d, "collateral").as_str());
    r.append(self::category_text(d, "builder").as_str());
    r.append(self::category_text(d, "insurance").as_str());
    r.append(self::category_text(d, "benchmark").as_str());
    r
}

/// The instruction set as text.
pub fn demo_report(d: &InstructionDispatchDemoResult) -> (r: String)
    ensures
        r@ == demo_text(d@),
{
    let mut r: String = "\n=== openhl-solana — instruction dispatch demo ===\n\n".to_owned();
    r.append("    Every openhl-core instruction is dispatched by a 1-byte tag\n");
    r.append("    at byte 0 of the instruction data. This demo prints the full\n");
    r.append("    table so a buyer evaluating the engine sees the API surface\n");
    r.append("    at a glance. Pure Rust — no validator, no deployed program.\n\n");
    let mut names: String = "    ".to_owned();
    names.append("Tag   Name                          Category     Description\n");
    r.append(names.as_str());
    r.append(
        "    ----  ----------------------------  -----------  ------------------------------------------------------------\n",
    );
    r.append(rows("    ", d).as_str());
    r.append("\n");
    let mut totals: String = "    Total instructions: ".to_owned();
    totals.append(text::decimal_text(d.total_instructions() as u128).as_str());
    totals.append("\n    Distinct tags     : ");
    totals.append(text::decimal_text(d.distinct_tags() as u128).as_str());
    totals.append("\n    Max tag           : ");
    totals.append(text::decimal_text(d.max_tag() as u128).as_str());
    totals.append("\n\n    Category breakdown:\n");
    r.append(totals.as_str());
    r.append(category_texts(d).as_str());
    let mut takeaway: String =
        "\n    Takeaway: openhl-core packs a complete perp DEX into a single\n".to_owned();
    takeaway.append("    34-instruction program. Half are bring-up; the rest are the\n");
    takeaway.append("    operational surface a perp trader actually touches.\n\n");
    r.append(takeaway.as_str());
    r
}

/// What the `instruction-dispatch-demo` command prints.
pub fn run_instruction_dispatch_demo_cli() -> (r: String)
    ensures
        r@ == demo_text(dispatch_table()),
{
    let d: InstructionDispatchDemoResult = run_instruction_dispatch_demo_structured();
    demo_report(&d)
}

/// Every instruction that the program carries out is listed under its tag.
pub proof fn program_tags_are_listed()
    ensures
        first_with_tag(dispatch_table(), dispatch::TAG_INITIALIZE) == Some(dispatch_table()[0]),
        first_with_tag(dispatch_table(), dispatch::TAG_CREATE_MARKET) == Some(dispatch_table()[1]),
        first_with_tag(dispatch_table(), dispatch::TAG_BENCH) == Some(dispatch_table()[2]),
        first_with_tag(dispatch_table(), dispatch::TAG_CREATE_STATS) == Some(dispatch_table()[3]),
        first_with_tag(dispatch_table(), dispatch::TAG_BUMP_STATS) == Some(dispatch_table()[4]),
        first_with_tag(dispatch_table(), dispatch::TAG_CREATE_VAULT) == Some(dispatch_table()[5]),
        first_with_tag(dispatch_table(), dispatch::TAG_DEPOSIT) == Some(dispatch_table()[6]),
        dispatch_table()[0].name == "Initialize"@,
        dispatch_table()[1].name == "CreateMarket"@,
        dispatch_table()[2].name == "Bench"@,
        dispatch_table()[3].name == "CreateStats"@,
        dispatch_table()[4].name == "BumpStats"@,
        dispatch_table()[5].name == "CreateVault"@,
        dispatch_table()[6].name == "Deposit"@,
{
    tags_are_contiguous();
    assert forall|t: u8| t <= 6 implies #[trigger] first_with_tag(dispatch_table(), t) == Some(
        dispatch_table()[t as int],
    ) by {
        lookup_is_sound(dispatch_table(), t);
        let e = first_with_tag(dispatch_table(), t)->Some_0;
        let k = choose|k: int| 0 <= k < 34 && dispatch_table()[k] == e;
        assert(dispatch_table()[k].tag == k);
    }
}

} // verus!
