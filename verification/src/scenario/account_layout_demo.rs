//! A tour of the account layouts: tag, size and version of every type, and
//! what the flat order book and the slab cost per order.

use vstd::prelude::*;
use vstd::string::StringExecFns;

use crate::bytes;
use crate::state;
use crate::text;

verus! {

/// One account type.
#[derive(Debug, Clone)]
pub struct AccountLayoutEntry {
    pub type_label: &'static str,
    /// First eight bytes of the account data.
    pub discriminator: [u8; 8],
    /// The discriminator as text, without the zero bytes at its end.
    pub discriminator_text: String,
    pub size_bytes: usize,
    /// Schema version, if the type has one.
    pub version: Option<u8>,
}

/// The mathematical value of an `AccountLayoutEntry`.
pub struct EntryView {
    pub type_label: Seq<char>,
    pub discriminator: Seq<u8>,
    pub discriminator_text: Seq<char>,
    pub size_bytes: nat,
    pub version: Option<u8>,
}

impl View for AccountLayoutEntry {
    type V = EntryView;

    open spec fn view(&self) -> EntryView {
        EntryView {
            type_label: self.type_label@,
            discriminator: self.discriminator@,
            discriminator_text: self.discriminator_text@,
            size_bytes: self.size_bytes as nat,
            version: self.version,
        }
    }
}

/// All account types, and the two order books side by side.
#[derive(Debug, Clone)]
pub struct AccountLayoutDemoResult {
    pub entries: Vec<AccountLayoutEntry>,
    /// Orders that the flat book holds.
    pub orderbook_capacity: usize,
    pub orderbook_size: usize,
    pub orderbook_bytes_per_order: usize,
    /// Orders that fit into the bytes of a slab.
    pub slab_capacity: usize,
    pub slab_size: usize,
    pub slab_bytes_per_order: usize,
}

/// The mathematical value of an `AccountLayoutDemoResult`.
#[verifier::ext_equal]
pub struct LayoutView {
    pub entries: Seq<EntryView>,
    pub orderbook_capacity: nat,
    pub orderbook_size: nat,
    pub orderbook_bytes_per_order: nat,
    pub slab_capacity: nat,
    pub slab_size: nat,
    pub slab_bytes_per_order: nat,
}

/// The mathematical values of a list of entries.
pub open spec fn entries_view(s: Seq<AccountLayoutEntry>) -> Seq<EntryView> {
    Seq::new(s.len(), |i: int| s[i]@)
}

impl View for AccountLayoutDemoResult {
    type V = LayoutView;

    open spec fn view(&self) -> LayoutView {
        LayoutView {
            entries: entries_view(self.entries@),
            orderbook_capacity: self.orderbook_capacity as nat,
            orderbook_size: self.orderbook_size as nat,
            orderbook_bytes_per_order: self.orderbook_bytes_per_order as nat,
            slab_capacity: self.slab_capacity as nat,
            slab_size: self.slab_size as nat,
            slab_bytes_per_order: self.slab_bytes_per_order as nat,
        }
    }
}

/// Sum of the sizes of all entries.
pub open spec fn total_size(entries: Seq<EntryView>) -> nat
    decreases entries.len(),
{
    if entries.len() == 0 {
        0
    } else {
        total_size(entries.drop_last()) + entries.last().size_bytes
    }
}

/// The discriminators of all entries.
pub open spec fn discriminators(entries: Seq<EntryView>) -> Seq<Seq<u8>> {
    Seq::new(entries.len(), |i: int| entries[i].discriminator)
}

/// Position of the largest entry; of several equally large ones, the last.
pub open spec fn largest_index(entries: Seq<EntryView>) -> int
    decreases entries.len(),
{
    if entries.len() <= 1 {
        0
    } else {
        let best = largest_index(entries.drop_last());
        if entries.last().size_bytes >= entries[best].size_bytes {
            entries.len() - 1
        } else {
            best
        }
    }
}

/// Position of the smallest entry; of several equally small ones, the first.
pub open spec fn smallest_index(entries: Seq<EntryView>) -> int
    decreases entries.len(),
{
    if entries.len() <= 1 {
        0
    } else {
        let best = smallest_index(entries.drop_last());
        if entries.last().size_bytes < entries[best].size_bytes {
            entries.len() - 1
        } else {
            best
        }
    }
}

/// No entry is larger than the largest, and none after it is as large.
pub proof fn largest_is_largest(entries: Seq<EntryView>)
    requires
        entries.len() > 0,
    ensures
        0 <= largest_index(entries) < entries.len(),
        forall|i: int|
            0 <= i < entries.len() ==> (#[trigger] entries[i]).size_bytes
                <= entries[largest_index(entries)].size_bytes,
        forall|i: int|
            largest_index(entries) < i < entries.len() ==> (#[trigger] entries[i]).size_bytes
                < entries[largest_index(entries)].size_bytes,
    decreases entries.len(),
{
    if entries.len() > 1 {
        largest_is_largest(entries.drop_last());
        assert forall|i: int| 0 <= i < entries.len() - 1 implies entries.drop_last()[i]
            == entries[i] by {}
    }
}

/// No entry is smaller than the smallest, and none before it is as small.
pub proof fn smallest_is_smallest(entries: Seq<EntryView>)
    requires
        entries.len() > 0,
    ensures
        0 <= smallest_index(entries) < entries.len(),
        forall|i: int|
            0 <= i < entries.len() ==> (#[trigger] entries[i]).size_bytes
                >= entries[smallest_index(entries)].size_bytes,
        forall|i: int|
            0 <= i < smallest_index(entries) ==> (#[trigger] entries[i]).size_bytes
                > entries[smallest_index(entries)].size_bytes,
    decreases entries.len(),
{
    if entries.len() > 1 {
        smallest_is_smallest(entries.drop_last());
        assert forall|i: int| 0 <= i < entries.len() - 1 implies entries.drop_last()[i]
            == entries[i] by {}
    }
}

proof fn lemma_total_size_prefix(entries: Seq<EntryView>, n: nat)
    requires
        n <= entries.len(),
    ensures
        total_size(entries.take(n as int)) <= total_size(entries),
    decreases entries.len(),
{
    if n < entries.len() {
        lemma_total_size_prefix(entries.drop_last(), n);
        assert(entries.drop_last().take(n as int) =~= entries.take(n as int));
    } else {
        assert(entries.take(n as int) =~= entries);
    }
}

impl AccountLayoutDemoResult {
    /// Bytes needed for one account of each type.
    #[must_use]
    pub fn total_bytes(&self) -> (r: usize)
        requires
            total_size(self@.entries) <= usize::MAX,
        ensures
            r == total_size(self@.entries),
    {
        let ghost all = self@.entries;
        let mut sum: usize = 0;
        let mut i: usize = 0;
        while i < self.entries.len()
            invariant
                i <= self.entries@.len(),
                all == entries_view(self.entries@),
                total_size(all) <= usize::MAX,
                sum == total_size(all.take(i as int)),
            decreases self.entries@.len() - i,
        {
            proof {
                lemma_total_size_prefix(all, (i + 1) as nat);
                assert(all.take(i + 1).drop_last() =~= all.take(i as int));
            }
            sum += self.entries[i].size_bytes;
            i += 1;
        }
        assert(all.take(i as int) =~= all);
        sum
    }

    /// How many account types there are: the number of different
    /// discriminators.
    #[must_use]
    pub fn distinct_account_types(&self) -> (r: usize)
        ensures
            r == discriminators(self@.entries).to_set().len(),
    {
        let ghost tags = discriminators(self@.entries);
        let mut count: usize = 0;
        let mut i: usize = 0;
        assert(tags.take(0).to_set() =~= Set::empty());
        while i < self.entries.len()
            invariant
                i <= self.entries@.len(),
                count <= i,
                tags == discriminators(self@.entries),
                tags.take(i as int).to_set().finite(),
                count == tags.take(i as int).to_set().len(),
            decreases self.entries@.len() - i,
        {
            let mut seen: bool = false;
            let mut j: usize = 0;
            while j < i
                invariant
                    j <= i < self.entries@.len(),
                    tags == discriminators(self@.entries),
                    seen == exists|k: int| 0 <= k < j && #[trigger] tags[k] == tags[i as int],
                decreases i - j,
            {
                if bytes::same_bytes(&self.entries[j].discriminator, &self.entries[i].discriminator) {
                    assert(tags[j as int] == tags[i as int]);
                    seen = true;
                }
                j += 1;
            }
            proof {
                let before = tags.take(i as int);
                let after = tags.take(i + 1);
                assert(after =~= before.push(tags[i as int]));
                assert(after.to_set() =~= before.to_set().insert(tags[i as int])) by {
                    assert forall|x: Seq<u8>| after.to_set().contains(x) implies before.to_set().insert(
                        tags[i as int],
                    ).contains(x) by {
                        let k = choose|k: int| 0 <= k < after.len() && after[k] == x;
                        if k < i {
                            assert(before[k] == x);
                        }
                    }
                    assert forall|x: Seq<u8>|
                        before.to_set().insert(tags[i as int]).contains(x) implies after.to_set().contains(
                        x,
                    ) by {
                        if x == tags[i as int] {
                            assert(after[i as int] == x);
                        } else {
                            let k = choose|k: int| 0 <= k < before.len() && before[k] == x;
                            assert(after[k] == x);
                        }
                    }
                }
                if seen {
                    let k = choose|k: int| 0 <= k < i && #[trigger] tags[k] == tags[i as int];
                    assert(before[k] == tags[i as int]);
                    assert(before.to_set().contains(tags[i as int]));
                } else {
                    assert(!before.to_set().contains(tags[i as int]));
                }
            }
            if !seen {
                count += 1;
            }
            i += 1;
        }
        assert(tags.take(i as int) =~= tags);
        count
    }

    /// The largest account type.
    #[must_use]
    pub fn largest(&self) -> (r: Option<&AccountLayoutEntry>)
        ensures
            r is Some <==> self@.entries.len() > 0,
            r matches Some(e) ==> *e == self.entries@[largest_index(self@.entries)],
    {
        if self.entries.len() == 0 {
            return None;
        }
        let ghost all = self@.entries;
        let mut best: usize = 0;
        let mut i: usize = 1;
        while i < self.entries.len()
            invariant
                1 <= i <= self.entries@.len(),
                best < i,
                all == entries_view(self.entries@),
                best == largest_index(all.take(i as int)),
            decreases self.entries@.len() - i,
        {
            assert(all.take(i + 1).drop_last() =~= all.take(i as int));
            if self.entries[i].size_bytes >= self.entries[best].size_bytes {
                best = i;
            }
            i += 1;
        }
        assert(all.take(i as int) =~= all);
        Some(&self.entries[best])
    }

    /// The smallest account type.
    #[must_use]
    pub fn smallest(&self) -> (r: Option<&AccountLayoutEntry>)
        ensures
            r is Some <==> self@.entries.len() > 0,
            r matches Some(e) ==> *e == self.entries@[smallest_index(self@.entries)],
    {
        if self.entries.len() == 0 {
            return None;
        }
        let ghost all = self@.entries;
        let mut best: usize = 0;
        let mut i: usize = 1;
        while i < self.entries.len()
            invariant
                1 <= i <= self.entries@.len(),
                best < i,
                all == entries_view(self.entries@),
                best == smallest_index(all.take(i as int)),
            decreases self.entries@.len() - i,
        {
            assert(all.take(i + 1).drop_last() =~= all.take(i as int));
            if self.entries[i].size_bytes < self.entries[best].size_bytes {
                best = i;
            }
            i += 1;
        }
        assert(all.take(i as int) =~= all);
        Some(&self.entries[best])
    }
}

/// `bytes` without the zero bytes at its end.
pub open spec fn without_trailing_zeros(bytes: Seq<u8>) -> Seq<u8>
    decreases bytes.len(),
{
    if bytes.len() > 0 && bytes.last() == 0 {
        without_trailing_zeros(bytes.drop_last())
    } else {
        bytes
    }
}

/// `bytes` read as UTF-8, with replacement characters where they are not.
pub uninterp spec fn lossy_text(bytes: Seq<u8>) -> Seq<char>;

/// Calls `String::from_utf8_lossy`, which decodes valid UTF-8 as it is and
/// puts a replacement character in place of each invalid sequence.
#[verifier::external_body]
fn decode_lossy(bytes: &[u8]) -> (r: String)
    ensures
        r@ == lossy_text(bytes@),
        vstd::utf8::valid_utf8(bytes@) ==> r@ == vstd::utf8::decode_utf8(bytes@),
{
    String::from_utf8_lossy(bytes).to_string()
}

/// A discriminator as text.
fn discriminator_text(d: &[u8; 8]) -> (r: String)
    ensures
        r@ == lossy_text(without_trailing_zeros(d@)),
        vstd::utf8::valid_utf8(without_trailing_zeros(d@)) ==> r@ == vstd::utf8::decode_utf8(
            without_trailing_zeros(d@),
        ),
{
    let mut end: usize = 8;
    assert(d@.take(8) =~= d@);
    while end > 0 && d[end - 1] == 0
        invariant
            end <= 8,
            without_trailing_zeros(d@) == without_trailing_zeros(d@.take(end as int)),
        decreases end,
    {
        assert(d@.take(end as int).drop_last() =~= d@.take(end - 1));
        end -= 1;
    }
    let kept: &[u8] = &d.as_slice()[0..end];
    assert(kept@ =~= d@.take(end as int));
    decode_lossy(kept)
}

/// A tag that is ASCII text filled up with zero bytes reads as that text.
proof fn lemma_tag_text(d: Seq<u8>, t: Seq<char>)
    requires
        0 < t.len() <= d.len(),
        vstd::utf8::is_ascii_chars(t),
        t.last() != '\0',
        forall|i: int| 0 <= i < t.len() ==> #[trigger] d[i] == t[i] as u8,
        forall|i: int| t.len() <= i < d.len() ==> d[i] == 0,
    ensures
        vstd::utf8::valid_utf8(without_trailing_zeros(d)),
        vstd::utf8::decode_utf8(without_trailing_zeros(d)) == t,
    decreases d.len(),
{
    if t.len() < d.len() {
        lemma_tag_text(d.drop_last(), t);
    } else {
        vstd::utf8::is_ascii_chars_encode_utf8(t);
        vstd::utf8::encode_utf8_valid_utf8(t);
        vstd::utf8::encode_utf8_decode_utf8(t);
        assert(vstd::utf8::encode_utf8(t) =~= d) by {
            assert forall|i: int| 0 <= i < d.len() implies vstd::utf8::encode_utf8(t)[i] == d[i] by {
                assert(t[i] as u8 == vstd::utf8::encode_utf8(t)[i]);
            }
        }
        assert(d.last() == t.last() as u8);
        assert('\0' <= t[t.len() - 1] <= '\u{7f}');
        assert(d.last() != 0);
    }
}

/// One row of the tour.
fn entry(
    type_label: &'static str,
    discriminator: [u8; 8],
    size_bytes: usize,
    version: Option<u8>,
) -> (r: AccountLayoutEntry)
    ensures
        r.type_label@ == type_label@,
        r.discriminator@ == discriminator@,
        r.discriminator_text@ == lossy_text(without_trailing_zeros(discriminator@)),
        vstd::utf8::valid_utf8(without_trailing_zeros(discriminator@)) ==> r.discriminator_text@
            == vstd::utf8::decode_utf8(without_trailing_zeros(discriminator@)),
        r.size_bytes == size_bytes,
        r.version == version,
{
    AccountLayoutEntry {
        type_label,
        discriminator,
        discriminator_text: discriminator_text(&discriminator),
        size_bytes,
        version,
    }
}

/// Every account type of the engine.
pub open spec fn layout_table() -> Seq<EntryView> {
    seq![
        EntryView {
            type_label: "Market"@,
            discriminator: state::MARKET_DISCRIMINATOR@,
            discriminator_text: "MARKET"@,
            size_bytes: state::Market::LEN as nat,
            version: Some(state::Market::VERSION),
        },
        EntryView {
            type_label: "Stats"@,
            discriminator: state::STATS_DISCRIMINATOR@,
            discriminator_text: "STATS"@,
            size_bytes: state::Stats::LEN as nat,
            version: None,
        },
        EntryView {
            type_label: "OrderBook"@,
            discriminator: state::ORDER_BOOK_DISCRIMINATOR@,
            discriminator_text: "BOOK"@,
            size_bytes: state::OrderBook::LEN as nat,
            version: None,
        },
        EntryView {
            type_label: "Oracle"@,
            discriminator: state::ORACLE_DISCRIMINATOR@,
            discriminator_text: "ORACLE"@,
            size_bytes: state::Oracle::LEN as nat,
            version: None,
        },
        EntryView {
            type_label: "FundingState"@,
            discriminator: state::FUNDING_DISCRIMINATOR@,
            discriminator_text: "FUNDING"@,
            size_bytes: state::FundingState::LEN as nat,
            version: None,
        },
        EntryView {
            type_label: "Position"@,
            discriminator: state::POSITION_DISCRIMINATOR@,
            discriminator_text: "POSITION"@,
            size_bytes: state::Position::LEN as nat,
            version: None,
        },
        EntryView {
            type_label: "TradingVault"@,
            discriminator: state::TRADING_VAULT_DISCRIMINATOR@,
            discriminator_text: "TVAULT"@,
            size_bytes: state::TradingVault::LEN as nat,
            version: None,
        },
        EntryView {
            type_label: "VaultShare"@,
            discriminator: state::VAULT_SHARE_DISCRIMINATOR@,
            discriminator_text: "VSHARE"@,
            size_bytes: state::VaultShare::LEN as nat,
            version: None,
        },
        EntryView {
            type_label: "BuilderProfile"@,
            discriminator: state::BUILDER_PROFILE_DISCRIMINATOR@,
            discriminator_text: "BUILDER"@,
            size_bytes: state::BuilderProfile::LEN as nat,
            version: None,
        },
        EntryView {
            type_label: "InsuranceFund"@,
            discriminator: state::INSURANCE_FUND_DISCRIMINATOR@,
            discriminator_text: "INSFUND"@,
            size_bytes: state::InsuranceFund::LEN as nat,
            version: None,
        },
        EntryView {
            type_label: "Slab"@,
            discriminator: state::SLAB_DISCRIMINATOR@,
            discriminator_text: "SLAB"@,
            size_bytes: state::Slab::LEN as nat,
            version: None,
        },
    ]
}

/// The tour of this crate's layouts. The slab is rated by how many order
/// nodes would fit into its bytes.
pub open spec fn layout_report() -> LayoutView {
    LayoutView {
        entries: layout_table(),
        orderbook_capacity: state::ORDER_CAPACITY as nat,
        orderbook_size: state::OrderBook::LEN as nat,
        orderbook_bytes_per_order: (state::OrderBook::LEN / state::ORDER_CAPACITY) as nat,
        slab_capacity: (state::Slab::LEN / state::OrderNode::LEN) as nat,
        slab_size: state::Slab::LEN as nat,
        slab_bytes_per_order: (state::Slab::LEN / (state::Slab::LEN / state::OrderNode::LEN)) as nat,
    }
}

/// Takes the tour.
#[must_use]
pub fn run_account_layout_demo_structured() -> (r: AccountLayoutDemoResult)
    ensures
        r@ == layout_report(),
{
    let entries: Vec<AccountLayoutEntry> = vec![
        entry("Market", state::MARKET_DISCRIMINATOR, state::Market::LEN, Some(state::Market::VERSION)),
        entry("Stats", state::STATS_DISCRIMINATOR, state::Stats::LEN, None),
        entry("OrderBook", state::ORDER_BOOK_DISCRIMINATOR, state::OrderBook::LEN, None),
        entry("Oracle", state::ORACLE_DISCRIMINATOR, state::Oracle::LEN, None),
        entry("FundingState", state::FUNDING_DISCRIMINATOR, state::FundingState::LEN, None),
        entry("Position", state::POSITION_DISCRIMINATOR, state::Position::LEN, None),
        entry("TradingVault", state::TRADING_VAULT_DISCRIMINATOR, state::TradingVault::LEN, None),
        entry("VaultShare", state::VAULT_SHARE_DISCRIMINATOR, state::VaultShare::LEN, None),
        entry("BuilderProfile", state::BUILDER_PROFILE_DISCRIMINATOR, state::BuilderProfile::LEN, None),
        entry("InsuranceFund", state::INSURANCE_FUND_DISCRIMINATOR, state::InsuranceFund::LEN, None),
        entry("Slab", state::SLAB_DISCRIMINATOR, state::Slab::LEN, None),
    ];
    proof {
        reveal_strlit("MARKET");
        lemma_tag_text(state::MARKET_DISCRIMINATOR@, "MARKET"@);
        reveal_strlit("STATS");
        lemma_tag_text(state::STATS_DISCRIMINATOR@, "STATS"@);
        reveal_strlit("BOOK");
        lemma_tag_text(state::ORDER_BOOK_DISCRIMINATOR@, "BOOK"@);
        reveal_strlit("ORACLE");
        lemma_tag_text(state::ORACLE_DISCRIMINATOR@, "ORACLE"@);
        reveal_strlit("FUNDING");
        lemma_tag_text(state::FUNDING_DISCRIMINATOR@, "FUNDING"@);
        reveal_strlit("POSITION");
        lemma_tag_text(state::POSITION_DISCRIMINATOR@, "POSITION"@);
        reveal_strlit("TVAULT");
        lemma_tag_text(state::TRADING_VAULT_DISCRIMINATOR@, "TVAULT"@);
        reveal_strlit("VSHARE");
        lemma_tag_text(state::VAULT_SHARE_DISCRIMINATOR@, "VSHARE"@);
        reveal_strlit("BUILDER");
        lemma_tag_text(state::BUILDER_PROFILE_DISCRIMINATOR@, "BUILDER"@);
        reveal_strlit("INSFUND");
        lemma_tag_text(state::INSURANCE_FUND_DISCRIMINATOR@, "INSFUND"@);
        reveal_strlit("SLAB");
        lemma_tag_text(state::SLAB_DISCRIMINATOR@, "SLAB"@);
        assert(entries_view(entries@) =~= layout_table());
    }
    let orderbook_capacity: usize = state::ORDER_CAPACITY;
    let orderbook_size: usize = state::OrderBook::LEN;
    let slab_size: usize = state::Slab::LEN;
    let slab_capacity: usize = slab_size / state::OrderNode::LEN;
    AccountLayoutDemoResult {
        entries,
        orderbook_capacity,
        orderbook_size,
        orderbook_bytes_per_order: orderbook_size / orderbook_capacity,
        slab_capacity,
        slab_size,
        slab_bytes_per_order: slab_size / slab_capacity,
    }
}

/// No two account types share their discriminator.
pub proof fn discriminators_are_distinct()
    ensures
        discriminators(layout_table()).no_duplicates(),
        discriminators(layout_table()).to_set().len() == 11,
{
    let tags = discriminators(layout_table());
    assert forall|i: int, j: int| 0 <= i < j < 11 implies tags[i][0] != tags[j][0] || tags[i][1]
        != tags[j][1] by {}
    tags.unique_seq_to_set();
}

/// The slab packs more orders into a byte than the flat book does.
pub proof fn slab_is_denser_than_orderbook()
    ensures
        layout_report().slab_capacity * layout_report().orderbook_size
            > layout_report().orderbook_capacity * layout_report().slab_size,
        layout_report().slab_capacity > layout_report().orderbook_capacity,
{
}

/// A schema version, or a dash if there is none.
pub open spec fn version_text(version: Option<u8>) -> Seq<char> {
    match version {
        Some(v) => "v"@ + text::decimal(v as nat),
        None => "—"@,
    }
}

/// One row of the table of account types.
pub open spec fn row_text(indent: Seq<char>, e: EntryView) -> Seq<char> {
    indent + text::pad_right(e.type_label, 16) + "  "@ + text::pad_right(e.discriminator_text, 10)
        + "  "@ + text::pad_left(text::decimal(e.size_bytes), 6) + "  "@ + version_text(e.version)
        + "\n"@
}

/// The first `n` rows.
pub open spec fn rows_text(indent: Seq<char>, entries: Seq<EntryView>, n: nat) -> Seq<char>
    decreases n,
{
    if n == 0 {
        seq![]
    } else {
        rows_text(indent, entries, (n - 1) as nat) + row_text(indent, entries[n - 1])
    }
}

/// Names of the columns, and the rule below them.
pub open spec fn table_head(indent: Seq<char>) -> Seq<char> {
    indent + "Type              Tag          Bytes  Version\n"@ + indent
        + "────────────────  ──────────  ──────  ───────\n"@
}

/// The table of account types.
pub open spec fn table_text(indent: Seq<char>, entries: Seq<EntryView>) -> Seq<char> {
    table_head(indent) + rows_text(indent, entries, entries.len())
}

fn version_line(version: Option<u8>) -> (r: String)
    ensures
        r@ == version_text(version),
{
    match version {
        Some(v) => {
            let mut r: String = "v".to_owned();
            r.append(text::decimal_text(v as u128).as_str());
            r
        },
        None => "—".to_owned(),
    }
}

fn row_line(indent: &str, e: &AccountLayoutEntry) -> (r: String)
    ensures
        r@ == row_text(indent@, e@),
{
    let mut r: String = indent.to_owned();
    r.append(text::padded_right(e.type_label, 16).as_str());
    r.append("  ");
    r.append(text::padded_right(e.discriminator_text.as_str(), 10).as_str());
    r.append("  ");
    r.append(text::padded_left(text::decimal_text(e.size_bytes as u128).as_str(), 6).as_str());
    r.append("  ");
    r.append(version_line(e.version).as_str());
    r.append("\n");
    r
}

/// The table of account types, each line behind `indent`.
pub fn table(indent: &str, entries: &Vec<AccountLayoutEntry>) -> (r: String)
    ensures
        r@ == table_text(indent@, entries_view(entries@)),
{
    let mut rows: String = String::new();
    let mut i: usize = 0;
    while i < entries.len()
        invariant
            i <= entries@.len(),
            rows@ == rows_text(indent@, entries_view(entries@), i as nat),
        decreases entries@.len() - i,
    {
        rows.append(row_line(indent, &entries[i]).as_str());
        i += 1;
    }
    let mut r: String = indent.to_owned();
    r.append("Type              Tag          Bytes  Version\n");
    r.append(indent);
    r.append("────────────────  ──────────  ──────  ───────\n");
    r.append(rows.as_str());
    r
}

/// What the demo prints before the table.
pub open spec fn demo_intro() -> Seq<char> {
    "\n=== openhl-solana — account-layout demo ===\n\n"@
        + "    Solana accounts are fixed-size and byte-precise. This demo\n"@
        + "    inspects every on-chain type the engine defines, surfacing the\n"@
        + "    discriminator tag, byte size, and version. Pure Rust against\n"@
        + "    `openhl-state` constants — no validator, no program deploy.\n\n"@
}

/// The totals below the table.
pub open spec fn demo_totals(d: LayoutView) -> Seq<char> {
    "    Total bytes (one of each, "@ + text::decimal(discriminators(d.entries).to_set().len())
        + " types):  "@ + text::decimal(total_size(d.entries)) + "\n"@
}

/// The line on one extreme of the table.
pub open spec fn extreme_text(label: Seq<char>, e: EntryView) -> Seq<char> {
    label + e.type_label + " ("@ + text::decimal(e.size_bytes) + " bytes)\n"@
}

/// The lines on the largest and the smallest type; none for an empty table.
pub open spec fn demo_extremes(d: LayoutView) -> Seq<char> {
    if d.entries.len() == 0 {
        seq![]
    } else {
        extreme_text(
            "    Largest single type:                   "@,
            d.entries[largest_index(d.entries)],
        ) + extreme_text(
            "    Smallest single type:                  "@,
            d.entries[smallest_index(d.entries)],
        )
    }
}

/// The two order books side by side.
pub open spec fn demo_books(d: LayoutView) -> Seq<char> {
    "    OrderBook (flat array): "@ + text::decimal(d.orderbook_size) + " bytes for "@
        + text::decimal(d.orderbook_capacity) + " order capacity → "@ + text::decimal(
        d.orderbook_bytes_per_order,
    ) + " bytes/order\n"@ + "    Slab (critbit tree):    "@ + text::decimal(d.slab_size)
        + " bytes for ~"@ + text::decimal(d.slab_capacity) + " order capacity → ~"@
        + text::decimal(d.slab_bytes_per_order) + " bytes/order\n"@
}

/// What the demo prints at its end.
pub open spec fn demo_takeaway() -> Seq<char> {
    "    Takeaway: Solana account sizes are predictable up-front — every\n"@
        + "    field offset is known at compile time. The Slab packs more orders\n"@
        + "    per byte but pays a per-fill log(N) cost; the flat OrderBook is\n"@
        + "    O(N) per fill but the byte layout is trivial to inspect.\n\n"@
}

/// All that the demo prints.
pub open spec fn demo_text(d: LayoutView) -> Seq<char> {
    demo_intro() + table_text("    "@, d.entries) + "\n"@ + demo_totals(d) + demo_extremes(d)
        + "\n"@ + demo_books(d) + "\n"@ + demo_takeaway()
}

fn extreme_line(label: &str, e: &AccountLayoutEntry) -> (r: String)
    ensures
        r@ == extreme_text(label@, e@),
{
    let mut r: String = label.to_owned();
    r.append(e.type_label);
    r.append(" (");
    r.append(text::decimal_text(e.size_bytes as u128).as_str());
    r.append(" bytes)\n");
    r
}

fn extreme_lines(d: &AccountLayoutDemoResult) -> (r: String)
    ensures
        r@ == demo_extremes(d@),
{
    let mut r: String = String::new();
    match d.largest() {
        Some(e) => {
            r = extreme_line("    Largest single type:                   ", e);
            proof {
                largest_is_largest(d@.entries);
            }
        },
        None => {},
    }
    match d.smallest() {
        Some(e) => {
            r.append(extreme_line("    Smallest single type:                  ", e).as_str());
            proof {
                smallest_is_smallest(d@.entries);
            }
        },
        None => {},
    }
    r
}

fn book_lines(d: &AccountLayoutDemoResult) -> (r: String)
    ensures
        r@ == demo_books(d@),
{
    let mut r: String = "    OrderBook (flat array): ".to_owned();
    r.append(text::decimal_text(d.orderbook_size as u128).as_str());
    r.append(" bytes for ");
    r.append(text::decimal_text(d.orderbook_capacity as u128).as_str());
    r.append(" order capacity → ");
    r.append(text::decimal_text(d.orderbook_bytes_per_order as u128).as_str());
    r.append(" bytes/order\n");
    r.append("    Slab (critbit tree):    ");
    r.append(text::decimal_text(d.slab_size as u128).as_str());
    r.append(" bytes for ~");
    r.append(text::decimal_text(d.slab_capacity as u128).as_str());
    r.append(" order capacity → ~");
    r.append(text::decimal_text(d.slab_bytes_per_order as u128).as_str());
    r.append(" bytes/order\n");
    r
}

/// The tour as text.
pub fn demo_report(d: &AccountLayoutDemoResult) -> (r: String)
    requires
        total_size(d@.entries) <= usize::MAX,
    ensures
        r@ == demo_text(d@),
{
    let mut r: String = "\n=== openhl-solana — account-layout demo ===\n\n".to_owned();
    r.append("    Solana accounts are fixed-size and byte-precise. This demo\n");
    r.append("    inspects every on-chain type the engine defines, surfacing the\n");
    r.append("    discriminator tag, byte size, and version. Pure Rust against\n");
    r.append("    `openhl-state` constants — no validator, no program deploy.\n\n");
    r.append(table("    ", &d.entries).as_str());
    r.append("\n");
    let mut totals: String = "    Total bytes (one of each, ".to_owned();
    totals.append(text::decimal_text(d.distinct_account_types() as u128).as_str());
    totals.append(" types):  ");
    totals.append(text::decimal_text(d.total_bytes() as u128).as_str());
    totals.append("\n");
    r.append(totals.as_str());
    r.append(extreme_lines(d).as_str());
    r.append("\n");
    r.append(book_lines(d).as_str());
    r.append("\n");
    let mut takeaway: String =
        "    Takeaway: Solana account sizes are predictable up-front — every\n".to_owned();
    takeaway.append("    field offset is known at compile time. The Slab packs more orders\n");
    takeaway.append("    per byte but pays a per-fill log(N) cost; the flat OrderBook is\n");
    takeaway.append("    O(N) per fill but the byte layout is trivial to inspect.\n\n");
    r.append(takeaway.as_str());
    r
}

/// What the `account-layout-demo` command prints.
pub fn run_account_layout_demo_cli() -> (r: String)
    ensures
        r@ == demo_text(layout_report()),
{
    let d: AccountLayoutDemoResult = run_account_layout_demo_structured();
    proof {
        lemma_layout_total();
    }
    demo_report(&d)
}

/// One account of each type takes this many bytes.
pub proof fn lemma_layout_total()
    ensures
        total_size(layout_table()) == 85328,
{
    reveal_with_fuel(total_size, 12);
    let t = layout_table();
    assert(t.drop_last().drop_last().drop_last().drop_last().drop_last().drop_last().drop_last().drop_last().drop_last().drop_last().drop_last().len()
        == 0);
}

} // verus!
