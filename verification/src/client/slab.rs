//! The command for the slab order book.

use vstd::prelude::*;
use vstd::string::StringExecFns;

use crate::bytes;
use crate::client::book;
use crate::client::common;
use crate::client::keys;
use crate::client::keys::ClientError;
use crate::client::tags;
use crate::program::address;
use crate::program::types;
use crate::program::types::Instruction;
use crate::state::{
    tree_tag, CritbitTree, Slab, TreeNode, SLAB_NONE_INDEX, SLAB_TREE_CAPACITY,
};
use crate::text;

verus! {

/// The options of `slab` that say what to do.
#[derive(Debug, Clone)]
pub struct SlabArgs {
    pub create: bool,
    pub place: bool,
    pub side: Option<String>,
    pub matching: bool,
    pub taker_side: Option<String>,
    pub max_fills: Option<u8>,
    pub price: Option<u64>,
    pub size: Option<u64>,
}

/// What `slab` asks of the program.
pub open spec fn slab_request(
    args: SlabArgs,
    program: Seq<u8>,
    payer: Seq<u8>,
    market: Seq<u8>,
    slab: Seq<u8>,
) -> keys::Request {
    if common::set_count(seq![args.create, args.place, args.matching]) > 1 {
        Err(keys::usage("--create, --place, --match are mutually exclusive"@))
    } else if args.create {
        Ok(
            Some(
                types::InstructionView {
                    program_id: program,
                    accounts: book::creation_accounts(payer, market, slab),
                    data: seq![tags::CREATE_SLAB],
                },
            ),
        )
    } else if args.place {
        match (common::side_named(keys::opt_string(args.side)), args.price, args.size) {
            (None, _, _) => Err(common::bad_side("--side"@, keys::opt_string(args.side))),
            (_, None, _) => Err(keys::usage("--price required"@)),
            (_, _, None) => Err(keys::usage("--size required"@)),
            (Some(side), Some(price), Some(size)) => Ok(
                Some(
                    types::InstructionView {
                        program_id: program,
                        accounts: book::signer_and_account(payer, slab),
                        data: book::order_data(
                            tags::SLAB_PLACE_ORDER,
                            side,
                            price as nat,
                            size as nat,
                        ),
                    },
                ),
            ),
        }
    } else if args.matching {
        match (
            common::side_named(keys::opt_string(args.taker_side)),
            args.price,
            args.size,
            args.max_fills,
        ) {
            (None, _, _, _) => Err(
                common::bad_side("--taker-side"@, keys::opt_string(args.taker_side)),
            ),
            (_, None, _, _) => Err(keys::usage("--price required"@)),
            (_, _, None, _) => Err(keys::usage("--size required"@)),
            (_, _, _, None) => Err(keys::usage("--max-fills required"@)),
            (Some(side), Some(price), Some(size), Some(max_fills)) => Ok(
                Some(
                    types::InstructionView {
                        program_id: program,
                        accounts: book::signer_and_account(payer, slab),
                        data: book::match_data(
                            tags::SLAB_MATCH,
                            side,
                            price as nat,
                            size as nat,
                            max_fills,
                        ),
                    },
                ),
            ),
        }
    } else {
        Ok(None)
    }
}

/// What `slab` asks of the program; nothing if it only shows the slab.
pub fn slab_instruction(
    args: &SlabArgs,
    program: &[u8; 32],
    payer: &[u8; 32],
    market: &[u8; 32],
    slab: &[u8; 32],
) -> (r: Result<Option<Instruction>, ClientError>)
    ensures
        keys::request(r) == slab_request(*args, program@, payer@, market@, slab@),
{
    let flags: [bool; 3] = [args.create, args.place, args.matching];
    assert(flags@ =~= seq![args.create, args.place, args.matching]);
    if common::more_than_one(&flags) {
        return Err(keys::usage_error("--create, --place, --match are mutually exclusive"));
    }
    if args.create {
        let data: Vec<u8> = vec![tags::CREATE_SLAB];
        assert(data@ =~= seq![tags::CREATE_SLAB]);
        return Ok(
            Some(common::instruction(program, book::creation_metas(payer, market, slab), data)),
        );
    }
    if !args.place && !args.matching {
        return Ok(None);
    }
    let side: u8 = if args.place {
        match common::side_byte(keys::borrowed(&args.side)) {
            Some(side) => side,
            None => return Err(common::side_error("--side", keys::borrowed(&args.side))),
        }
    } else {
        match common::side_byte(keys::borrowed(&args.taker_side)) {
            Some(side) => side,
            None => return Err(
                common::side_error("--taker-side", keys::borrowed(&args.taker_side)),
            ),
        }
    };
    let price: u64 = match args.price {
        Some(price) => price,
        None => return Err(keys::usage_error("--price required")),
    };
    let size: u64 = match args.size {
        Some(size) => size,
        None => return Err(keys::usage_error("--size required")),
    };
    let data: Vec<u8> = if args.place {
        book::order_bytes(tags::SLAB_PLACE_ORDER, side, price, size)
    } else {
        let max_fills: u8 = match args.max_fills {
            Some(max_fills) => max_fills,
            None => return Err(keys::usage_error("--max-fills required")),
        };
        book::match_bytes(tags::SLAB_MATCH, side, price, size, max_fills)
    };
    Ok(Some(common::instruction(program, book::signer_and_account_metas(payer, slab), data)))
}

/// The address of the slab of a market, and its bump.
pub fn slab_address(program: &[u8; 32], market: &[u8; 32]) -> (r: Option<([u8; 32], u8)>)
    ensures
        address::derived(r) == address::program_address(
            seq![address::SLAB_SEED@, market@],
            program@,
        ),
{
    address::derive_with_key(&address::SLAB_SEED, market, program)
}

/// The child that a search for the highest (or lowest) price goes to.
pub open spec fn child(node: TreeNode, want_max: bool) -> int {
    if want_max {
        node.right_child as int
    } else {
        node.left_child as int
    }
}

/// The leaf that `steps` steps from `at`, always to the same side, lead to.
/// `None` if they lead out of the pool or do not get to a leaf.
pub open spec fn descent(nodes: Seq<TreeNode>, at: int, want_max: bool, steps: nat) -> Option<int>
    decreases steps,
{
    if at < 0 || at >= nodes.len() {
        None
    } else if nodes[at].tag == tree_tag::LEAF {
        Some(at)
    } else if steps == 0 {
        None
    } else {
        descent(nodes, child(nodes[at], want_max), want_max, (steps - 1) as nat)
    }
}

/// The leaf with the best price: the last one to the right for the highest,
/// to the left for the lowest. A path that is longer than the pool goes in
/// circles.
pub open spec fn best_leaf(tree: CritbitTree, want_max: bool) -> Option<int> {
    descent(tree.nodes@, tree.root as int, want_max, SLAB_TREE_CAPACITY as nat)
}

/// The tree is empty, or the search for its best price ends at a leaf.
pub open spec fn searchable(tree: CritbitTree, want_max: bool) -> bool {
    tree.root == SLAB_NONE_INDEX || best_leaf(tree, want_max) is Some
}

/// The best price level, in words.
pub open spec fn best_text(tree: CritbitTree, want_max: bool) -> Seq<char> {
    if tree.root == SLAB_NONE_INDEX {
        "(empty)"@
    } else {
        let leaf = tree.nodes@[best_leaf(tree, want_max)->Some_0];
        "price="@ + text::decimal(leaf.price as nat) + " orders="@ + text::decimal(
            leaf.order_count as nat,
        )
    }
}

/// The leaf with the best price, if the search for it ends at one.
pub fn find_best(tree: &CritbitTree, want_max: bool) -> (r: Option<usize>)
    ensures
        match r {
            Some(i) => i < SLAB_TREE_CAPACITY && best_leaf(*tree, want_max) == Some(i as int),
            None => best_leaf(*tree, want_max) is None,
        },
{
    let mut cur: usize = tree.root as usize;
    let mut steps: usize = SLAB_TREE_CAPACITY;
    while cur < SLAB_TREE_CAPACITY && tree.nodes[cur].tag != tree_tag::LEAF && steps > 0
        invariant
            steps <= SLAB_TREE_CAPACITY,
            best_leaf(*tree, want_max) == descent(tree.nodes@, cur as int, want_max, steps as nat),
        decreases steps,
    {
        cur = if want_max {
            tree.nodes[cur].right_child as usize
        } else {
            tree.nodes[cur].left_child as usize
        };
        steps -= 1;
    }
    if cur < SLAB_TREE_CAPACITY && tree.nodes[cur].tag == tree_tag::LEAF {
        Some(cur)
    } else {
        None
    }
}

/// Whether the tree is empty, or the search for its best price ends at a leaf.
pub fn is_searchable(tree: &CritbitTree, want_max: bool) -> (r: bool)
    ensures
        r == searchable(*tree, want_max),
{
    tree.root == SLAB_NONE_INDEX || find_best(tree, want_max).is_some()
}

/// The best price level, in words.
pub fn describe_best(tree: &CritbitTree, want_max: bool) -> (r: String)
    requires
        searchable(*tree, want_max),
    ensures
        r@ == best_text(*tree, want_max),
{
    if tree.root == SLAB_NONE_INDEX {
        return "(empty)".to_owned();
    }
    match find_best(tree, want_max) {
        Some(i) => {
            let leaf: &TreeNode = &tree.nodes[i];
            let mut r: String = "price=".to_owned();
            r.append(text::decimal_text(leaf.price as u128).as_str());
            r.append(" orders=");
            r.append(text::decimal_text(leaf.order_count as u128).as_str());
            r
        },
        None => vstd::pervasive::unreached(),
    }
}

/// How many of the nodes are leaves.
pub open spec fn leaf_count(nodes: Seq<TreeNode>) -> nat
    decreases nodes.len(),
{
    if nodes.len() == 0 {
        0
    } else {
        leaf_count(nodes.drop_last()) + if nodes.last().tag == tree_tag::LEAF {
            1nat
        } else {
            0nat
        }
    }
}

/// How many price levels the tree has.
pub fn count_leaves(tree: &CritbitTree) -> (r: usize)
    ensures
        r == leaf_count(tree.nodes@),
{
    let mut count: usize = 0;
    let mut i: usize = 0;
    assert(tree.nodes@.take(0) =~= seq![]);
    while i < SLAB_TREE_CAPACITY
        invariant
            count <= i <= SLAB_TREE_CAPACITY,
            count == leaf_count(tree.nodes@.take(i as int)),
        decreases SLAB_TREE_CAPACITY - i,
    {
        assert(tree.nodes@.take(i + 1).drop_last() =~= tree.nodes@.take(i as int));
        if tree.nodes[i].tag == tree_tag::LEAF {
            count += 1;
        }
        i += 1;
    }
    assert(tree.nodes@.take(i as int) =~= tree.nodes@);
    count
}

/// The prices below the node `at`, at most `depth` levels down.
pub open spec fn prices(nodes: Seq<TreeNode>, at: int, depth: nat) -> Set<u64>
    decreases depth,
{
    if at < 0 || at >= nodes.len() {
        Set::empty()
    } else if nodes[at].tag == tree_tag::LEAF {
        set![nodes[at].price]
    } else if depth == 0 {
        Set::empty()
    } else {
        prices(nodes, nodes[at].left_child as int, (depth - 1) as nat).union(
            prices(nodes, nodes[at].right_child as int, (depth - 1) as nat),
        )
    }
}

/// `a` and `b` agree above the bit `bit`, which `a` has clear and `b` has set.
pub open spec fn splits(a: u64, b: u64, bit: u8) -> bool {
    &&& bit < 64
    &&& (a >> bit) & 1 == 0
    &&& (b >> bit) == ((a >> bit) | 1)
}

/// The node `at` is the top of a critbit tree, at most `depth` levels deep:
/// the prices to the left and to the right of an inner node agree above its
/// bit, which those to the left have clear and those to the right have set.
pub open spec fn critbit(nodes: Seq<TreeNode>, at: int, depth: nat) -> bool
    decreases depth,
{
    &&& 0 <= at < nodes.len()
    &&& nodes[at].tag == tree_tag::LEAF || {
        let left = nodes[at].left_child as int;
        let right = nodes[at].right_child as int;
        &&& nodes[at].tag == tree_tag::INNER
        &&& depth > 0
        &&& critbit(nodes, left, (depth - 1) as nat)
        &&& critbit(nodes, right, (depth - 1) as nat)
        &&& forall|a: u64, b: u64|
            #![trigger prices(nodes, left, (depth - 1) as nat).contains(a), prices(nodes, right, (depth - 1) as nat).contains(b)]
            prices(nodes, left, (depth - 1) as nat).contains(a) && prices(
                nodes,
                right,
                (depth - 1) as nat,
            ).contains(b) ==> splits(a, b, nodes[at].split_bit)
    }
}

proof fn lemma_splits_orders(a: u64, b: u64, bit: u8)
    requires
        splits(a, b, bit),
    ensures
        a < b,
{
    let k = bit as u64;
    assert(a < b) by (bit_vector)
        requires
            k < 64,
            (a >> k) & 1 == 0,
            (b >> k) == ((a >> k) | 1),
    ;
}

/// In a critbit tree the search ends at a leaf, and no price in the tree is
/// better than the one found.
pub proof fn search_finds_the_best(nodes: Seq<TreeNode>, at: int, want_max: bool, depth: nat)
    requires
        critbit(nodes, at, depth),
    ensures
        descent(nodes, at, want_max, depth) matches Some(leaf) && {
            &&& 0 <= leaf < nodes.len()
            &&& nodes[leaf].tag == tree_tag::LEAF
            &&& prices(nodes, at, depth).contains(nodes[leaf].price)
            &&& forall|p: u64| #[trigger]
                prices(nodes, at, depth).contains(p) ==> if want_max {
                    p <= nodes[leaf].price
                } else {
                    nodes[leaf].price <= p
                }
        },
    decreases depth,
{
    if nodes[at].tag != tree_tag::LEAF {
        let d = (depth - 1) as nat;
        let left = nodes[at].left_child as int;
        let right = nodes[at].right_child as int;
        search_finds_the_best(nodes, left, want_max, d);
        search_finds_the_best(nodes, right, want_max, d);
        let leaf = descent(nodes, at, want_max, depth)->Some_0;
        let other = if want_max {
            descent(nodes, left, want_max, d)->Some_0
        } else {
            descent(nodes, right, want_max, d)->Some_0
        };
        assert(leaf == descent(nodes, child(nodes[at], want_max), want_max, d)->Some_0);
        assert forall|p: u64| #[trigger] prices(nodes, at, depth).contains(p) implies if want_max {
            p <= nodes[leaf].price
        } else {
            nodes[leaf].price <= p
        } by {
            if want_max && prices(nodes, left, d).contains(p) {
                assert(prices(nodes, right, d).contains(nodes[leaf].price));
                lemma_splits_orders(p, nodes[leaf].price, nodes[at].split_bit);
            }
            if !want_max && prices(nodes, right, d).contains(p) {
                assert(prices(nodes, left, d).contains(nodes[leaf].price));
                lemma_splits_orders(nodes[leaf].price, p, nodes[at].split_bit);
            }
        }
    }
}

/// A slab, as it stands.
pub open spec fn slab_text(slab: Slab) -> Seq<char> {
    "  next_order_id: "@ + text::decimal(slab.next_order_id as nat) + "\n  active_count:  "@
        + text::decimal(slab.active_count as nat) + "\n  bump:          "@ + text::decimal(
        slab.bump as nat,
    ) + "\n  market:        "@ + address::key_text(slab.market@) + "\n  best bid:      "@ + best_text(
        slab.bid_tree,
        true,
    ) + "\n  best ask:      "@ + best_text(slab.ask_tree, false) + "\n  bid levels:    "@
        + text::decimal(leaf_count(slab.bid_tree.nodes@)) + " (tree-node pool free head "@
        + text::decimal(slab.bid_tree.free_head as nat) + ")\n  ask levels:    "@ + text::decimal(
        leaf_count(slab.ask_tree.nodes@),
    ) + " (tree-node pool free head "@ + text::decimal(slab.ask_tree.free_head as nat)
        + ")\n  order-pool free head: "@ + text::decimal(slab.pool_free_head as nat) + "\n"@
}

/// A slab, as it stands. Both searches for a best price have to end.
pub fn print_slab(slab: &Slab) -> (r: String)
    requires
        searchable(slab.bid_tree, true),
        searchable(slab.ask_tree, false),
    ensures
        r@ == slab_text(*slab),
{
    let mut r: String = "  next_order_id: ".to_owned();
    r.append(text::decimal_text(slab.next_order_id as u128).as_str());
    r.append("\n  active_count:  ");
    r.append(text::decimal_text(slab.active_count as u128).as_str());
    r.append("\n  bump:          ");
    r.append(text::decimal_text(slab.bump as u128).as_str());
    r.append("\n  market:        ");
    r.append(address::show_key(&slab.market).as_str());
    r.append("\n  best bid:      ");
    r.append(describe_best(&slab.bid_tree, true).as_str());
    r.append("\n  best ask:      ");
    r.append(describe_best(&slab.ask_tree, false).as_str());
    r.append("\n  bid levels:    ");
    r.append(text::decimal_text(count_leaves(&slab.bid_tree) as u128).as_str());
    r.append(" (tree-node pool free head ");
    r.append(text::decimal_text(slab.bid_tree.free_head as u128).as_str());
    r.append(")\n  ask levels:    ");
    r.append(text::decimal_text(count_leaves(&slab.ask_tree) as u128).as_str());
    r.append(" (tree-node pool free head ");
    r.append(text::decimal_text(slab.ask_tree.free_head as u128).as_str());
    r.append(")\n  order-pool free head: ");
    r.append(text::decimal_text(slab.pool_free_head as u128).as_str());
    r.append("\n");
    r
}

/// `out` shows the slab that the data begins with, or says that there is none.
/// `None` if the search for a best price does not end.
pub open spec fn shows_slab(data: Option<Seq<u8>>, out: Option<Seq<char>>) -> bool {
    match data {
        Some(d) => if d.len() >= Slab::LEN {
            exists|s: Slab| #[trigger]
                s.laid_out(d.take(Slab::LEN as int)) && if searchable(s.bid_tree, true)
                    && searchable(s.ask_tree, false) {
                    out == Some(slab_text(s))
                } else {
                    out is None
                }
        } else {
            out == Some("  (slab account exists but is wrong size)\n"@)
        },
        None => out == Some("  (slab account does not exist yet)\n"@),
    }
}

/// Shows the slab in the data of its account, if there is one. `None` if the
/// search for a best price does not end.
pub fn show_slab(data: Option<&[u8]>) -> (r: Option<String>)
    ensures
        shows_slab(
            common::opt_data(data),
            match r {
                Some(t) => Some(t@),
                None => None,
            },
        ),
{
    let d: &[u8] = match data {
        Some(d) => d,
        None => return Some("  (slab account does not exist yet)\n".to_owned()),
    };
    let slab: Slab = match bytes::prefix(d, Slab::LEN) {
        Some(d) => match Slab::from_bytes(d) {
            Some(v) => v,
            None => vstd::pervasive::unreached(),
        },
        None => return Some("  (slab account exists but is wrong size)\n".to_owned()),
    };
    if is_searchable(&slab.bid_tree, true) && is_searchable(&slab.ask_tree, false) {
        Some(print_slab(&slab))
    } else {
        None
    }
}

/// Some page line reads `price=` and `orders=` for a level of the tree whose price
/// no price of the tree is above, if `want_max`, or below.
pub open spec fn shows_best(page: Seq<char>, label: Seq<char>, tree: CritbitTree, want_max: bool, next: Seq<
    char,
>) -> bool {
    exists|before: Seq<char>, leaf: int, after: Seq<char>|
        #![trigger before + after, tree.nodes@[leaf]]
        {
            &&& 0 <= leaf < tree.nodes@.len()
            &&& tree.nodes@[leaf].tag == tree_tag::LEAF
            &&& page == before + (label + ("price="@ + text::decimal(tree.nodes@[leaf].price as nat)
                + " orders="@ + text::decimal(tree.nodes@[leaf].order_count as nat)) + next) + after
            &&& prices(tree.nodes@, tree.root as int, 256).contains(tree.nodes@[leaf].price)
            &&& forall|p: u64| #[trigger]
                prices(tree.nodes@, tree.root as int, 256).contains(p) ==> if want_max {
                    p <= tree.nodes@[leaf].price
                } else {
                    p >= tree.nodes@[leaf].price
                }
        }
}

proof fn lemma_best_text(tree: CritbitTree, want_max: bool) -> (leaf: int)
    requires
        critbit(tree.nodes@, tree.root as int, 256),
    ensures
        searchable(tree, want_max),
        0 <= leaf < tree.nodes@.len(),
        tree.nodes@[leaf].tag == tree_tag::LEAF,
        best_text(tree, want_max) == "price="@ + text::decimal(tree.nodes@[leaf].price as nat)
            + " orders="@ + text::decimal(tree.nodes@[leaf].order_count as nat),
        prices(tree.nodes@, tree.root as int, 256).contains(tree.nodes@[leaf].price),
        forall|p: u64| #[trigger]
            prices(tree.nodes@, tree.root as int, 256).contains(p) ==> if want_max {
                p <= tree.nodes@[leaf].price
            } else {
                p >= tree.nodes@[leaf].price
            },
{
    search_finds_the_best(tree.nodes@, tree.root as int, want_max, 256);
    best_leaf(tree, want_max)->Some_0
}

/// The best bid on the page of a slab is a price of the bid tree, and no price of
/// that tree is above it; the best ask is a price of the ask tree, and no price of
/// that tree is below it. A side without orders is called empty.
pub proof fn best_prices_are_shown(slab: Slab)
    ensures
        critbit(slab.bid_tree.nodes@, slab.bid_tree.root as int, 256) ==> shows_best(
            slab_text(slab),
            "\n  best bid:      "@,
            slab.bid_tree,
            true,
            "\n  best ask:      "@,
        ),
        critbit(slab.ask_tree.nodes@, slab.ask_tree.root as int, 256) ==> shows_best(
            slab_text(slab),
            "\n  best ask:      "@,
            slab.ask_tree,
            false,
            "\n  bid levels:    "@,
        ),
        slab.bid_tree.root == 0xffff ==> exists|before: Seq<char>, after: Seq<char>| #[trigger]
            (before + ("\n  best bid:      "@ + "(empty)"@ + "\n  best ask:      "@) + after)
                == slab_text(slab),
        slab.ask_tree.root == 0xffff ==> exists|before: Seq<char>, after: Seq<char>| #[trigger]
            (before + ("\n  best ask:      "@ + "(empty)"@ + "\n  bid levels:    "@) + after)
                == slab_text(slab),
{
    let head = "  next_order_id: "@ + text::decimal(slab.next_order_id as nat)
        + "\n  active_count:  "@ + text::decimal(slab.active_count as nat)
        + "\n  bump:          "@ + text::decimal(slab.bump as nat) + "\n  market:        "@
        + address::key_text(slab.market@);
    let bid = best_text(slab.bid_tree, true);
    let asks = slab.ask_tree;
    let ask = best_text(asks, false);
    let tail = text::decimal(leaf_count(slab.bid_tree.nodes@)) + " (tree-node pool free head "@
        + text::decimal(slab.bid_tree.free_head as nat) + ")\n  ask levels:    "@ + text::decimal(
        leaf_count(slab.ask_tree.nodes@),
    ) + " (tree-node pool free head "@ + text::decimal(slab.ask_tree.free_head as nat)
        + ")\n  order-pool free head: "@ + text::decimal(slab.pool_free_head as nat) + "\n"@;
    let page = slab_text(slab);
    let after_bid = ask + "\n  bid levels:    "@ + tail;
    let before_ask = head + "\n  best bid:      "@ + bid;
    assert(page =~= head + ("\n  best bid:      "@ + bid + "\n  best ask:      "@) + after_bid);
    assert(page =~= before_ask + ("\n  best ask:      "@ + ask + "\n  bid levels:    "@) + tail);
    if critbit(slab.bid_tree.nodes@, slab.bid_tree.root as int, 256) {
        let leaf = lemma_best_text(slab.bid_tree, true);
        assert(head + after_bid == head + after_bid);
        assert(slab.bid_tree.nodes@[leaf].tag == tree_tag::LEAF);
    }
    if critbit(slab.ask_tree.nodes@, slab.ask_tree.root as int, 256) {
        let leaf = lemma_best_text(asks, false);
        assert(before_ask + tail == before_ask + tail);
        assert(slab.ask_tree.nodes@[leaf].tag == tree_tag::LEAF);
    }
}

/// A path through the pool: it starts at `at`, goes from each node to its child on one
/// side, meets no leaf on the way, and ends at one.
pub open spec fn leads_to_leaf(nodes: Seq<TreeNode>, at: int, to_the_right: bool, path: Seq<int>) -> bool {
    &&& path.len() > 0
    &&& path[0] == at
    &&& forall|i: int| 0 <= i < path.len() ==> 0 <= #[trigger] path[i] < nodes.len()
    &&& forall|i: int|
        0 <= i < path.len() - 1 ==> nodes[#[trigger] path[i]].tag != 2 && path[i + 1] == (
        if to_the_right {
            nodes[path[i]].right_child as int
        } else {
            nodes[path[i]].left_child as int
        })
    &&& nodes[path.last()].tag == 2
}

/// The search for the highest price goes to the right at every node, that for the
/// lowest to the left, up to the first leaf; in whatever tree there is such a way,
/// it finds that leaf.
pub proof fn searches_keep_to_one_side(
    nodes: Seq<TreeNode>,
    at: int,
    want_max: bool,
    steps: nat,
    path: Seq<int>,
)
    requires
        leads_to_leaf(nodes, at, want_max, path),
        path.len() <= steps + 1,
    ensures
        descent(nodes, at, want_max, steps) == Some(path.last()),
    decreases steps,
{
    if path.len() > 1 {
        let rest = path.skip(1);
        assert(path[0] == at);
        assert(rest[0] == path[1]);
        assert forall|i: int| 0 <= i < rest.len() implies 0 <= #[trigger] rest[i] < nodes.len() by {
            assert(rest[i] == path[i + 1]);
        }
        assert forall|i: int| 0 <= i < rest.len() - 1 implies nodes[#[trigger] rest[i]].tag != 2
            && rest[i + 1] == (if want_max {
            nodes[rest[i]].right_child as int
        } else {
            nodes[rest[i]].left_child as int
        }) by {
            assert(rest[i] == path[i + 1]);
            assert(rest[i + 1] == path[i + 2]);
        }
        assert(rest.last() == path.last());
        searches_keep_to_one_side(nodes, rest[0], want_max, (steps - 1) as nat, rest);
    } else {
        assert(path.last() == path[0]);
    }
}

/// A search that finds a leaf went such a way.
pub proof fn found_leaves_are_on_one_side(
    nodes: Seq<TreeNode>,
    at: int,
    want_max: bool,
    steps: nat,
) -> (path: Seq<int>)
    requires
        descent(nodes, at, want_max, steps) is Some,
    ensures
        leads_to_leaf(nodes, at, want_max, path),
        path.len() <= steps + 1,
        descent(nodes, at, want_max, steps) == Some(path.last()),
    decreases steps,
{
    if nodes[at].tag == tree_tag::LEAF {
        seq![at]
    } else {
        let rest = found_leaves_are_on_one_side(
            nodes,
            child(nodes[at], want_max),
            want_max,
            (steps - 1) as nat,
        );
        let path = seq![at] + rest;
        assert forall|i: int| 0 <= i < path.len() implies 0 <= #[trigger] path[i] < nodes.len() by {
            if i > 0 {
                assert(path[i] == rest[i - 1]);
            }
        }
        assert forall|i: int| 0 <= i < path.len() - 1 implies nodes[#[trigger] path[i]].tag != 2
            && path[i + 1] == (if want_max {
            nodes[path[i]].right_child as int
        } else {
            nodes[path[i]].left_child as int
        }) by {
            assert(path[i + 1] == rest[i]);
            if i > 0 {
                assert(path[i] == rest[i - 1]);
            }
        }
        assert(path.last() == rest.last());
        path
    }
}

/// The best level of a tree that is not empty is that of the leaf on this way; a
/// tree without such a way, up to 256 steps long, cannot be searched.
pub proof fn levels_are_found_on_one_side(tree: CritbitTree, want_max: bool, path: Seq<int>)
    ensures
        tree.root == 0xffff ==> searchable(tree, want_max) && best_text(tree, want_max)
            == "(empty)"@,
        tree.root != 0xffff && leads_to_leaf(tree.nodes@, tree.root as int, want_max, path)
            && path.len() <= 257 ==> searchable(tree, want_max) && best_leaf(tree, want_max)
            == Some(path.last()) && best_text(tree, want_max) == "price="@ + text::decimal(
            tree.nodes@[path.last()].price as nat,
        ) + " orders="@ + text::decimal(tree.nodes@[path.last()].order_count as nat),
        tree.root != 0xffff && searchable(tree, want_max) ==> exists|way: Seq<int>| #[trigger]
            leads_to_leaf(tree.nodes@, tree.root as int, want_max, way) && way.len() <= 257,
{
    if leads_to_leaf(tree.nodes@, tree.root as int, want_max, path) && path.len() <= 257 {
        searches_keep_to_one_side(tree.nodes@, tree.root as int, want_max, 256, path);
    }
    if tree.root != 0xffff && searchable(tree, want_max) {
        let way = found_leaves_are_on_one_side(tree.nodes@, tree.root as int, want_max, 256);
    }
}

/// The number of levels is that of the nodes that are leaves.
pub proof fn levels_are_leaves(nodes: Seq<TreeNode>)
    ensures
        leaf_count(nodes) == nodes.filter(|n: TreeNode| n.tag == tree_tag::LEAF).len(),
    decreases nodes.len(),
{
    reveal(Seq::filter);
    if nodes.len() > 0 {
        levels_are_leaves(nodes.drop_last());
    }
}

/// A slab whose trees are critbit trees, or empty, is shown; the page is about
/// the slab in the account. Without one it says so.
pub proof fn slabs_are_shown_from_their_account(s: Slab, data: Seq<u8>, out: Option<Seq<char>>)
    ensures
        data.len() >= Slab::LEN && s.laid_out(data.take(Slab::LEN as int)) && shows_slab(
            Some(data),
            out,
        ) && (s.bid_tree.root == 0xffff || critbit(
            s.bid_tree.nodes@,
            s.bid_tree.root as int,
            256,
        )) && (s.ask_tree.root == 0xffff || critbit(
            s.ask_tree.nodes@,
            s.ask_tree.root as int,
            256,
        )) ==> out == Some(slab_text(s)),
        data.len() < Slab::LEN && shows_slab(Some(data), out) ==> out == Some(
            "  (slab account exists but is wrong size)\n"@,
        ),
        shows_slab(None, out) ==> out == Some("  (slab account does not exist yet)\n"@),
{
    let b = data.take(Slab::LEN as int);
    assert forall|x: Slab| #[trigger] x.laid_out(b) && s.laid_out(b) implies x == s by {
        s.value_is_unique(x, b);
    }
    if critbit(s.bid_tree.nodes@, s.bid_tree.root as int, 256) {
        lemma_best_text(s.bid_tree, true);
    }
    if critbit(s.ask_tree.nodes@, s.ask_tree.root as int, 256) {
        lemma_best_text(s.ask_tree, false);
    }
}

/// What `slab` prints before it sends anything.
pub open spec fn slab_header_text(
    rpc: Seq<char>,
    payer: Seq<u8>,
    program: Seq<u8>,
    market: Seq<u8>,
    slab: Seq<u8>,
    bump: nat,
) -> Seq<char> {
    "rpc:        "@ + rpc + "\npayer/user: "@ + address::key_text(payer) + "\nprogram:    "@
        + address::key_text(program) + "\nmarket:     "@ + address::key_text(market) + "\nslab PDA:   "@
        + address::key_text(slab) + "  (bump "@ + text::decimal(bump) + ")\n\n"@
}

/// What `slab` prints before it sends anything.
pub fn slab_header(
    rpc: &str,
    payer: &[u8; 32],
    program: &[u8; 32],
    market: &[u8; 32],
    slab: &[u8; 32],
    bump: u8,
) -> (r: String)
    ensures
        r@ == slab_header_text(rpc@, payer@, program@, market@, slab@, bump as nat),
{
    let mut r: String = "rpc:        ".to_owned();
    r.append(rpc);
    r.append("\npayer/user: ");
    r.append(address::show_key(payer).as_str());
    r.append("\nprogram:    ");
    r.append(address::show_key(program).as_str());
    r.append("\nmarket:     ");
    r.append(address::show_key(market).as_str());
    r.append("\nslab PDA:   ");
    r.append(address::show_key(slab).as_str());
    r.append("  (bump ");
    r.append(text::decimal_text(bump as u128).as_str());
    r.append(")\n\n");
    r
}

} // verus!
