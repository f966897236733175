//! The slab order book: a critbit tree of price levels per side, over a
//! shared pool of orders.

use vstd::prelude::*;

use crate::bytes;

verus! {

/// How many orders the pool of a `Slab` holds.
pub const SLAB_POOL_CAPACITY: usize = 1024;

/// How many nodes the tree of one side holds.
pub const SLAB_TREE_CAPACITY: usize = 256;

/// "No index" in a pool: ends free lists and marks an empty tree.
pub const SLAB_NONE_INDEX: u16 = 0xffff;

/// Fixed 8-byte tag identifying a `Slab` account.
///
/// The bytes read as text in a hex dump: `SLAB\0\0\0\0`.
pub const SLAB_DISCRIMINATOR: [u8; 8] = [0x53, 0x4c, 0x41, 0x42, 0x00, 0x00, 0x00, 0x00];

/// One order in the pool, linked into the queue of its price level.
///
/// ```text
///     0  order_id  u64       given out by the slab
///     8  owner     [u8; 32]
///    40  size      u64       what is left of the order
///    48  next      u16       next in the queue or free list
///    50  prev      u16       previous in the queue
///    52  _pad      [u8; 12]
///    64  total
/// ```
#[derive(Clone, Copy)]
pub struct OrderNode {
    pub order_id: u64,
    pub owner: [u8; 32],
    pub size: u64,
    pub next: u16,
    pub prev: u16,
    pub _pad: [u8; 12],
}

impl OrderNode {
    /// Size of the account data in bytes.
    pub const LEN: usize = 64;

    /// `b` is this value laid out field by field at the offsets above.
    pub open spec fn laid_out(self, b: Seq<u8>) -> bool {
        &&& b.len() == OrderNode::LEN
        &&& bytes::u64_at(b, 0) == self.order_id
        &&& bytes::part(b, 8, 32) == self.owner@
        &&& bytes::u64_at(b, 40) == self.size
        &&& bytes::u16_at(b, 48) == self.next
        &&& bytes::u16_at(b, 50) == self.prev
        &&& bytes::part(b, 52, 12) == self._pad@
    }

    /// The account data that holds this value.
    pub fn to_bytes(&self) -> (r: Vec<u8>)
        ensures
            self.laid_out(r@),
    {
        let mut out: Vec<u8> = Vec::with_capacity(OrderNode::LEN);
        bytes::push_u64(&mut out, self.order_id);
        bytes::push_bytes(&mut out, &self.owner);
        bytes::push_u64(&mut out, self.size);
        bytes::push_u16(&mut out, self.next);
        bytes::push_u16(&mut out, self.prev);
        bytes::push_bytes(&mut out, &self._pad);
        proof {
            bytes::lemma_pow256_values();
            bytes::lemma_le_round_trip(self.order_id as nat, 8);
            bytes::lemma_le_round_trip(self.size as nat, 8);
            bytes::lemma_le_round_trip(self.next as nat, 2);
            bytes::lemma_le_round_trip(self.prev as nat, 2);
            assert(bytes::part(out@, 0, 8) =~= bytes::le_bytes(self.order_id as nat, 8));
            assert(bytes::part(out@, 8, 32) =~= self.owner@);
            assert(bytes::part(out@, 40, 8) =~= bytes::le_bytes(self.size as nat, 8));
            assert(bytes::part(out@, 48, 2) =~= bytes::le_bytes(self.next as nat, 2));
            assert(bytes::part(out@, 50, 2) =~= bytes::le_bytes(self.prev as nat, 2));
            assert(bytes::part(out@, 52, 12) =~= self._pad@);
        }
        out
    }

    /// Reads account data back; `None` if it is not exactly `LEN` bytes.
    pub fn from_bytes(b: &[u8]) -> (r: Option<OrderNode>)
        ensures
            r is Some <==> b@.len() == OrderNode::LEN,
            r matches Some(v) ==> v.laid_out(b@),
    {
        if b.len() != OrderNode::LEN {
            return None;
        }
        Some(
            OrderNode {
                order_id: bytes::read_u64(b, 0),
                owner: bytes::read_array(b, 8),
                size: bytes::read_u64(b, 40),
                next: bytes::read_u16(b, 48),
                prev: bytes::read_u16(b, 50),
                _pad: bytes::read_array(b, 52),
            },
        )
    }

    /// The value whose account data is all zero bytes.
    pub fn zeroed() -> (r: OrderNode)
        ensures
            r.laid_out(Seq::new(OrderNode::LEN as nat, |i: int| 0u8)),
    {
        let r: OrderNode = OrderNode {
            order_id: 0,
            owner: [0u8; 32],
            size: 0,
            next: 0,
            prev: 0,
            _pad: [0u8; 12],
        };
        proof {
            let z: Seq<u8> = Seq::new(OrderNode::LEN as nat, |i: int| 0u8);
            bytes::lemma_zero_value(bytes::part(z, 0, 8));
            assert(bytes::part(z, 8, 32) =~= r.owner@);
            bytes::lemma_zero_value(bytes::part(z, 40, 8));
            bytes::lemma_zero_value(bytes::part(z, 48, 2));
            bytes::lemma_zero_value(bytes::part(z, 50, 2));
            assert(bytes::part(z, 52, 12) =~= r._pad@);
        }
        r
    }

    /// Account data determines the value: no two values share their bytes.
    pub proof fn value_is_unique(self, other: OrderNode, b: Seq<u8>)
        requires
            self.laid_out(b),
            other.laid_out(b),
        ensures
            self == other,
    {
        assert(self.owner =~= other.owner);
        assert(self._pad =~= other._pad);
    }

    /// The value determines every byte of the account data.
    pub proof fn bytes_are_unique(self, a: Seq<u8>, b: Seq<u8>)
        requires
            self.laid_out(a),
            self.laid_out(b),
        ensures
            a == b,
    {
        assert(bytes::part(a, 0, 0) =~= bytes::part(b, 0, 0));
        bytes::lemma_agree_value(a, b, 0, 8);
        bytes::lemma_agree_bytes(a, b, 8, 32);
        bytes::lemma_agree_value(a, b, 40, 8);
        bytes::lemma_agree_value(a, b, 48, 2);
        bytes::lemma_agree_value(a, b, 50, 2);
        bytes::lemma_agree_bytes(a, b, 52, 12);
        assert(a =~= bytes::part(a, 0, 64));
        assert(b =~= bytes::part(b, 0, 64));
    }
}

/// One node of a critbit tree. Which fields mean something depends on `tag`.
///
/// ```text
///     0  tag          u8       see `tree_tag`
///     1  split_bit    u8       inner: bit of the price, 0 to 63
///     2  next_free    u16      free: next free node
///     4  left_child   u16      inner: child with the bit clear
///     6  right_child  u16      inner: child with the bit set
///     8  head_node    u16      leaf: first order
///    10  tail_node    u16      leaf: last order
///    12  order_count  u32      leaf: length of the queue
///    16  price        u64      leaf: price of the level
///    24  _pad         [u8; 8]
///    32  total
/// ```
#[derive(Clone, Copy)]
pub struct TreeNode {
    pub tag: u8,
    pub split_bit: u8,
    pub next_free: u16,
    pub left_child: u16,
    pub right_child: u16,
    pub head_node: u16,
    pub tail_node: u16,
    pub order_count: u32,
    pub price: u64,
    pub _pad: [u8; 8],
}

impl TreeNode {
    /// Size of the account data in bytes.
    pub const LEN: usize = 32;

    /// `b` is this value laid out field by field at the offsets above.
    pub open spec fn laid_out(self, b: Seq<u8>) -> bool {
        &&& b.len() == TreeNode::LEN
        &&& b[0] == self.tag
        &&& b[1] == self.split_bit
        &&& bytes::u16_at(b, 2) == self.next_free
        &&& bytes::u16_at(b, 4) == self.left_child
        &&& bytes::u16_at(b, 6) == self.right_child
        &&& bytes::u16_at(b, 8) == self.head_node
        &&& bytes::u16_at(b, 10) == self.tail_node
        &&& bytes::u32_at(b, 12) == self.order_count
        &&& bytes::u64_at(b, 16) == self.price
        &&& bytes::part(b, 24, 8) == self._pad@
    }

    /// The account data that holds this value.
    pub fn to_bytes(&self) -> (r: Vec<u8>)
        ensures
            self.laid_out(r@),
    {
        let mut out: Vec<u8> = Vec::with_capacity(TreeNode::LEN);
        out.push(self.tag);
        out.push(self.split_bit);
        bytes::push_u16(&mut out, self.next_free);
        bytes::push_u16(&mut out, self.left_child);
        bytes::push_u16(&mut out, self.right_child);
        bytes::push_u16(&mut out, self.head_node);
        bytes::push_u16(&mut out, self.tail_node);
        bytes::push_u32(&mut out, self.order_count);
        bytes::push_u64(&mut out, self.price);
        bytes::push_bytes(&mut out, &self._pad);
        proof {
            bytes::lemma_pow256_values();
            bytes::lemma_le_round_trip(self.next_free as nat, 2);
            bytes::lemma_le_round_trip(self.left_child as nat, 2);
            bytes::lemma_le_round_trip(self.right_child as nat, 2);
            bytes::lemma_le_round_trip(self.head_node as nat, 2);
            bytes::lemma_le_round_trip(self.tail_node as nat, 2);
            bytes::lemma_le_round_trip(self.order_count as nat, 4);
            bytes::lemma_le_round_trip(self.price as nat, 8);
            assert(bytes::part(out@, 2, 2) =~= bytes::le_bytes(self.next_free as nat, 2));
            assert(bytes::part(out@, 4, 2) =~= bytes::le_bytes(self.left_child as nat, 2));
            assert(bytes::part(out@, 6, 2) =~= bytes::le_bytes(self.right_child as nat, 2));
            assert(bytes::part(out@, 8, 2) =~= bytes::le_bytes(self.head_node as nat, 2));
            assert(bytes::part(out@, 10, 2) =~= bytes::le_bytes(self.tail_node as nat, 2));
            assert(bytes::part(out@, 12, 4) =~= bytes::le_bytes(self.order_count as nat, 4));
            assert(bytes::part(out@, 16, 8) =~= bytes::le_bytes(self.price as nat, 8));
            assert(bytes::part(out@, 24, 8) =~= self._pad@);
        }
        out
    }

    /// Reads account data back; `None` if it is not exactly `LEN` bytes.
    pub fn from_bytes(b: &[u8]) -> (r: Option<TreeNode>)
        ensures
            r is Some <==> b@.len() == TreeNode::LEN,
            r matches Some(v) ==> v.laid_out(b@),
    {
        if b.len() != TreeNode::LEN {
            return None;
        }
        Some(
            TreeNode {
                tag: b[0],
                split_bit: b[1],
                next_free: bytes::read_u16(b, 2),
                left_child: bytes::read_u16(b, 4),
                right_child: bytes::read_u16(b, 6),
                head_node: bytes::read_u16(b, 8),
                tail_node: bytes::read_u16(b, 10),
                order_count: bytes::read_u32(b, 12),
                price: bytes::read_u64(b, 16),
                _pad: bytes::read_array(b, 24),
            },
        )
    }

    /// The value whose account data is all zero bytes.
    pub fn zeroed() -> (r: TreeNode)
        ensures
            r.laid_out(Seq::new(TreeNode::LEN as nat, |i: int| 0u8)),
    {
        let r: TreeNode = TreeNode {
            tag: 0,
            split_bit: 0,
            next_free: 0,
            left_child: 0,
            right_child: 0,
            head_node: 0,
            tail_node: 0,
            order_count: 0,
            price: 0,
            _pad: [0u8; 8],
        };
        proof {
            let z: Seq<u8> = Seq::new(TreeNode::LEN as nat, |i: int| 0u8);
            bytes::lemma_zero_value(bytes::part(z, 2, 2));
            bytes::lemma_zero_value(bytes::part(z, 4, 2));
            bytes::lemma_zero_value(bytes::part(z, 6, 2));
            bytes::lemma_zero_value(bytes::part(z, 8, 2));
            bytes::lemma_zero_value(bytes::part(z, 10, 2));
            bytes::lemma_zero_value(bytes::part(z, 12, 4));
            bytes::lemma_zero_value(bytes::part(z, 16, 8));
            assert(bytes::part(z, 24, 8) =~= r._pad@);
        }
        r
    }

    /// Account data determines the value: no two values share their bytes.
    pub proof fn value_is_unique(self, other: TreeNode, b: Seq<u8>)
        requires
            self.laid_out(b),
            other.laid_out(b),
        ensures
            self == other,
    {
        assert(self._pad =~= other._pad);
    }

    /// The value determines every byte of the account data.
    pub proof fn bytes_are_unique(self, a: Seq<u8>, b: Seq<u8>)
        requires
            self.laid_out(a),
            self.laid_out(b),
        ensures
            a == b,
    {
        assert(bytes::part(a, 0, 0) =~= bytes::part(b, 0, 0));
        assert(bytes::part(a, 0, 1) =~= bytes::part(b, 0, 1));
        bytes::lemma_agree_bytes(a, b, 0, 1);
        assert(bytes::part(a, 1, 1) =~= bytes::part(b, 1, 1));
        bytes::lemma_agree_bytes(a, b, 1, 1);
        bytes::lemma_agree_value(a, b, 2, 2);
        bytes::lemma_agree_value(a, b, 4, 2);
        bytes::lemma_agree_value(a, b, 6, 2);
        bytes::lemma_agree_value(a, b, 8, 2);
        bytes::lemma_agree_value(a, b, 10, 2);
        bytes::lemma_agree_value(a, b, 12, 4);
        bytes::lemma_agree_value(a, b, 16, 8);
        bytes::lemma_agree_bytes(a, b, 24, 8);
        assert(a =~= bytes::part(a, 0, 32));
        assert(b =~= bytes::part(b, 0, 32));
    }
}

/// The price levels of one side of the book.
///
/// ```text
///     0  root       u16                             SLAB_NONE_INDEX if empty
///     2  free_head  u16                             first free node
///     4  _pad       [u8; 4]
///     8  nodes      [TreeNode; SLAB_TREE_CAPACITY]
///  8200  total
/// ```
#[derive(Clone, Copy)]
pub struct CritbitTree {
    pub root: u16,
    pub free_head: u16,
    pub _pad: [u8; 4],
    pub nodes: [TreeNode; SLAB_TREE_CAPACITY],
}

impl CritbitTree {
    /// Size of the account data in bytes.
    pub const LEN: usize = 8200;

    /// `b` is this value laid out field by field at the offsets above.
    pub open spec fn laid_out(self, b: Seq<u8>) -> bool {
        &&& b.len() == CritbitTree::LEN
        &&& bytes::u16_at(b, 0) == self.root
        &&& bytes::u16_at(b, 2) == self.free_head
        &&& bytes::part(b, 4, 4) == self._pad@
        &&& forall|i: int|
            0 <= i < SLAB_TREE_CAPACITY ==> (#[trigger] self.nodes@[i]).laid_out(
                bytes::part(b, 8 + 32 * i, 32),
            )
    }

    /// The account data that holds this value.
    pub fn to_bytes(&self) -> (r: Vec<u8>)
        ensures
            self.laid_out(r@),
    {
        let mut out: Vec<u8> = Vec::with_capacity(CritbitTree::LEN);
        bytes::push_u16(&mut out, self.root);
        bytes::push_u16(&mut out, self.free_head);
        bytes::push_bytes(&mut out, &self._pad);
        let ghost header = out@;
        proof {
            bytes::lemma_pow256_values();
            bytes::lemma_le_round_trip(self.root as nat, 2);
            bytes::lemma_le_round_trip(self.free_head as nat, 2);
            assert(bytes::part(header, 0, 2) =~= bytes::le_bytes(self.root as nat, 2));
            assert(bytes::part(header, 2, 2) =~= bytes::le_bytes(self.free_head as nat, 2));
            assert(bytes::part(header, 4, 4) =~= self._pad@);
        }
        let mut i: usize = 0;
        while i < SLAB_TREE_CAPACITY
            invariant
                i <= SLAB_TREE_CAPACITY,
                header.len() == 8,
                out@.len() == 8 + 32 * i,
                bytes::part(out@, 0, 8) == header,
                forall|j: int|
                    0 <= j < i ==> (#[trigger] self.nodes@[j]).laid_out(
                        bytes::part(out@, 8 + 32 * j, 32),
                    ),
            decreases SLAB_TREE_CAPACITY - i,
        {
            let ghost before = out@;
            let item: Vec<u8> = self.nodes[i].to_bytes();
            bytes::push_bytes(&mut out, &item);
            assert(bytes::part(out@, 0, 8) =~= bytes::part(before, 0, 8));
            assert forall|j: int| 0 <= j < i implies (#[trigger] self.nodes@[j]).laid_out(
                bytes::part(out@, 8 + 32 * j, 32),
            ) by {
                assert(bytes::part(out@, 8 + 32 * j, 32) =~= bytes::part(
                    before,
                    8 + 32 * j,
                    32,
                ));
            }
            assert(bytes::part(out@, 8 + 32 * i, 32) =~= item@);
            i += 1;
        }
        proof {
            assert(bytes::part(out@, 0, 2) =~= bytes::part(header, 0, 2));
            assert(bytes::part(out@, 2, 2) =~= bytes::part(header, 2, 2));
            assert(bytes::part(out@, 4, 4) =~= bytes::part(header, 4, 4));
        }
        out
    }

    /// Reads account data back; `None` if it is not exactly `LEN` bytes.
    pub fn from_bytes(b: &[u8]) -> (r: Option<CritbitTree>)
        ensures
            r is Some <==> b@.len() == CritbitTree::LEN,
            r matches Some(v) ==> v.laid_out(b@),
    {
        if b.len() != CritbitTree::LEN {
            return None;
        }
        let mut nodes: [TreeNode; SLAB_TREE_CAPACITY] = [TreeNode::zeroed(); SLAB_TREE_CAPACITY];
        let mut i: usize = 0;
        while i < SLAB_TREE_CAPACITY
            invariant
                i <= SLAB_TREE_CAPACITY,
                b@.len() == CritbitTree::LEN,
                forall|j: int|
                    0 <= j < i ==> (#[trigger] nodes@[j]).laid_out(
                        bytes::part(b@, 8 + 32 * j, 32),
                    ),
            decreases SLAB_TREE_CAPACITY - i,
        {
            let at: usize = 8 + 32 * i;
            match TreeNode::from_bytes(&b[at..at + 32]) {
                Some(v) => {
                    nodes[i] = v;
                },
                None => return None,
            }
            i += 1;
        }
        Some(
            CritbitTree {
                root: bytes::read_u16(b, 0),
                free_head: bytes::read_u16(b, 2),
                _pad: bytes::read_array(b, 4),
                nodes,
            },
        )
    }

    /// The value whose account data is all zero bytes.
    pub fn zeroed() -> (r: CritbitTree)
        ensures
            r.laid_out(Seq::new(CritbitTree::LEN as nat, |i: int| 0u8)),
    {
        let r: CritbitTree = CritbitTree {
            root: 0,
            free_head: 0,
            _pad: [0u8; 4],
            nodes: [TreeNode::zeroed(); SLAB_TREE_CAPACITY],
        };
        proof {
            let z: Seq<u8> = Seq::new(CritbitTree::LEN as nat, |i: int| 0u8);
            bytes::lemma_zero_value(bytes::part(z, 0, 2));
            bytes::lemma_zero_value(bytes::part(z, 2, 2));
            assert(bytes::part(z, 4, 4) =~= r._pad@);
            assert forall|i: int| 0 <= i < SLAB_TREE_CAPACITY implies (#[trigger] r.nodes@[i]).laid_out(
                bytes::part(z, 8 + 32 * i, 32),
            ) by {
                assert(bytes::part(z, 8 + 32 * i, 32) =~= Seq::new(
                    TreeNode::LEN as nat,
                    |i: int| 0u8,
                ));
            }
        }
        r
    }

    /// Account data determines the value: no two values share their bytes.
    pub proof fn value_is_unique(self, other: CritbitTree, b: Seq<u8>)
        requires
            self.laid_out(b),
            other.laid_out(b),
        ensures
            self == other,
    {
        assert(self._pad =~= other._pad);
        assert forall|i: int| 0 <= i < SLAB_TREE_CAPACITY implies self.nodes@[i] == other.nodes@[i] by {
            self.nodes@[i].value_is_unique(
                other.nodes@[i],
                bytes::part(b, 8 + 32 * i, 32),
            );
        }
        assert(self.nodes =~= other.nodes);
    }

    /// The value determines every byte of the account data.
    pub proof fn bytes_are_unique(self, a: Seq<u8>, b: Seq<u8>)
        requires
            self.laid_out(a),
            self.laid_out(b),
        ensures
            a == b,
    {
        assert(bytes::part(a, 0, 0) =~= bytes::part(b, 0, 0));
        bytes::lemma_agree_value(a, b, 0, 2);
        bytes::lemma_agree_value(a, b, 2, 2);
        bytes::lemma_agree_bytes(a, b, 4, 4);
        assert forall|k: int| 8 <= k < CritbitTree::LEN implies a[k] == b[k] by {
            let i = (k - 8) / 32;
            let at = 8 + 32 * i;
            assert(self.nodes@[i].laid_out(bytes::part(a, at, 32)));
            self.nodes@[i].bytes_are_unique(bytes::part(a, at, 32), bytes::part(b, at, 32));
            assert(a[k] == bytes::part(a, at, 32)[k - at]);
            assert(b[k] == bytes::part(b, at, 32)[k - at]);
        }
        assert(bytes::part(a, 8, 8192) =~= bytes::part(b, 8, 8192));
        bytes::lemma_agree_bytes(a, b, 8, 8192);
        assert(a =~= bytes::part(a, 0, 8200));
        assert(b =~= bytes::part(b, 0, 8200));
    }
}

/// The slab order book of one market.
///
/// ```text
///     0  discriminator   [u8; 8]                          SLAB\0\0\0\0
///     8  bump            u8                               PDA bump
///     9  _pad0           [u8; 7]
///    16  market          [u8; 32]
///    48  next_order_id   u64                              grows with every order
///    56  active_count    u32                              live orders, both sides
///    60  pool_free_head  u16                              first free order
///    62  _pad1           [u8; 2]
///    64  bid_tree        CritbitTree
///  8264  ask_tree        CritbitTree
/// 16464  nodes           [OrderNode; SLAB_POOL_CAPACITY]
/// 82000  total
/// ```
#[derive(Clone, Copy)]
pub struct Slab {
    pub discriminator: [u8; 8],
    pub bump: u8,
    pub _pad0: [u8; 7],
    pub market: [u8; 32],
    pub next_order_id: u64,
    pub active_count: u32,
    pub pool_free_head: u16,
    pub _pad1: [u8; 2],
    pub bid_tree: CritbitTree,
    pub ask_tree: CritbitTree,
    pub nodes: [OrderNode; SLAB_POOL_CAPACITY],
}

impl Slab {
    /// Size of the account data in bytes.
    pub const LEN: usize = 82000;

    /// `b` is this value laid out field by field at the offsets above.
    pub open spec fn laid_out(self, b: Seq<u8>) -> bool {
        &&& b.len() == Slab::LEN
        &&& bytes::part(b, 0, 8) == self.discriminator@
        &&& b[8] == self.bump
        &&& bytes::part(b, 9, 7) == self._pad0@
        &&& bytes::part(b, 16, 32) == self.market@
        &&& bytes::u64_at(b, 48) == self.next_order_id
        &&& bytes::u32_at(b, 56) == self.active_count
        &&& bytes::u16_at(b, 60) == self.pool_free_head
        &&& bytes::part(b, 62, 2) == self._pad1@
        &&& self.bid_tree.laid_out(bytes::part(b, 64, 8200))
        &&& self.ask_tree.laid_out(bytes::part(b, 8264, 8200))
        &&& forall|i: int|
            0 <= i < SLAB_POOL_CAPACITY ==> (#[trigger] self.nodes@[i]).laid_out(
                bytes::part(b, 16464 + 64 * i, 64),
            )
    }

    /// The account data that holds this value.
    pub fn to_bytes(&self) -> (r: Vec<u8>)
        ensures
            self.laid_out(r@),
    {
        let mut out: Vec<u8> = Vec::with_capacity(Slab::LEN);
        bytes::push_bytes(&mut out, &self.discriminator);
        out.push(self.bump);
        bytes::push_bytes(&mut out, &self._pad0);
        bytes::push_bytes(&mut out, &self.market);
        bytes::push_u64(&mut out, self.next_order_id);
        bytes::push_u32(&mut out, self.active_count);
        bytes::push_u16(&mut out, self.pool_free_head);
        bytes::push_bytes(&mut out, &self._pad1);
        let bid_tree: Vec<u8> = self.bid_tree.to_bytes();
        bytes::push_bytes(&mut out, &bid_tree);
        let ask_tree: Vec<u8> = self.ask_tree.to_bytes();
        bytes::push_bytes(&mut out, &ask_tree);
        let ghost header = out@;
        proof {
            bytes::lemma_pow256_values();
            bytes::lemma_le_round_trip(self.next_order_id as nat, 8);
            bytes::lemma_le_round_trip(self.active_count as nat, 4);
            bytes::lemma_le_round_trip(self.pool_free_head as nat, 2);
            assert(bytes::part(header, 0, 8) =~= self.discriminator@);
            assert(bytes::part(header, 9, 7) =~= self._pad0@);
            assert(bytes::part(header, 16, 32) =~= self.market@);
            assert(bytes::part(header, 48, 8) =~= bytes::le_bytes(self.next_order_id as nat, 8));
            assert(bytes::part(header, 56, 4) =~= bytes::le_bytes(self.active_count as nat, 4));
            assert(bytes::part(header, 60, 2) =~= bytes::le_bytes(self.pool_free_head as nat, 2));
            assert(bytes::part(header, 62, 2) =~= self._pad1@);
            assert(bytes::part(header, 64, 8200) =~= bid_tree@);
            assert(bytes::part(header, 8264, 8200) =~= ask_tree@);
        }
        let mut i: usize = 0;
        while i < SLAB_POOL_CAPACITY
            invariant
                i <= SLAB_POOL_CAPACITY,
                header.len() == 16464,
                out@.len() == 16464 + 64 * i,
                bytes::part(out@, 0, 16464) == header,
                forall|j: int|
                    0 <= j < i ==> (#[trigger] self.nodes@[j]).laid_out(
                        bytes::part(out@, 16464 + 64 * j, 64),
                    ),
            decreases SLAB_POOL_CAPACITY - i,
        {
            let ghost before = out@;
            let item: Vec<u8> = self.nodes[i].to_bytes();
            bytes::push_bytes(&mut out, &item);
            assert(bytes::part(out@, 0, 16464) =~= bytes::part(before, 0, 16464));
            assert forall|j: int| 0 <= j < i implies (#[trigger] self.nodes@[j]).laid_out(
                bytes::part(out@, 16464 + 64 * j, 64),
            ) by {
                assert(bytes::part(out@, 16464 + 64 * j, 64) =~= bytes::part(
                    before,
                    16464 + 64 * j,
                    64,
                ));
            }
            assert(bytes::part(out@, 16464 + 64 * i, 64) =~= item@);
            i += 1;
        }
        proof {
            assert(bytes::part(out@, 0, 8) =~= bytes::part(header, 0, 8));
            assert(out@[8] == header[8]);
            assert(bytes::part(out@, 9, 7) =~= bytes::part(header, 9, 7));
            assert(bytes::part(out@, 16, 32) =~= bytes::part(header, 16, 32));
            assert(bytes::part(out@, 48, 8) =~= bytes::part(header, 48, 8));
            assert(bytes::part(out@, 56, 4) =~= bytes::part(header, 56, 4));
            assert(bytes::part(out@, 60, 2) =~= bytes::part(header, 60, 2));
            assert(bytes::part(out@, 62, 2) =~= bytes::part(header, 62, 2));
            assert(bytes::part(out@, 64, 8200) =~= bytes::part(header, 64, 8200));
            assert(bytes::part(out@, 8264, 8200) =~= bytes::part(header, 8264, 8200));
        }
        out
    }

    /// Reads account data back; `None` if it is not exactly `LEN` bytes.
    pub fn from_bytes(b: &[u8]) -> (r: Option<Slab>)
        ensures
            r is Some <==> b@.len() == Slab::LEN,
            r matches Some(v) ==> v.laid_out(b@),
    {
        if b.len() != Slab::LEN {
            return None;
        }
        let bid_tree: CritbitTree = match CritbitTree::from_bytes(&b[64..8264]) {
            Some(v) => v,
            None => return None,
        };
        let ask_tree: CritbitTree = match CritbitTree::from_bytes(&b[8264..16464]) {
            Some(v) => v,
            None => return None,
        };
        let mut nodes: [OrderNode; SLAB_POOL_CAPACITY] = [OrderNode::zeroed(); SLAB_POOL_CAPACITY];
        let mut i: usize = 0;
        while i < SLAB_POOL_CAPACITY
            invariant
                i <= SLAB_POOL_CAPACITY,
                b@.len() == Slab::LEN,
                forall|j: int|
                    0 <= j < i ==> (#[trigger] nodes@[j]).laid_out(
                        bytes::part(b@, 16464 + 64 * j, 64),
                    ),
            decreases SLAB_POOL_CAPACITY - i,
        {
            let at: usize = 16464 + 64 * i;
            match OrderNode::from_bytes(&b[at..at + 64]) {
                Some(v) => {
                    nodes[i] = v;
                },
                None => return None,
            }
            i += 1;
        }
        Some(
            Slab {
                discriminator: bytes::read_array(b, 0),
                bump: b[8],
                _pad0: bytes::read_array(b, 9),
                market: bytes::read_array(b, 16),
                next_order_id: bytes::read_u64(b, 48),
                active_count: bytes::read_u32(b, 56),
                pool_free_head: bytes::read_u16(b, 60),
                _pad1: bytes::read_array(b, 62),
                bid_tree,
                ask_tree,
                nodes,
            },
        )
    }

    /// The value whose account data is all zero bytes.
    pub fn zeroed() -> (r: Slab)
        ensures
            r.laid_out(Seq::new(Slab::LEN as nat, |i: int| 0u8)),
    {
        let bid_tree: CritbitTree = CritbitTree::zeroed();
        let ask_tree: CritbitTree = CritbitTree::zeroed();
        let r: Slab = Slab {
            discriminator: [0u8; 8],
            bump: 0,
            _pad0: [0u8; 7],
            market: [0u8; 32],
            next_order_id: 0,
            active_count: 0,
            pool_free_head: 0,
            _pad1: [0u8; 2],
            bid_tree,
            ask_tree,
            nodes: [OrderNode::zeroed(); SLAB_POOL_CAPACITY],
        };
        proof {
            let z: Seq<u8> = Seq::new(Slab::LEN as nat, |i: int| 0u8);
            assert(bytes::part(z, 0, 8) =~= r.discriminator@);
            assert(bytes::part(z, 9, 7) =~= r._pad0@);
            assert(bytes::part(z, 16, 32) =~= r.market@);
            bytes::lemma_zero_value(bytes::part(z, 48, 8));
            bytes::lemma_zero_value(bytes::part(z, 56, 4));
            bytes::lemma_zero_value(bytes::part(z, 60, 2));
            assert(bytes::part(z, 62, 2) =~= r._pad1@);
            assert(bytes::part(z, 64, 8200) =~= Seq::new(CritbitTree::LEN as nat, |i: int| 0u8));
            assert(bytes::part(z, 8264, 8200) =~= Seq::new(CritbitTree::LEN as nat, |i: int| 0u8));
            assert forall|i: int| 0 <= i < SLAB_POOL_CAPACITY implies (#[trigger] r.nodes@[i]).laid_out(
                bytes::part(z, 16464 + 64 * i, 64),
            ) by {
                assert(bytes::part(z, 16464 + 64 * i, 64) =~= Seq::new(
                    OrderNode::LEN as nat,
                    |i: int| 0u8,
                ));
            }
        }
        r
    }

    /// Account data determines the value: no two values share their bytes.
    pub proof fn value_is_unique(self, other: Slab, b: Seq<u8>)
        requires
            self.laid_out(b),
            other.laid_out(b),
        ensures
            self == other,
    {
        assert(self.discriminator =~= other.discriminator);
        assert(self._pad0 =~= other._pad0);
        assert(self.market =~= other.market);
        assert(self._pad1 =~= other._pad1);
        self.bid_tree.value_is_unique(other.bid_tree, bytes::part(b, 64, 8200));
        self.ask_tree.value_is_unique(other.ask_tree, bytes::part(b, 8264, 8200));
        assert forall|i: int| 0 <= i < SLAB_POOL_CAPACITY implies self.nodes@[i] == other.nodes@[i] by {
            self.nodes@[i].value_is_unique(
                other.nodes@[i],
                bytes::part(b, 16464 + 64 * i, 64),
            );
        }
        assert(self.nodes =~= other.nodes);
    }

    /// The value determines every byte of the account data.
    pub proof fn bytes_are_unique(self, a: Seq<u8>, b: Seq<u8>)
        requires
            self.laid_out(a),
            self.laid_out(b),
        ensures
            a == b,
    {
        assert(bytes::part(a, 0, 0) =~= bytes::part(b, 0, 0));
        bytes::lemma_agree_bytes(a, b, 0, 8);
        assert(bytes::part(a, 8, 1) =~= bytes::part(b, 8, 1));
        bytes::lemma_agree_bytes(a, b, 8, 1);
        bytes::lemma_agree_bytes(a, b, 9, 7);
        bytes::lemma_agree_bytes(a, b, 16, 32);
        bytes::lemma_agree_value(a, b, 48, 8);
        bytes::lemma_agree_value(a, b, 56, 4);
        bytes::lemma_agree_value(a, b, 60, 2);
        bytes::lemma_agree_bytes(a, b, 62, 2);
        self.bid_tree.bytes_are_unique(bytes::part(a, 64, 8200), bytes::part(b, 64, 8200));
        bytes::lemma_agree_bytes(a, b, 64, 8200);
        self.ask_tree.bytes_are_unique(bytes::part(a, 8264, 8200), bytes::part(b, 8264, 8200));
        bytes::lemma_agree_bytes(a, b, 8264, 8200);
        assert forall|k: int| 16464 <= k < Slab::LEN implies a[k] == b[k] by {
            let i = (k - 16464) / 64;
            let at = 16464 + 64 * i;
            assert(self.nodes@[i].laid_out(bytes::part(a, at, 64)));
            self.nodes@[i].bytes_are_unique(bytes::part(a, at, 64), bytes::part(b, at, 64));
            assert(a[k] == bytes::part(a, at, 64)[k - at]);
            assert(b[k] == bytes::part(b, at, 64)[k - at]);
        }
        assert(bytes::part(a, 16464, 65536) =~= bytes::part(b, 16464, 65536));
        bytes::lemma_agree_bytes(a, b, 16464, 65536);
        assert(a =~= bytes::part(a, 0, 82000));
        assert(b =~= bytes::part(b, 0, 82000));
    }
}

} // verus!
