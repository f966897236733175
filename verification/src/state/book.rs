//! The flat order book: a fixed array of order slots.

use vstd::prelude::*;

use crate::bytes;

verus! {

/// One resting order.
///
/// ```text
///     0  order_id  u64       given out by the book
///     8  price     u64       quote units per base unit
///    16  size      u64       base units left; 0 marks a free slot
///    24  owner     [u8; 32]  who placed it
///    56  side      u8        see `side`
///    57  _pad      [u8; 7]
///    64  total
/// ```
#[derive(Clone, Copy)]
pub struct Order {
    pub order_id: u64,
    pub price: u64,
    pub size: u64,
    pub owner: [u8; 32],
    pub side: u8,
    pub _pad: [u8; 7],
}

impl Order {
    /// Size of the account data in bytes.
    pub const LEN: usize = 64;

    /// `b` is this value laid out field by field at the offsets above.
    pub open spec fn laid_out(self, b: Seq<u8>) -> bool {
        &&& b.len() == Order::LEN
        &&& bytes::u64_at(b, 0) == self.order_id
        &&& bytes::u64_at(b, 8) == self.price
        &&& bytes::u64_at(b, 16) == self.size
        &&& bytes::part(b, 24, 32) == self.owner@
        &&& b[56] == self.side
        &&& bytes::part(b, 57, 7) == self._pad@
    }

    /// The account data that holds this value.
    pub fn to_bytes(&self) -> (r: Vec<u8>)
        ensures
            self.laid_out(r@),
    {
        let mut out: Vec<u8> = Vec::with_capacity(Order::LEN);
        bytes::push_u64(&mut out, self.order_id);
        bytes::push_u64(&mut out, self.price);
        bytes::push_u64(&mut out, self.size);
        bytes::push_bytes(&mut out, &self.owner);
        out.push(self.side);
        bytes::push_bytes(&mut out, &self._pad);
        proof {
            bytes::lemma_pow256_values();
            bytes::lemma_le_round_trip(self.order_id as nat, 8);
            bytes::lemma_le_round_trip(self.price as nat, 8);
            bytes::lemma_le_round_trip(self.size as nat, 8);
            assert(bytes::part(out@, 0, 8) =~= bytes::le_bytes(self.order_id as nat, 8));
            assert(bytes::part(out@, 8, 8) =~= bytes::le_bytes(self.price as nat, 8));
            assert(bytes::part(out@, 16, 8) =~= bytes::le_bytes(self.size as nat, 8));
            assert(bytes::part(out@, 24, 32) =~= self.owner@);
            assert(bytes::part(out@, 57, 7) =~= self._pad@);
        }
        out
    }

    /// Reads account data back; `None` if it is not exactly `LEN` bytes.
    pub fn from_bytes(b: &[u8]) -> (r: Option<Order>)
        ensures
            r is Some <==> b@.len() == Order::LEN,
            r matches Some(v) ==> v.laid_out(b@),
    {
        if b.len() != Order::LEN {
            return None;
        }
        Some(
            Order {
                order_id: bytes::read_u64(b, 0),
                price: bytes::read_u64(b, 8),
                size: bytes::read_u64(b, 16),
                owner: bytes::read_array(b, 24),
                side: b[56],
                _pad: bytes::read_array(b, 57),
            },
        )
    }

    /// The value whose account data is all zero bytes.
    pub fn zeroed() -> (r: Order)
        ensures
            r.laid_out(Seq::new(Order::LEN as nat, |i: int| 0u8)),
    {
        let r: Order = Order {
            order_id: 0,
            price: 0,
            size: 0,
            owner: [0u8; 32],
            side: 0,
            _pad: [0u8; 7],
        };
        proof {
            let z: Seq<u8> = Seq::new(Order::LEN as nat, |i: int| 0u8);
            bytes::lemma_zero_value(bytes::part(z, 0, 8));
            bytes::lemma_zero_value(bytes::part(z, 8, 8));
            bytes::lemma_zero_value(bytes::part(z, 16, 8));
            assert(bytes::part(z, 24, 32) =~= r.owner@);
            assert(bytes::part(z, 57, 7) =~= r._pad@);
        }
        r
    }

    /// Account data determines the value: no two values share their bytes.
    pub proof fn value_is_unique(self, other: Order, b: Seq<u8>)
        requires
            self.laid_out(b),
            other.laid_out(b),
        ensures
            self == other,
    {
        assert(self.owner =~= other.owner);
        assert(self._pad =~= other._pad);
    }

    /// The value determines every byte of the account data.
    pub proof fn bytes_are_unique(self, a: Seq<u8>, b: Seq<u8>)
        requires
            self.laid_out(a),
            self.laid_out(b),
        ensures
            a == b,
    {
        assert(bytes::part(a, 0, 0) =~= bytes::part(b, 0, 0));
        bytes::lemma_agree_value(a, b, 0, 8);
        bytes::lemma_agree_value(a, b, 8, 8);
        bytes::lemma_agree_value(a, b, 16, 8);
        bytes::lemma_agree_bytes(a, b, 24, 32);
        assert(bytes::part(a, 56, 1) =~= bytes::part(b, 56, 1));
        bytes::lemma_agree_bytes(a, b, 56, 1);
        bytes::lemma_agree_bytes(a, b, 57, 7);
        assert(a =~= bytes::part(a, 0, 64));
        assert(b =~= bytes::part(b, 0, 64));
    }
}

/// How many orders the flat book can hold at once.
pub const ORDER_CAPACITY: usize = 32;

/// Fixed 8-byte tag identifying an `OrderBook` account.
///
/// The bytes read as text in a hex dump: `BOOK\0\0\0\0`.
pub const ORDER_BOOK_DISCRIMINATOR: [u8; 8] = [0x42, 0x4f, 0x4f, 0x4b, 0x00, 0x00, 0x00, 0x00];

/// The order book of one market. Bids and asks share the slots and are told
/// apart by their `side` byte.
///
/// ```text
///     0  discriminator  [u8; 8]                  BOOK\0\0\0\0
///     8  bump           u8                       PDA bump
///     9  _pad0          [u8; 7]
///    16  market         [u8; 32]                 the market it belongs to
///    48  next_order_id  u64                      grows with every order
///    56  active_count   u32                      slots in use
///    60  _pad1          [u8; 4]
///    64  slots          [Order; ORDER_CAPACITY]
///  2112  total
/// ```
#[derive(Clone, Copy)]
pub struct OrderBook {
    pub discriminator: [u8; 8],
    pub bump: u8,
    pub _pad0: [u8; 7],
    pub market: [u8; 32],
    pub next_order_id: u64,
    pub active_count: u32,
    pub _pad1: [u8; 4],
    pub slots: [Order; ORDER_CAPACITY],
}

impl OrderBook {
    /// Size of the account data in bytes.
    pub const LEN: usize = 2112;

    /// `b` is this value laid out field by field at the offsets above.
    pub open spec fn laid_out(self, b: Seq<u8>) -> bool {
        &&& b.len() == OrderBook::LEN
        &&& bytes::part(b, 0, 8) == self.discriminator@
        &&& b[8] == self.bump
        &&& bytes::part(b, 9, 7) == self._pad0@
        &&& bytes::part(b, 16, 32) == self.market@
        &&& bytes::u64_at(b, 48) == self.next_order_id
        &&& bytes::u32_at(b, 56) == self.active_count
        &&& bytes::part(b, 60, 4) == self._pad1@
        &&& forall|i: int|
            0 <= i < ORDER_CAPACITY ==> (#[trigger] self.slots@[i]).laid_out(
                bytes::part(b, 64 + 64 * i, 64),
            )
    }

    /// The account data that holds this value.
    pub fn to_bytes(&self) -> (r: Vec<u8>)
        ensures
            self.laid_out(r@),
    {
        let mut out: Vec<u8> = Vec::with_capacity(OrderBook::LEN);
        bytes::push_bytes(&mut out, &self.discriminator);
        out.push(self.bump);
        bytes::push_bytes(&mut out, &self._pad0);
        bytes::push_bytes(&mut out, &self.market);
        bytes::push_u64(&mut out, self.next_order_id);
        bytes::push_u32(&mut out, self.active_count);
        bytes::push_bytes(&mut out, &self._pad1);
        let ghost header = out@;
        proof {
            bytes::lemma_pow256_values();
            bytes::lemma_le_round_trip(self.next_order_id as nat, 8);
            bytes::lemma_le_round_trip(self.active_count as nat, 4);
            assert(bytes::part(header, 0, 8) =~= self.discriminator@);
            assert(bytes::part(header, 9, 7) =~= self._pad0@);
            assert(bytes::part(header, 16, 32) =~= self.market@);
            assert(bytes::part(header, 48, 8) =~= bytes::le_bytes(self.next_order_id as nat, 8));
            assert(bytes::part(header, 56, 4) =~= bytes::le_bytes(self.active_count as nat, 4));
            assert(bytes::part(header, 60, 4) =~= self._pad1@);
        }
        let mut i: usize = 0;
        while i < ORDER_CAPACITY
            invariant
                i <= ORDER_CAPACITY,
                header.len() == 64,
                out@.len() == 64 + 64 * i,
                bytes::part(out@, 0, 64) == header,
                forall|j: int|
                    0 <= j < i ==> (#[trigger] self.slots@[j]).laid_out(
                        bytes::part(out@, 64 + 64 * j, 64),
                    ),
            decreases ORDER_CAPACITY - i,
        {
            let ghost before = out@;
            let item: Vec<u8> = self.slots[i].to_bytes();
            bytes::push_bytes(&mut out, &item);
            assert(bytes::part(out@, 0, 64) =~= bytes::part(before, 0, 64));
            assert forall|j: int| 0 <= j < i implies (#[trigger] self.slots@[j]).laid_out(
                bytes::part(out@, 64 + 64 * j, 64),
            ) by {
                assert(bytes::part(out@, 64 + 64 * j, 64) =~= bytes::part(
                    before,
                    64 + 64 * j,
                    64,
                ));
            }
            assert(bytes::part(out@, 64 + 64 * i, 64) =~= item@);
            i += 1;
        }
        proof {
            assert(bytes::part(out@, 0, 8) =~= bytes::part(header, 0, 8));
            assert(out@[8] == header[8]);
            assert(bytes::part(out@, 9, 7) =~= bytes::part(header, 9, 7));
            assert(bytes::part(out@, 16, 32) =~= bytes::part(header, 16, 32));
            assert(bytes::part(out@, 48, 8) =~= bytes::part(header, 48, 8));
            assert(bytes::part(out@, 56, 4) =~= bytes::part(header, 56, 4));
            assert(bytes::part(out@, 60, 4) =~= bytes::part(header, 60, 4));
        }
        out
    }

    /// Reads account data back; `None` if it is not exactly `LEN` bytes.
    pub fn from_bytes(b: &[u8]) -> (r: Option<OrderBook>)
        ensures
            r is Some <==> b@.len() == OrderBook::LEN,
            r matches Some(v) ==> v.laid_out(b@),
    {
        if b.len() != OrderBook::LEN {
            return None;
        }
        let mut slots: [Order; ORDER_CAPACITY] = [Order::zeroed(); ORDER_CAPACITY];
        let mut i: usize = 0;
        while i < ORDER_CAPACITY
            invariant
                i <= ORDER_CAPACITY,
                b@.len() == OrderBook::LEN,
                forall|j: int|
                    0 <= j < i ==> (#[trigger] slots@[j]).laid_out(
                        bytes::part(b@, 64 + 64 * j, 64),
                    ),
            decreases ORDER_CAPACITY - i,
        {
            let at: usize = 64 + 64 * i;
            match Order::from_bytes(&b[at..at + 64]) {
                Some(v) => {
                    slots[i] = v;
                },
                None => return None,
            }
            i += 1;
        }
        Some(
            OrderBook {
                discriminator: bytes::read_array(b, 0),
                bump: b[8],
                _pad0: bytes::read_array(b, 9),
                market: bytes::read_array(b, 16),
                next_order_id: bytes::read_u64(b, 48),
                active_count: bytes::read_u32(b, 56),
                _pad1: bytes::read_array(b, 60),
                slots,
            },
        )
    }

    /// The value whose account data is all zero bytes.
    pub fn zeroed() -> (r: OrderBook)
        ensures
            r.laid_out(Seq::new(OrderBook::LEN as nat, |i: int| 0u8)),
    {
        let r: OrderBook = OrderBook {
            discriminator: [0u8; 8],
            bump: 0,
            _pad0: [0u8; 7],
            market: [0u8; 32],
            next_order_id: 0,
            active_count: 0,
            _pad1: [0u8; 4],
            slots: [Order::zeroed(); ORDER_CAPACITY],
        };
        proof {
            let z: Seq<u8> = Seq::new(OrderBook::LEN as nat, |i: int| 0u8);
            assert(bytes::part(z, 0, 8) =~= r.discriminator@);
            assert(bytes::part(z, 9, 7) =~= r._pad0@);
            assert(bytes::part(z, 16, 32) =~= r.market@);
            bytes::lemma_zero_value(bytes::part(z, 48, 8));
            bytes::lemma_zero_value(bytes::part(z, 56, 4));
            assert(bytes::part(z, 60, 4) =~= r._pad1@);
            assert forall|i: int| 0 <= i < ORDER_CAPACITY implies (#[trigger] r.slots@[i]).laid_out(
                bytes::part(z, 64 + 64 * i, 64),
            ) by {
                assert(bytes::part(z, 64 + 64 * i, 64) =~= Seq::new(
                    Order::LEN as nat,
                    |i: int| 0u8,
                ));
            }
        }
        r
    }

    /// Account data determines the value: no two values share their bytes.
    pub proof fn value_is_unique(self, other: OrderBook, b: Seq<u8>)
        requires
            self.laid_out(b),
            other.laid_out(b),
        ensures
            self == other,
    {
        assert(self.discriminator =~= other.discriminator);
        assert(self._pad0 =~= other._pad0);
        assert(self.market =~= other.market);
        assert(self._pad1 =~= other._pad1);
        assert forall|i: int| 0 <= i < ORDER_CAPACITY implies self.slots@[i] == other.slots@[i] by {
            self.slots@[i].value_is_unique(
                other.slots@[i],
                bytes::part(b, 64 + 64 * i, 64),
            );
        }
        assert(self.slots =~= other.slots);
    }

    /// The value determines every byte of the account data.
    pub proof fn bytes_are_unique(self, a: Seq<u8>, b: Seq<u8>)
        requires
            self.laid_out(a),
            self.laid_out(b),
        ensures
            a == b,
    {
        assert(bytes::part(a, 0, 0) =~= bytes::part(b, 0, 0));
        bytes::lemma_agree_bytes(a, b, 0, 8);
        assert(bytes::part(a, 8, 1) =~= bytes::part(b, 8, 1));
        bytes::lemma_agree_bytes(a, b, 8, 1);
        bytes::lemma_agree_bytes(a, b, 9, 7);
        bytes::lemma_agree_bytes(a, b, 16, 32);
        bytes::lemma_agree_value(a, b, 48, 8);
        bytes::lemma_agree_value(a, b, 56, 4);
        bytes::lemma_agree_bytes(a, b, 60, 4);
        assert forall|k: int| 64 <= k < OrderBook::LEN implies a[k] == b[k] by {
            let i = (k - 64) / 64;
            let at = 64 + 64 * i;
            assert(self.slots@[i].laid_out(bytes::part(a, at, 64)));
            self.slots@[i].bytes_are_unique(bytes::part(a, at, 64), bytes::part(b, at, 64));
            assert(a[k] == bytes::part(a, at, 64)[k - at]);
            assert(b[k] == bytes::part(b, at, 64)[k - at]);
        }
        assert(bytes::part(a, 64, 2048) =~= bytes::part(b, 64, 2048));
        bytes::lemma_agree_bytes(a, b, 64, 2048);
        assert(a =~= bytes::part(a, 0, 2112));
        assert(b =~= bytes::part(b, 0, 2112));
    }
}

} // verus!
