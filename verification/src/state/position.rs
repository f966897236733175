//! Positions.

use vstd::prelude::*;

use crate::bytes;

verus! {

/// Fixed 8-byte tag identifying a `Position` account.
///
/// The bytes read as text in a hex dump: `POSITION`.
pub const POSITION_DISCRIMINATOR: [u8; 8] = [0x50, 0x4f, 0x53, 0x49, 0x54, 0x49, 0x4f, 0x4e];

/// What one user holds in one market.
///
/// ```text
///     0  discriminator           [u8; 8]   POSITION
///     8  bump                    u8        PDA bump
///     9  _pad0                   [u8; 7]
///    16  user                    [u8; 32]
///    48  market                  [u8; 32]
///    80  size                    i64       base units; long above zero, short below
///    88  entry_price             u64       quote per base at open
///    96  collateral              u64       quote units posted as margin
///   104  funding_snapshot_index  i64       funding index at the last touch
///   112  _reserved               [u8; 32]
///   144  total
/// ```
#[derive(Clone, Copy)]
pub struct Position {
    pub discriminator: [u8; 8],
    pub bump: u8,
    pub _pad0: [u8; 7],
    pub user: [u8; 32],
    pub market: [u8; 32],
    pub size: i64,
    pub entry_price: u64,
    pub collateral: u64,
    pub funding_snapshot_index: i64,
    pub _reserved: [u8; 32],
}

impl Position {
    /// Size of the account data in bytes.
    pub const LEN: usize = 144;

    /// `b` is this value laid out field by field at the offsets above.
    pub open spec fn laid_out(self, b: Seq<u8>) -> bool {
        &&& b.len() == Position::LEN
        &&& bytes::part(b, 0, 8) == self.discriminator@
        &&& b[8] == self.bump
        &&& bytes::part(b, 9, 7) == self._pad0@
        &&& bytes::part(b, 16, 32) == self.user@
        &&& bytes::part(b, 48, 32) == self.market@
        &&& bytes::i64_at(b, 80) == self.size
        &&& bytes::u64_at(b, 88) == self.entry_price
        &&& bytes::u64_at(b, 96) == self.collateral
        &&& bytes::i64_at(b, 104) == self.funding_snapshot_index
        &&& bytes::part(b, 112, 32) == self._reserved@
    }

    /// The account data that holds this value.
    pub fn to_bytes(&self) -> (r: Vec<u8>)
        ensures
            self.laid_out(r@),
    {
        let mut out: Vec<u8> = Vec::with_capacity(Position::LEN);
        bytes::push_bytes(&mut out, &self.discriminator);
        out.push(self.bump);
        bytes::push_bytes(&mut out, &self._pad0);
        bytes::push_bytes(&mut out, &self.user);
        bytes::push_bytes(&mut out, &self.market);
        bytes::push_i64(&mut out, self.size);
        bytes::push_u64(&mut out, self.entry_price);
        bytes::push_u64(&mut out, self.collateral);
        bytes::push_i64(&mut out, self.funding_snapshot_index);
        bytes::push_bytes(&mut out, &self._reserved);
        proof {
            bytes::lemma_pow256_values();
            bytes::lemma_twos_complement_decode(self.size as int, 8);
            bytes::lemma_le_round_trip(self.entry_price as nat, 8);
            bytes::lemma_le_round_trip(self.collateral as nat, 8);
            bytes::lemma_twos_complement_decode(self.funding_snapshot_index as int, 8);
            assert(bytes::part(out@, 0, 8) =~= self.discriminator@);
            assert(bytes::part(out@, 9, 7) =~= self._pad0@);
            assert(bytes::part(out@, 16, 32) =~= self.user@);
            assert(bytes::part(out@, 48, 32) =~= self.market@);
            assert(bytes::part(out@, 80, 8) =~= bytes::le_bytes(
                bytes::twos_complement(self.size as int, 8),
                8,
            ));
            assert(bytes::part(out@, 88, 8) =~= bytes::le_bytes(self.entry_price as nat, 8));
            assert(bytes::part(out@, 96, 8) =~= bytes::le_bytes(self.collateral as nat, 8));
            assert(bytes::part(out@, 104, 8) =~= bytes::le_bytes(
                bytes::twos_complement(self.funding_snapshot_index as int, 8),
                8,
            ));
            assert(bytes::part(out@, 112, 32) =~= self._reserved@);
        }
        out
    }

    /// Reads account data back; `None` if it is not exactly `LEN` bytes.
    pub fn from_bytes(b: &[u8]) -> (r: Option<Position>)
        ensures
            r is Some <==> b@.len() == Position::LEN,
            r matches Some(v) ==> v.laid_out(b@),
    {
        if b.len() != Position::LEN {
            return None;
        }
        Some(
            Position {
                discriminator: bytes::read_array(b, 0),
                bump: b[8],
                _pad0: bytes::read_array(b, 9),
                user: bytes::read_array(b, 16),
                market: bytes::read_array(b, 48),
                size: bytes::read_i64(b, 80),
                entry_price: bytes::read_u64(b, 88),
                collateral: bytes::read_u64(b, 96),
                funding_snapshot_index: bytes::read_i64(b, 104),
                _reserved: bytes::read_array(b, 112),
            },
        )
    }

    /// The value whose account data is all zero bytes.
    pub fn zeroed() -> (r: Position)
        ensures
            r.laid_out(Seq::new(Position::LEN as nat, |i: int| 0u8)),
    {
        let r: Position = Position {
            discriminator: [0u8; 8],
            bump: 0,
            _pad0: [0u8; 7],
            user: [0u8; 32],
            market: [0u8; 32],
            size: 0,
            entry_price: 0,
            collateral: 0,
            funding_snapshot_index: 0,
            _reserved: [0u8; 32],
        };
        proof {
            let z: Seq<u8> = Seq::new(Position::LEN as nat, |i: int| 0u8);
            bytes::lemma_pow256_values();
            assert(bytes::part(z, 0, 8) =~= r.discriminator@);
            assert(bytes::part(z, 9, 7) =~= r._pad0@);
            assert(bytes::part(z, 16, 32) =~= r.user@);
            assert(bytes::part(z, 48, 32) =~= r.market@);
            bytes::lemma_zero_value(bytes::part(z, 80, 8));
            bytes::lemma_zero_value(bytes::part(z, 88, 8));
            bytes::lemma_zero_value(bytes::part(z, 96, 8));
            bytes::lemma_zero_value(bytes::part(z, 104, 8));
            assert(bytes::part(z, 112, 32) =~= r._reserved@);
        }
        r
    }

    /// Account data determines the value: no two values share their bytes.
    pub proof fn value_is_unique(self, other: Position, b: Seq<u8>)
        requires
            self.laid_out(b),
            other.laid_out(b),
        ensures
            self == other,
    {
        assert(self.discriminator =~= other.discriminator);
        assert(self._pad0 =~= other._pad0);
        assert(self.user =~= other.user);
        assert(self.market =~= other.market);
        assert(self._reserved =~= other._reserved);
    }

    /// The value determines every byte of the account data.
    pub proof fn bytes_are_unique(self, a: Seq<u8>, b: Seq<u8>)
        requires
            self.laid_out(a),
            self.laid_out(b),
        ensures
            a == b,
    {
        assert(bytes::part(a, 0, 0) =~= bytes::part(b, 0, 0));
        bytes::lemma_agree_bytes(a, b, 0, 8);
        assert(bytes::part(a, 8, 1) =~= bytes::part(b, 8, 1));
        bytes::lemma_agree_bytes(a, b, 8, 1);
        bytes::lemma_agree_bytes(a, b, 9, 7);
        bytes::lemma_agree_bytes(a, b, 16, 32);
        bytes::lemma_agree_bytes(a, b, 48, 32);
        bytes::lemma_agree_signed(a, b, 80, 8);
        bytes::lemma_agree_value(a, b, 88, 8);
        bytes::lemma_agree_value(a, b, 96, 8);
        bytes::lemma_agree_signed(a, b, 104, 8);
        bytes::lemma_agree_bytes(a, b, 112, 32);
        assert(a =~= bytes::part(a, 0, 144));
        assert(b =~= bytes::part(b, 0, 144));
    }
}

} // verus!
