//! Price oracles.

use vstd::prelude::*;

use crate::bytes;

verus! {

/// Fixed 8-byte tag identifying an `Oracle` account.
///
/// The bytes read as text in a hex dump: `ORACLE\0\0`.
pub const ORACLE_DISCRIMINATOR: [u8; 8] = [0x4f, 0x52, 0x41, 0x43, 0x4c, 0x45, 0x00, 0x00];

/// The price of one market: `price * 10^expo`, give or take `conf * 10^expo`.
///
/// ```text
///     0  discriminator  [u8; 8]   ORACLE\0\0
///     8  bump           u8        PDA bump
///     9  _pad0          [u8; 7]
///    16  market         [u8; 32]  the market it prices
///    48  price          i64       mantissa
///    56  conf           u64       confidence interval, same unit
///    64  expo           i32       base-10 exponent
///    68  _pad1          [u8; 4]
///    72  publish_slot   u64       slot of the last update
///    80  _reserved      [u8; 32]
///   112  total
/// ```
#[derive(Clone, Copy)]
pub struct Oracle {
    pub discriminator: [u8; 8],
    pub bump: u8,
    pub _pad0: [u8; 7],
    pub market: [u8; 32],
    pub price: i64,
    pub conf: u64,
    pub expo: i32,
    pub _pad1: [u8; 4],
    pub publish_slot: u64,
    pub _reserved: [u8; 32],
}

impl Oracle {
    /// Size of the account data in bytes.
    pub const LEN: usize = 112;

    /// `b` is this value laid out field by field at the offsets above.
    pub open spec fn laid_out(self, b: Seq<u8>) -> bool {
        &&& b.len() == Oracle::LEN
        &&& bytes::part(b, 0, 8) == self.discriminator@
        &&& b[8] == self.bump
        &&& bytes::part(b, 9, 7) == self._pad0@
        &&& bytes::part(b, 16, 32) == self.market@
        &&& bytes::i64_at(b, 48) == self.price
        &&& bytes::u64_at(b, 56) == self.conf
        &&& bytes::i32_at(b, 64) == self.expo
        &&& bytes::part(b, 68, 4) == self._pad1@
        &&& bytes::u64_at(b, 72) == self.publish_slot
        &&& bytes::part(b, 80, 32) == self._reserved@
    }

    /// The account data that holds this value.
    pub fn to_bytes(&self) -> (r: Vec<u8>)
        ensures
            self.laid_out(r@),
    {
        let mut out: Vec<u8> = Vec::with_capacity(Oracle::LEN);
        bytes::push_bytes(&mut out, &self.discriminator);
        out.push(self.bump);
        bytes::push_bytes(&mut out, &self._pad0);
        bytes::push_bytes(&mut out, &self.market);
        bytes::push_i64(&mut out, self.price);
        bytes::push_u64(&mut out, self.conf);
        bytes::push_i32(&mut out, self.expo);
        bytes::push_bytes(&mut out, &self._pad1);
        bytes::push_u64(&mut out, self.publish_slot);
        bytes::push_bytes(&mut out, &self._reserved);
        proof {
            bytes::lemma_pow256_values();
            bytes::lemma_twos_complement_decode(self.price as int, 8);
            bytes::lemma_le_round_trip(self.conf as nat, 8);
            bytes::lemma_twos_complement_decode(self.expo as int, 4);
            bytes::lemma_le_round_trip(self.publish_slot as nat, 8);
            assert(bytes::part(out@, 0, 8) =~= self.discriminator@);
            assert(bytes::part(out@, 9, 7) =~= self._pad0@);
            assert(bytes::part(out@, 16, 32) =~= self.market@);
            assert(bytes::part(out@, 48, 8) =~= bytes::le_bytes(
                bytes::twos_complement(self.price as int, 8),
                8,
            ));
            assert(bytes::part(out@, 56, 8) =~= bytes::le_bytes(self.conf as nat, 8));
            assert(bytes::part(out@, 64, 4) =~= bytes::le_bytes(
                bytes::twos_complement(self.expo as int, 4),
                4,
            ));
            assert(bytes::part(out@, 68, 4) =~= self._pad1@);
            assert(bytes::part(out@, 72, 8) =~= bytes::le_bytes(self.publish_slot as nat, 8));
            assert(bytes::part(out@, 80, 32) =~= self._reserved@);
        }
        out
    }

    /// Reads account data back; `None` if it is not exactly `LEN` bytes.
    pub fn from_bytes(b: &[u8]) -> (r: Option<Oracle>)
        ensures
            r is Some <==> b@.len() == Oracle::LEN,
            r matches Some(v) ==> v.laid_out(b@),
    {
        if b.len() != Oracle::LEN {
            return None;
        }
        Some(
            Oracle {
                discriminator: bytes::read_array(b, 0),
                bump: b[8],
                _pad0: bytes::read_array(b, 9),
                market: bytes::read_array(b, 16),
                price: bytes::read_i64(b, 48),
                conf: bytes::read_u64(b, 56),
                expo: bytes::read_i32(b, 64),
                _pad1: bytes::read_array(b, 68),
                publish_slot: bytes::read_u64(b, 72),
                _reserved: bytes::read_array(b, 80),
            },
        )
    }

    /// The value whose account data is all zero bytes.
    pub fn zeroed() -> (r: Oracle)
        ensures
            r.laid_out(Seq::new(Oracle::LEN as nat, |i: int| 0u8)),
    {
        let r: Oracle = Oracle {
            discriminator: [0u8; 8],
            bump: 0,
            _pad0: [0u8; 7],
            market: [0u8; 32],
            price: 0,
            conf: 0,
            expo: 0,
            _pad1: [0u8; 4],
            publish_slot: 0,
            _reserved: [0u8; 32],
        };
        proof {
            let z: Seq<u8> = Seq::new(Oracle::LEN as nat, |i: int| 0u8);
            bytes::lemma_pow256_values();
            assert(bytes::part(z, 0, 8) =~= r.discriminator@);
            assert(bytes::part(z, 9, 7) =~= r._pad0@);
            assert(bytes::part(z, 16, 32) =~= r.market@);
            bytes::lemma_zero_value(bytes::part(z, 48, 8));
            bytes::lemma_zero_value(bytes::part(z, 56, 8));
            bytes::lemma_zero_value(bytes::part(z, 64, 4));
            assert(bytes::part(z, 68, 4) =~= r._pad1@);
            bytes::lemma_zero_value(bytes::part(z, 72, 8));
            assert(bytes::part(z, 80, 32) =~= r._reserved@);
        }
        r
    }

    /// Account data determines the value: no two values share their bytes.
    pub proof fn value_is_unique(self, other: Oracle, b: Seq<u8>)
        requires
            self.laid_out(b),
            other.laid_out(b),
        ensures
            self == other,
    {
        assert(self.discriminator =~= other.discriminator);
        assert(self._pad0 =~= other._pad0);
        assert(self.market =~= other.market);
        assert(self._pad1 =~= other._pad1);
        assert(self._reserved =~= other._reserved);
    }

    /// The value determines every byte of the account data.
    pub proof fn bytes_are_unique(self, a: Seq<u8>, b: Seq<u8>)
        requires
            self.laid_out(a),
            self.laid_out(b),
        ensures
            a == b,
    {
        assert(bytes::part(a, 0, 0) =~= bytes::part(b, 0, 0));
        bytes::lemma_agree_bytes(a, b, 0, 8);
        assert(bytes::part(a, 8, 1) =~= bytes::part(b, 8, 1));
        bytes::lemma_agree_bytes(a, b, 8, 1);
        bytes::lemma_agree_bytes(a, b, 9, 7);
        bytes::lemma_agree_bytes(a, b, 16, 32);
        bytes::lemma_agree_signed(a, b, 48, 8);
        bytes::lemma_agree_value(a, b, 56, 8);
        bytes::lemma_agree_signed(a, b, 64, 4);
        bytes::lemma_agree_bytes(a, b, 68, 4);
        bytes::lemma_agree_value(a, b, 72, 8);
        bytes::lemma_agree_bytes(a, b, 80, 32);
        assert(a =~= bytes::part(a, 0, 112));
        assert(b =~= bytes::part(b, 0, 112));
    }
}

} // verus!
