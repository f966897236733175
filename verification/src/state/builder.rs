//! Fee profiles of builders.

use vstd::prelude::*;

use crate::bytes;

verus! {

/// Fixed 8-byte tag identifying a `BuilderProfile` account.
///
/// The bytes read as text in a hex dump: `BUILDER\0`.
pub const BUILDER_PROFILE_DISCRIMINATOR: [u8; 8] = [0x42, 0x55, 0x49, 0x4c, 0x44, 0x45, 0x52, 0x00];

/// A frontend or aggregator that routes orders and earns a slice of the fees.
///
/// ```text
///     0  discriminator      [u8; 8]   BUILDER\0
///     8  bump               u8        PDA bump
///     9  _pad0              [u8; 7]
///    16  builder            [u8; 32]  the builder's key
///    48  max_fee_share_bps  u64       own cap on the share of a fee
///    56  accumulated_fees   u64       earned, not claimed yet
///    64  total_volume       u64       base volume routed
///    72  _reserved          [u8; 32]
///   104  total
/// ```
#[derive(Clone, Copy)]
pub struct BuilderProfile {
    pub discriminator: [u8; 8],
    pub bump: u8,
    pub _pad0: [u8; 7],
    pub builder: [u8; 32],
    pub max_fee_share_bps: u64,
    pub accumulated_fees: u64,
    pub total_volume: u64,
    pub _reserved: [u8; 32],
}

impl BuilderProfile {
    /// Size of the account data in bytes.
    pub const LEN: usize = 104;

    /// `b` is this value laid out field by field at the offsets above.
    pub open spec fn laid_out(self, b: Seq<u8>) -> bool {
        &&& b.len() == BuilderProfile::LEN
        &&& bytes::part(b, 0, 8) == self.discriminator@
        &&& b[8] == self.bump
        &&& bytes::part(b, 9, 7) == self._pad0@
        &&& bytes::part(b, 16, 32) == self.builder@
        &&& bytes::u64_at(b, 48) == self.max_fee_share_bps
        &&& bytes::u64_at(b, 56) == self.accumulated_fees
        &&& bytes::u64_at(b, 64) == self.total_volume
        &&& bytes::part(b, 72, 32) == self._reserved@
    }

    /// The account data that holds this value.
    pub fn to_bytes(&self) -> (r: Vec<u8>)
        ensures
            self.laid_out(r@),
    {
        let mut out: Vec<u8> = Vec::with_capacity(BuilderProfile::LEN);
        bytes::push_bytes(&mut out, &self.discriminator);
        out.push(self.bump);
        bytes::push_bytes(&mut out, &self._pad0);
        bytes::push_bytes(&mut out, &self.builder);
        bytes::push_u64(&mut out, self.max_fee_share_bps);
        bytes::push_u64(&mut out, self.accumulated_fees);
        bytes::push_u64(&mut out, self.total_volume);
        bytes::push_bytes(&mut out, &self._reserved);
        proof {
            bytes::lemma_pow256_values();
            bytes::lemma_le_round_trip(self.max_fee_share_bps as nat, 8);
            bytes::lemma_le_round_trip(self.accumulated_fees as nat, 8);
            bytes::lemma_le_round_trip(self.total_volume as nat, 8);
            assert(bytes::part(out@, 0, 8) =~= self.discriminator@);
            assert(bytes::part(out@, 9, 7) =~= self._pad0@);
            assert(bytes::part(out@, 16, 32) =~= self.builder@);
            assert(bytes::part(out@, 48, 8) =~= bytes::le_bytes(self.max_fee_share_bps as nat, 8));
            assert(bytes::part(out@, 56, 8) =~= bytes::le_bytes(self.accumulated_fees as nat, 8));
            assert(bytes::part(out@, 64, 8) =~= bytes::le_bytes(self.total_volume as nat, 8));
            assert(bytes::part(out@, 72, 32) =~= self._reserved@);
        }
        out
    }

    /// Reads account data back; `None` if it is not exactly `LEN` bytes.
    pub fn from_bytes(b: &[u8]) -> (r: Option<BuilderProfile>)
        ensures
            r is Some <==> b@.len() == BuilderProfile::LEN,
            r matches Some(v) ==> v.laid_out(b@),
    {
        if b.len() != BuilderProfile::LEN {
            return None;
        }
        Some(
            BuilderProfile {
                discriminator: bytes::read_array(b, 0),
                bump: b[8],
                _pad0: bytes::read_array(b, 9),
                builder: bytes::read_array(b, 16),
                max_fee_share_bps: bytes::read_u64(b, 48),
                accumulated_fees: bytes::read_u64(b, 56),
                total_volume: bytes::read_u64(b, 64),
                _reserved: bytes::read_array(b, 72),
            },
        )
    }

    /// The value whose account data is all zero bytes.
    pub fn zeroed() -> (r: BuilderProfile)
        ensures
            r.laid_out(Seq::new(BuilderProfile::LEN as nat, |i: int| 0u8)),
    {
        let r: BuilderProfile = BuilderProfile {
            discriminator: [0u8; 8],
            bump: 0,
            _pad0: [0u8; 7],
            builder: [0u8; 32],
            max_fee_share_bps: 0,
            accumulated_fees: 0,
            total_volume: 0,
            _reserved: [0u8; 32],
        };
        proof {
            let z: Seq<u8> = Seq::new(BuilderProfile::LEN as nat, |i: int| 0u8);
            assert(bytes::part(z, 0, 8) =~= r.discriminator@);
            assert(bytes::part(z, 9, 7) =~= r._pad0@);
            assert(bytes::part(z, 16, 32) =~= r.builder@);
            bytes::lemma_zero_value(bytes::part(z, 48, 8));
            bytes::lemma_zero_value(bytes::part(z, 56, 8));
            bytes::lemma_zero_value(bytes::part(z, 64, 8));
            assert(bytes::part(z, 72, 32) =~= r._reserved@);
        }
        r
    }

    /// Account data determines the value: no two values share their bytes.
    pub proof fn value_is_unique(self, other: BuilderProfile, b: Seq<u8>)
        requires
            self.laid_out(b),
            other.laid_out(b),
        ensures
            self == other,
    {
        assert(self.discriminator =~= other.discriminator);
        assert(self._pad0 =~= other._pad0);
        assert(self.builder =~= other.builder);
        assert(self._reserved =~= other._reserved);
    }

    /// The value determines every byte of the account data.
    pub proof fn bytes_are_unique(self, a: Seq<u8>, b: Seq<u8>)
        requires
            self.laid_out(a),
            self.laid_out(b),
        ensures
            a == b,
    {
        assert(bytes::part(a, 0, 0) =~= bytes::part(b, 0, 0));
        bytes::lemma_agree_bytes(a, b, 0, 8);
        assert(bytes::part(a, 8, 1) =~= bytes::part(b, 8, 1));
        bytes::lemma_agree_bytes(a, b, 8, 1);
        bytes::lemma_agree_bytes(a, b, 9, 7);
        bytes::lemma_agree_bytes(a, b, 16, 32);
        bytes::lemma_agree_value(a, b, 48, 8);
        bytes::lemma_agree_value(a, b, 56, 8);
        bytes::lemma_agree_value(a, b, 64, 8);
        bytes::lemma_agree_bytes(a, b, 72, 32);
        assert(a =~= bytes::part(a, 0, 104));
        assert(b =~= bytes::part(b, 0, 104));
    }
}

} // verus!
