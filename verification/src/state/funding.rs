//! Funding-rate accumulators.

use vstd::prelude::*;

use crate::bytes;

verus! {

/// Fixed 8-byte tag identifying a `FundingState` account.
///
/// The bytes read as text in a hex dump: `FUNDING\0`.
pub const FUNDING_DISCRIMINATOR: [u8; 8] = [0x46, 0x55, 0x4e, 0x44, 0x49, 0x4e, 0x47, 0x00];

/// Funding of one market. What a position owes is the growth of the index
/// since its own snapshot, times its size.
///
/// ```text
///     0  discriminator             [u8; 8]   FUNDING\0
///     8  bump                      u8        PDA bump
///     9  _pad0                     [u8; 7]
///    16  market                    [u8; 32]
///    48  cumulative_funding_index  i64       scaled by 1e9
///    56  last_update_ts            i64       unix time
///    64  last_update_slot          u64
///    72  current_rate_per_sec      i64       scaled by 1e9
///    80  window_seconds            u64       length of the funding window
///    88  _reserved                 [u8; 32]
///   120  total
/// ```
#[derive(Clone, Copy)]
pub struct FundingState {
    pub discriminator: [u8; 8],
    pub bump: u8,
    pub _pad0: [u8; 7],
    pub market: [u8; 32],
    pub cumulative_funding_index: i64,
    pub last_update_ts: i64,
    pub last_update_slot: u64,
    pub current_rate_per_sec: i64,
    pub window_seconds: u64,
    pub _reserved: [u8; 32],
}

impl FundingState {
    /// Size of the account data in bytes.
    pub const LEN: usize = 120;

    /// One hour.
    pub const DEFAULT_WINDOW_SECONDS: u64 = 3600;

    /// `b` is this value laid out field by field at the offsets above.
    pub open spec fn laid_out(self, b: Seq<u8>) -> bool {
        &&& b.len() == FundingState::LEN
        &&& bytes::part(b, 0, 8) == self.discriminator@
        &&& b[8] == self.bump
        &&& bytes::part(b, 9, 7) == self._pad0@
        &&& bytes::part(b, 16, 32) == self.market@
        &&& bytes::i64_at(b, 48) == self.cumulative_funding_index
        &&& bytes::i64_at(b, 56) == self.last_update_ts
        &&& bytes::u64_at(b, 64) == self.last_update_slot
        &&& bytes::i64_at(b, 72) == self.current_rate_per_sec
        &&& bytes::u64_at(b, 80) == self.window_seconds
        &&& bytes::part(b, 88, 32) == self._reserved@
    }

    /// The account data that holds this value.
    pub fn to_bytes(&self) -> (r: Vec<u8>)
        ensures
            self.laid_out(r@),
    {
        let mut out: Vec<u8> = Vec::with_capacity(FundingState::LEN);
        bytes::push_bytes(&mut out, &self.discriminator);
        out.push(self.bump);
        bytes::push_bytes(&mut out, &self._pad0);
        bytes::push_bytes(&mut out, &self.market);
        bytes::push_i64(&mut out, self.cumulative_funding_index);
        bytes::push_i64(&mut out, self.last_update_ts);
        bytes::push_u64(&mut out, self.last_update_slot);
        bytes::push_i64(&mut out, self.current_rate_per_sec);
        bytes::push_u64(&mut out, self.window_seconds);
        bytes::push_bytes(&mut out, &self._reserved);
        proof {
            bytes::lemma_pow256_values();
            bytes::lemma_twos_complement_decode(self.cumulative_funding_index as int, 8);
            bytes::lemma_twos_complement_decode(self.last_update_ts as int, 8);
            bytes::lemma_le_round_trip(self.last_update_slot as nat, 8);
            bytes::lemma_twos_complement_decode(self.current_rate_per_sec as int, 8);
            bytes::lemma_le_round_trip(self.window_seconds as nat, 8);
            assert(bytes::part(out@, 0, 8) =~= self.discriminator@);
            assert(bytes::part(out@, 9, 7) =~= self._pad0@);
            assert(bytes::part(out@, 16, 32) =~= self.market@);
            assert(bytes::part(out@, 48, 8) =~= bytes::le_bytes(
                bytes::twos_complement(self.cumulative_funding_index as int, 8),
                8,
            ));
            assert(bytes::part(out@, 56, 8) =~= bytes::le_bytes(
                bytes::twos_complement(self.last_update_ts as int, 8),
                8,
            ));
            assert(bytes::part(out@, 64, 8) =~= bytes::le_bytes(self.last_update_slot as nat, 8));
            assert(bytes::part(out@, 72, 8) =~= bytes::le_bytes(
                bytes::twos_complement(self.current_rate_per_sec as int, 8),
                8,
            ));
            assert(bytes::part(out@, 80, 8) =~= bytes::le_bytes(self.window_seconds as nat, 8));
            assert(bytes::part(out@, 88, 32) =~= self._reserved@);
        }
        out
    }

    /// Reads account data back; `None` if it is not exactly `LEN` bytes.
    pub fn from_bytes(b: &[u8]) -> (r: Option<FundingState>)
        ensures
            r is Some <==> b@.len() == FundingState::LEN,
            r matches Some(v) ==> v.laid_out(b@),
    {
        if b.len() != FundingState::LEN {
            return None;
        }
        Some(
            FundingState {
                discriminator: bytes::read_array(b, 0),
                bump: b[8],
                _pad0: bytes::read_array(b, 9),
                market: bytes::read_array(b, 16),
                cumulative_funding_index: bytes::read_i64(b, 48),
                last_update_ts: bytes::read_i64(b, 56),
                last_update_slot: bytes::read_u64(b, 64),
                current_rate_per_sec: bytes::read_i64(b, 72),
                window_seconds: bytes::read_u64(b, 80),
                _reserved: bytes::read_array(b, 88),
            },
        )
    }

    /// The value whose account data is all zero bytes.
    pub fn zeroed() -> (r: FundingState)
        ensures
            r.laid_out(Seq::new(FundingState::LEN as nat, |i: int| 0u8)),
    {
        let r: FundingState = FundingState {
            discriminator: [0u8; 8],
            bump: 0,
            _pad0: [0u8; 7],
            market: [0u8; 32],
            cumulative_funding_index: 0,
            last_update_ts: 0,
            last_update_slot: 0,
            current_rate_per_sec: 0,
            window_seconds: 0,
            _reserved: [0u8; 32],
        };
        proof {
            let z: Seq<u8> = Seq::new(FundingState::LEN as nat, |i: int| 0u8);
            bytes::lemma_pow256_values();
            assert(bytes::part(z, 0, 8) =~= r.discriminator@);
            assert(bytes::part(z, 9, 7) =~= r._pad0@);
            assert(bytes::part(z, 16, 32) =~= r.market@);
            bytes::lemma_zero_value(bytes::part(z, 48, 8));
            bytes::lemma_zero_value(bytes::part(z, 56, 8));
            bytes::lemma_zero_value(bytes::part(z, 64, 8));
            bytes::lemma_zero_value(bytes::part(z, 72, 8));
            bytes::lemma_zero_value(bytes::part(z, 80, 8));
            assert(bytes::part(z, 88, 32) =~= r._reserved@);
        }
        r
    }

    /// Account data determines the value: no two values share their bytes.
    pub proof fn value_is_unique(self, other: FundingState, b: Seq<u8>)
        requires
            self.laid_out(b),
            other.laid_out(b),
        ensures
            self == other,
    {
        assert(self.discriminator =~= other.discriminator);
        assert(self._pad0 =~= other._pad0);
        assert(self.market =~= other.market);
        assert(self._reserved =~= other._reserved);
    }

    /// The value determines every byte of the account data.
    pub proof fn bytes_are_unique(self, a: Seq<u8>, b: Seq<u8>)
        requires
            self.laid_out(a),
            self.laid_out(b),
        ensures
            a == b,
    {
        assert(bytes::part(a, 0, 0) =~= bytes::part(b, 0, 0));
        bytes::lemma_agree_bytes(a, b, 0, 8);
        assert(bytes::part(a, 8, 1) =~= bytes::part(b, 8, 1));
        bytes::lemma_agree_bytes(a, b, 8, 1);
        bytes::lemma_agree_bytes(a, b, 9, 7);
        bytes::lemma_agree_bytes(a, b, 16, 32);
        bytes::lemma_agree_signed(a, b, 48, 8);
        bytes::lemma_agree_signed(a, b, 56, 8);
        bytes::lemma_agree_value(a, b, 64, 8);
        bytes::lemma_agree_signed(a, b, 72, 8);
        bytes::lemma_agree_value(a, b, 80, 8);
        bytes::lemma_agree_bytes(a, b, 88, 32);
        assert(a =~= bytes::part(a, 0, 120));
        assert(b =~= bytes::part(b, 0, 120));
    }
}

} // verus!
