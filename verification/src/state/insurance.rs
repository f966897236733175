//! Insurance funds.

use vstd::prelude::*;

use crate::bytes;

verus! {

/// Fixed 8-byte tag identifying an `InsuranceFund` account.
///
/// The bytes read as text in a hex dump: `INSFUND\0`.
pub const INSURANCE_FUND_DISCRIMINATOR: [u8; 8] = [0x49, 0x4e, 0x53, 0x46, 0x55, 0x4e, 0x44, 0x00];

/// The books of a fund that takes a slice of liquidation penalties and covers
/// shortfalls.
///
/// ```text
///     0  discriminator    [u8; 8]   INSFUND\0
///     8  bump             u8        PDA bump
///     9  _pad0            [u8; 7]
///    16  market           [u8; 32]
///    48  mint             [u8; 32]  quote mint
///    80  balance          u64       mirrors the token account
///    88  total_deposits   u64       ever credited
///    96  total_drawdowns  u64       ever drained
///   104  _reserved        [u8; 32]
///   136  total
/// ```
#[derive(Clone, Copy)]
pub struct InsuranceFund {
    pub discriminator: [u8; 8],
    pub bump: u8,
    pub _pad0: [u8; 7],
    pub market: [u8; 32],
    pub mint: [u8; 32],
    pub balance: u64,
    pub total_deposits: u64,
    pub total_drawdowns: u64,
    pub _reserved: [u8; 32],
}

impl InsuranceFund {
    /// Size of the account data in bytes.
    pub const LEN: usize = 136;

    /// `b` is this value laid out field by field at the offsets above.
    pub open spec fn laid_out(self, b: Seq<u8>) -> bool {
        &&& b.len() == InsuranceFund::LEN
        &&& bytes::part(b, 0, 8) == self.discriminator@
        &&& b[8] == self.bump
        &&& bytes::part(b, 9, 7) == self._pad0@
        &&& bytes::part(b, 16, 32) == self.market@
        &&& bytes::part(b, 48, 32) == self.mint@
        &&& bytes::u64_at(b, 80) == self.balance
        &&& bytes::u64_at(b, 88) == self.total_deposits
        &&& bytes::u64_at(b, 96) == self.total_drawdowns
        &&& bytes::part(b, 104, 32) == self._reserved@
    }

    /// The account data that holds this value.
    pub fn to_bytes(&self) -> (r: Vec<u8>)
        ensures
            self.laid_out(r@),
    {
        let mut out: Vec<u8> = Vec::with_capacity(InsuranceFund::LEN);
        bytes::push_bytes(&mut out, &self.discriminator);
        out.push(self.bump);
        bytes::push_bytes(&mut out, &self._pad0);
        bytes::push_bytes(&mut out, &self.market);
        bytes::push_bytes(&mut out, &self.mint);
        bytes::push_u64(&mut out, self.balance);
        bytes::push_u64(&mut out, self.total_deposits);
        bytes::push_u64(&mut out, self.total_drawdowns);
        bytes::push_bytes(&mut out, &self._reserved);
        proof {
            bytes::lemma_pow256_values();
            bytes::lemma_le_round_trip(self.balance as nat, 8);
            bytes::lemma_le_round_trip(self.total_deposits as nat, 8);
            bytes::lemma_le_round_trip(self.total_drawdowns as nat, 8);
            assert(bytes::part(out@, 0, 8) =~= self.discriminator@);
            assert(bytes::part(out@, 9, 7) =~= self._pad0@);
            assert(bytes::part(out@, 16, 32) =~= self.market@);
            assert(bytes::part(out@, 48, 32) =~= self.mint@);
            assert(bytes::part(out@, 80, 8) =~= bytes::le_bytes(self.balance as nat, 8));
            assert(bytes::part(out@, 88, 8) =~= bytes::le_bytes(self.total_deposits as nat, 8));
            assert(bytes::part(out@, 96, 8) =~= bytes::le_bytes(self.total_drawdowns as nat, 8));
            assert(bytes::part(out@, 104, 32) =~= self._reserved@);
        }
        out
    }

    /// Reads account data back; `None` if it is not exactly `LEN` bytes.
    pub fn from_bytes(b: &[u8]) -> (r: Option<InsuranceFund>)
        ensures
            r is Some <==> b@.len() == InsuranceFund::LEN,
            r matches Some(v) ==> v.laid_out(b@),
    {
        if b.len() != InsuranceFund::LEN {
            return None;
        }
        Some(
            InsuranceFund {
                discriminator: bytes::read_array(b, 0),
                bump: b[8],
                _pad0: bytes::read_array(b, 9),
                market: bytes::read_array(b, 16),
                mint: bytes::read_array(b, 48),
                balance: bytes::read_u64(b, 80),
                total_deposits: bytes::read_u64(b, 88),
                total_drawdowns: bytes::read_u64(b, 96),
                _reserved: bytes::read_array(b, 104),
            },
        )
    }

    /// The value whose account data is all zero bytes.
    pub fn zeroed() -> (r: InsuranceFund)
        ensures
            r.laid_out(Seq::new(InsuranceFund::LEN as nat, |i: int| 0u8)),
    {
        let r: InsuranceFund = InsuranceFund {
            discriminator: [0u8; 8],
            bump: 0,
            _pad0: [0u8; 7],
            market: [0u8; 32],
            mint: [0u8; 32],
            balance: 0,
            total_deposits: 0,
            total_drawdowns: 0,
            _reserved: [0u8; 32],
        };
        proof {
            let z: Seq<u8> = Seq::new(InsuranceFund::LEN as nat, |i: int| 0u8);
            assert(bytes::part(z, 0, 8) =~= r.discriminator@);
            assert(bytes::part(z, 9, 7) =~= r._pad0@);
            assert(bytes::part(z, 16, 32) =~= r.market@);
            assert(bytes::part(z, 48, 32) =~= r.mint@);
            bytes::lemma_zero_value(bytes::part(z, 80, 8));
            bytes::lemma_zero_value(bytes::part(z, 88, 8));
            bytes::lemma_zero_value(bytes::part(z, 96, 8));
            assert(bytes::part(z, 104, 32) =~= r._reserved@);
        }
        r
    }

    /// Account data determines the value: no two values share their bytes.
    pub proof fn value_is_unique(self, other: InsuranceFund, b: Seq<u8>)
        requires
            self.laid_out(b),
            other.laid_out(b),
        ensures
            self == other,
    {
        assert(self.discriminator =~= other.discriminator);
        assert(self._pad0 =~= other._pad0);
        assert(self.market =~= other.market);
        assert(self.mint =~= other.mint);
        assert(self._reserved =~= other._reserved);
    }

    /// The value determines every byte of the account data.
    pub proof fn bytes_are_unique(self, a: Seq<u8>, b: Seq<u8>)
        requires
            self.laid_out(a),
            self.laid_out(b),
        ensures
            a == b,
    {
        assert(bytes::part(a, 0, 0) =~= bytes::part(b, 0, 0));
        bytes::lemma_agree_bytes(a, b, 0, 8);
        assert(bytes::part(a, 8, 1) =~= bytes::part(b, 8, 1));
        bytes::lemma_agree_bytes(a, b, 8, 1);
        bytes::lemma_agree_bytes(a, b, 9, 7);
        bytes::lemma_agree_bytes(a, b, 16, 32);
        bytes::lemma_agree_bytes(a, b, 48, 32);
        bytes::lemma_agree_value(a, b, 80, 8);
        bytes::lemma_agree_value(a, b, 88, 8);
        bytes::lemma_agree_value(a, b, 96, 8);
        bytes::lemma_agree_bytes(a, b, 104, 32);
        assert(a =~= bytes::part(a, 0, 136));
        assert(b =~= bytes::part(b, 0, 136));
    }
}

} // verus!
