//! Markets and the program-wide counter.

use vstd::prelude::*;

use crate::bytes;

verus! {

/// Fixed 8-byte tag identifying a `Market` account.
///
/// The bytes read as text in a hex dump: `MARKET\0\0`.
pub const MARKET_DISCRIMINATOR: [u8; 8] = [0x4d, 0x41, 0x52, 0x4b, 0x45, 0x54, 0x00, 0x00];

/// A perp market.
///
/// ```text
///     0  discriminator  [u8; 8]    MARKET\0\0
///     8  version        u8         schema version
///     9  bump           u8         PDA bump, 0 if not a PDA
///    10  _pad0          [u8; 6]
///    16  authority      [u8; 32]   admin key
///    48  base_mint      [u8; 32]   base asset mint
///    80  quote_mint     [u8; 32]   quote asset mint
///   112  tick_size      u64        smallest price step, quote units
///   120  lot_size       u64        smallest size step, base units
///   128  _reserved      [u8; 128]  room for later fields
///   256  total
/// ```
#[derive(Clone, Copy)]
pub struct Market {
    pub discriminator: [u8; 8],
    pub version: u8,
    pub bump: u8,
    pub _pad0: [u8; 6],
    pub authority: [u8; 32],
    pub base_mint: [u8; 32],
    pub quote_mint: [u8; 32],
    pub tick_size: u64,
    pub lot_size: u64,
    pub _reserved: [u8; 128],
}

impl Market {
    /// Size of the account data in bytes.
    pub const LEN: usize = 256;

    /// Schema version that this crate writes.
    pub const VERSION: u8 = 1;

    /// `b` is this value laid out field by field at the offsets above.
    pub open spec fn laid_out(self, b: Seq<u8>) -> bool {
        &&& b.len() == Market::LEN
        &&& bytes::part(b, 0, 8) == self.discriminator@
        &&& b[8] == self.version
        &&& b[9] == self.bump
        &&& bytes::part(b, 10, 6) == self._pad0@
        &&& bytes::part(b, 16, 32) == self.authority@
        &&& bytes::part(b, 48, 32) == self.base_mint@
        &&& bytes::part(b, 80, 32) == self.quote_mint@
        &&& bytes::u64_at(b, 112) == self.tick_size
        &&& bytes::u64_at(b, 120) == self.lot_size
        &&& bytes::part(b, 128, 128) == self._reserved@
    }

    /// The account data that holds this value.
    pub fn to_bytes(&self) -> (r: Vec<u8>)
        ensures
            self.laid_out(r@),
    {
        let mut out: Vec<u8> = Vec::with_capacity(Market::LEN);
        bytes::push_bytes(&mut out, &self.discriminator);
        out.push(self.version);
        out.push(self.bump);
        bytes::push_bytes(&mut out, &self._pad0);
        bytes::push_bytes(&mut out, &self.authority);
        bytes::push_bytes(&mut out, &self.base_mint);
        bytes::push_bytes(&mut out, &self.quote_mint);
        bytes::push_u64(&mut out, self.tick_size);
        bytes::push_u64(&mut out, self.lot_size);
        bytes::push_bytes(&mut out, &self._reserved);
        proof {
            bytes::lemma_pow256_values();
            bytes::lemma_le_round_trip(self.tick_size as nat, 8);
            bytes::lemma_le_round_trip(self.lot_size as nat, 8);
            assert(bytes::part(out@, 0, 8) =~= self.discriminator@);
            assert(bytes::part(out@, 10, 6) =~= self._pad0@);
            assert(bytes::part(out@, 16, 32) =~= self.authority@);
            assert(bytes::part(out@, 48, 32) =~= self.base_mint@);
            assert(bytes::part(out@, 80, 32) =~= self.quote_mint@);
            assert(bytes::part(out@, 112, 8) =~= bytes::le_bytes(self.tick_size as nat, 8));
            assert(bytes::part(out@, 120, 8) =~= bytes::le_bytes(self.lot_size as nat, 8));
            assert(bytes::part(out@, 128, 128) =~= self._reserved@);
        }
        out
    }

    /// Reads account data back; `None` if it is not exactly `LEN` bytes.
    pub fn from_bytes(b: &[u8]) -> (r: Option<Market>)
        ensures
            r is Some <==> b@.len() == Market::LEN,
            r matches Some(v) ==> v.laid_out(b@),
    {
        if b.len() != Market::LEN {
            return None;
        }
        Some(
            Market {
                discriminator: bytes::read_array(b, 0),
                version: b[8],
                bump: b[9],
                _pad0: bytes::read_array(b, 10),
                authority: bytes::read_array(b, 16),
                base_mint: bytes::read_array(b, 48),
                quote_mint: bytes::read_array(b, 80),
                tick_size: bytes::read_u64(b, 112),
                lot_size: bytes::read_u64(b, 120),
                _reserved: bytes::read_array(b, 128),
            },
        )
    }

    /// The value whose account data is all zero bytes.
    pub fn zeroed() -> (r: Market)
        ensures
            r.laid_out(Seq::new(Market::LEN as nat, |i: int| 0u8)),
    {
        let r: Market = Market {
            discriminator: [0u8; 8],
            version: 0,
            bump: 0,
            _pad0: [0u8; 6],
            authority: [0u8; 32],
            base_mint: [0u8; 32],
            quote_mint: [0u8; 32],
            tick_size: 0,
            lot_size: 0,
            _reserved: [0u8; 128],
        };
        proof {
            let z: Seq<u8> = Seq::new(Market::LEN as nat, |i: int| 0u8);
            assert(bytes::part(z, 0, 8) =~= r.discriminator@);
            assert(bytes::part(z, 10, 6) =~= r._pad0@);
            assert(bytes::part(z, 16, 32) =~= r.authority@);
            assert(bytes::part(z, 48, 32) =~= r.base_mint@);
            assert(bytes::part(z, 80, 32) =~= r.quote_mint@);
            bytes::lemma_zero_value(bytes::part(z, 112, 8));
            bytes::lemma_zero_value(bytes::part(z, 120, 8));
            assert(bytes::part(z, 128, 128) =~= r._reserved@);
        }
        r
    }

    /// Account data determines the value: no two values share their bytes.
    pub proof fn value_is_unique(self, other: Market, b: Seq<u8>)
        requires
            self.laid_out(b),
            other.laid_out(b),
        ensures
            self == other,
    {
        assert(self.discriminator =~= other.discriminator);
        assert(self._pad0 =~= other._pad0);
        assert(self.authority =~= other.authority);
        assert(self.base_mint =~= other.base_mint);
        assert(self.quote_mint =~= other.quote_mint);
        assert(self._reserved =~= other._reserved);
    }

    /// The value determines every byte of the account data.
    pub proof fn bytes_are_unique(self, a: Seq<u8>, b: Seq<u8>)
        requires
            self.laid_out(a),
            self.laid_out(b),
        ensures
            a == b,
    {
        assert(bytes::part(a, 0, 0) =~= bytes::part(b, 0, 0));
        bytes::lemma_agree_bytes(a, b, 0, 8);
        assert(bytes::part(a, 8, 1) =~= bytes::part(b, 8, 1));
        bytes::lemma_agree_bytes(a, b, 8, 1);
        assert(bytes::part(a, 9, 1) =~= bytes::part(b, 9, 1));
        bytes::lemma_agree_bytes(a, b, 9, 1);
        bytes::lemma_agree_bytes(a, b, 10, 6);
        bytes::lemma_agree_bytes(a, b, 16, 32);
        bytes::lemma_agree_bytes(a, b, 48, 32);
        bytes::lemma_agree_bytes(a, b, 80, 32);
        bytes::lemma_agree_value(a, b, 112, 8);
        bytes::lemma_agree_value(a, b, 120, 8);
        bytes::lemma_agree_bytes(a, b, 128, 128);
        assert(a =~= bytes::part(a, 0, 256));
        assert(b =~= bytes::part(b, 0, 256));
    }
}

/// Fixed 8-byte tag identifying a `Stats` account.
///
/// The bytes read as text in a hex dump: `STATS\0\0\0`.
pub const STATS_DISCRIMINATOR: [u8; 8] = [0x53, 0x54, 0x41, 0x54, 0x53, 0x00, 0x00, 0x00];

/// The one counter of a program. Every instruction that writes it takes the
/// same lock, so such instructions never run side by side.
///
/// ```text
///     0  discriminator  [u8; 8]   STATS\0\0\0
///     8  bump           u8        PDA bump
///     9  _pad0          [u8; 7]
///    16  market_count   u64       number of bumps seen
///    24  _reserved      [u8; 32]
///    56  total
/// ```
#[derive(Clone, Copy)]
pub struct Stats {
    pub discriminator: [u8; 8],
    pub bump: u8,
    pub _pad0: [u8; 7],
    pub market_count: u64,
    pub _reserved: [u8; 32],
}

impl Stats {
    /// Size of the account data in bytes.
    pub const LEN: usize = 56;

    /// `b` is this value laid out field by field at the offsets above.
    pub open spec fn laid_out(self, b: Seq<u8>) -> bool {
        &&& b.len() == Stats::LEN
        &&& bytes::part(b, 0, 8) == self.discriminator@
        &&& b[8] == self.bump
        &&& bytes::part(b, 9, 7) == self._pad0@
        &&& bytes::u64_at(b, 16) == self.market_count
        &&& bytes::part(b, 24, 32) == self._reserved@
    }

    /// The account data that holds this value.
    pub fn to_bytes(&self) -> (r: Vec<u8>)
        ensures
            self.laid_out(r@),
    {
        let mut out: Vec<u8> = Vec::with_capacity(Stats::LEN);
        bytes::push_bytes(&mut out, &self.discriminator);
        out.push(self.bump);
        bytes::push_bytes(&mut out, &self._pad0);
        bytes::push_u64(&mut out, self.market_count);
        bytes::push_bytes(&mut out, &self._reserved);
        proof {
            bytes::lemma_pow256_values();
            bytes::lemma_le_round_trip(self.market_count as nat, 8);
            assert(bytes::part(out@, 0, 8) =~= self.discriminator@);
            assert(bytes::part(out@, 9, 7) =~= self._pad0@);
            assert(bytes::part(out@, 16, 8) =~= bytes::le_bytes(self.market_count as nat, 8));
            assert(bytes::part(out@, 24, 32) =~= self._reserved@);
        }
        out
    }

    /// Reads account data back; `None` if it is not exactly `LEN` bytes.
    pub fn from_bytes(b: &[u8]) -> (r: Option<Stats>)
        ensures
            r is Some <==> b@.len() == Stats::LEN,
            r matches Some(v) ==> v.laid_out(b@),
    {
        if b.len() != Stats::LEN {
            return None;
        }
        Some(
            Stats {
                discriminator: bytes::read_array(b, 0),
                bump: b[8],
                _pad0: bytes::read_array(b, 9),
                market_count: bytes::read_u64(b, 16),
                _reserved: bytes::read_array(b, 24),
            },
        )
    }

    /// The value whose account data is all zero bytes.
    pub fn zeroed() -> (r: Stats)
        ensures
            r.laid_out(Seq::new(Stats::LEN as nat, |i: int| 0u8)),
    {
        let r: Stats = Stats {
            discriminator: [0u8; 8],
            bump: 0,
            _pad0: [0u8; 7],
            market_count: 0,
            _reserved: [0u8; 32],
        };
        proof {
            let z: Seq<u8> = Seq::new(Stats::LEN as nat, |i: int| 0u8);
            assert(bytes::part(z, 0, 8) =~= r.discriminator@);
            assert(bytes::part(z, 9, 7) =~= r._pad0@);
            bytes::lemma_zero_value(bytes::part(z, 16, 8));
            assert(bytes::part(z, 24, 32) =~= r._reserved@);
        }
        r
    }

    /// Account data determines the value: no two values share their bytes.
    pub proof fn value_is_unique(self, other: Stats, b: Seq<u8>)
        requires
            self.laid_out(b),
            other.laid_out(b),
        ensures
            self == other,
    {
        assert(self.discriminator =~= other.discriminator);
        assert(self._pad0 =~= other._pad0);
        assert(self._reserved =~= other._reserved);
    }

    /// The value determines every byte of the account data.
    pub proof fn bytes_are_unique(self, a: Seq<u8>, b: Seq<u8>)
        requires
            self.laid_out(a),
            self.laid_out(b),
        ensures
            a == b,
    {
        assert(bytes::part(a, 0, 0) =~= bytes::part(b, 0, 0));
        bytes::lemma_agree_bytes(a, b, 0, 8);
        assert(bytes::part(a, 8, 1) =~= bytes::part(b, 8, 1));
        bytes::lemma_agree_bytes(a, b, 8, 1);
        bytes::lemma_agree_bytes(a, b, 9, 7);
        bytes::lemma_agree_value(a, b, 16, 8);
        bytes::lemma_agree_bytes(a, b, 24, 32);
        assert(a =~= bytes::part(a, 0, 56));
        assert(b =~= bytes::part(b, 0, 56));
    }
}

} // verus!
