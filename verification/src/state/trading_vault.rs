//! Pooled trading vaults and the shares in them.

use vstd::prelude::*;

use crate::bytes;

verus! {

/// Fixed 8-byte tag identifying a `TradingVault` account.
///
/// The bytes read as text in a hex dump: `TVAULT\0\0`.
pub const TRADING_VAULT_DISCRIMINATOR: [u8; 8] = [0x54, 0x56, 0x41, 0x55, 0x4c, 0x54, 0x00, 0x00];

/// A pool that one manager trades in one market.
///
/// ```text
///     0  discriminator  [u8; 8]   TVAULT\0\0
///     8  bump           u8        PDA bump
///     9  _pad0          [u8; 7]
///    16  market         [u8; 32]
///    48  manager        [u8; 32]  trades on behalf of the pool
///    80  mint           [u8; 32]  mint of the pooled asset
///   112  total_shares   u64
///   120  total_assets   u64       net asset value
///   128  _reserved      [u8; 32]
///   160  total
/// ```
#[derive(Clone, Copy)]
pub struct TradingVault {
    pub discriminator: [u8; 8],
    pub bump: u8,
    pub _pad0: [u8; 7],
    pub market: [u8; 32],
    pub manager: [u8; 32],
    pub mint: [u8; 32],
    pub total_shares: u64,
    pub total_assets: u64,
    pub _reserved: [u8; 32],
}

impl TradingVault {
    /// Size of the account data in bytes.
    pub const LEN: usize = 160;

    /// `b` is this value laid out field by field at the offsets above.
    pub open spec fn laid_out(self, b: Seq<u8>) -> bool {
        &&& b.len() == TradingVault::LEN
        &&& bytes::part(b, 0, 8) == self.discriminator@
        &&& b[8] == self.bump
        &&& bytes::part(b, 9, 7) == self._pad0@
        &&& bytes::part(b, 16, 32) == self.market@
        &&& bytes::part(b, 48, 32) == self.manager@
        &&& bytes::part(b, 80, 32) == self.mint@
        &&& bytes::u64_at(b, 112) == self.total_shares
        &&& bytes::u64_at(b, 120) == self.total_assets
        &&& bytes::part(b, 128, 32) == self._reserved@
    }

    /// The account data that holds this value.
    pub fn to_bytes(&self) -> (r: Vec<u8>)
        ensures
            self.laid_out(r@),
    {
        let mut out: Vec<u8> = Vec::with_capacity(TradingVault::LEN);
        bytes::push_bytes(&mut out, &self.discriminator);
        out.push(self.bump);
        bytes::push_bytes(&mut out, &self._pad0);
        bytes::push_bytes(&mut out, &self.market);
        bytes::push_bytes(&mut out, &self.manager);
        bytes::push_bytes(&mut out, &self.mint);
        bytes::push_u64(&mut out, self.total_shares);
        bytes::push_u64(&mut out, self.total_assets);
        bytes::push_bytes(&mut out, &self._reserved);
        proof {
            bytes::lemma_pow256_values();
            bytes::lemma_le_round_trip(self.total_shares as nat, 8);
            bytes::lemma_le_round_trip(self.total_assets as nat, 8);
            assert(bytes::part(out@, 0, 8) =~= self.discriminator@);
            assert(bytes::part(out@, 9, 7) =~= self._pad0@);
            assert(bytes::part(out@, 16, 32) =~= self.market@);
            assert(bytes::part(out@, 48, 32) =~= self.manager@);
            assert(bytes::part(out@, 80, 32) =~= self.mint@);
            assert(bytes::part(out@, 112, 8) =~= bytes::le_bytes(self.total_shares as nat, 8));
            assert(bytes::part(out@, 120, 8) =~= bytes::le_bytes(self.total_assets as nat, 8));
            assert(bytes::part(out@, 128, 32) =~= self._reserved@);
        }
        out
    }

    /// Reads account data back; `None` if it is not exactly `LEN` bytes.
    pub fn from_bytes(b: &[u8]) -> (r: Option<TradingVault>)
        ensures
            r is Some <==> b@.len() == TradingVault::LEN,
            r matches Some(v) ==> v.laid_out(b@),
    {
        if b.len() != TradingVault::LEN {
            return None;
        }
        Some(
            TradingVault {
                discriminator: bytes::read_array(b, 0),
                bump: b[8],
                _pad0: bytes::read_array(b, 9),
                market: bytes::read_array(b, 16),
                manager: bytes::read_array(b, 48),
                mint: bytes::read_array(b, 80),
                total_shares: bytes::read_u64(b, 112),
                total_assets: bytes::read_u64(b, 120),
                _reserved: bytes::read_array(b, 128),
            },
        )
    }

    /// The value whose account data is all zero bytes.
    pub fn zeroed() -> (r: TradingVault)
        ensures
            r.laid_out(Seq::new(TradingVault::LEN as nat, |i: int| 0u8)),
    {
        let r: TradingVault = TradingVault {
            discriminator: [0u8; 8],
            bump: 0,
            _pad0: [0u8; 7],
            market: [0u8; 32],
            manager: [0u8; 32],
            mint: [0u8; 32],
            total_shares: 0,
            total_assets: 0,
            _reserved: [0u8; 32],
        };
        proof {
            let z: Seq<u8> = Seq::new(TradingVault::LEN as nat, |i: int| 0u8);
            assert(bytes::part(z, 0, 8) =~= r.discriminator@);
            assert(bytes::part(z, 9, 7) =~= r._pad0@);
            assert(bytes::part(z, 16, 32) =~= r.market@);
            assert(bytes::part(z, 48, 32) =~= r.manager@);
            assert(bytes::part(z, 80, 32) =~= r.mint@);
            bytes::lemma_zero_value(bytes::part(z, 112, 8));
            bytes::lemma_zero_value(bytes::part(z, 120, 8));
            assert(bytes::part(z, 128, 32) =~= r._reserved@);
        }
        r
    }

    /// Account data determines the value: no two values share their bytes.
    pub proof fn value_is_unique(self, other: TradingVault, b: Seq<u8>)
        requires
            self.laid_out(b),
            other.laid_out(b),
        ensures
            self == other,
    {
        assert(self.discriminator =~= other.discriminator);
        assert(self._pad0 =~= other._pad0);
        assert(self.market =~= other.market);
        assert(self.manager =~= other.manager);
        assert(self.mint =~= other.mint);
        assert(self._reserved =~= other._reserved);
    }

    /// The value determines every byte of the account data.
    pub proof fn bytes_are_unique(self, a: Seq<u8>, b: Seq<u8>)
        requires
            self.laid_out(a),
            self.laid_out(b),
        ensures
            a == b,
    {
        assert(bytes::part(a, 0, 0) =~= bytes::part(b, 0, 0));
        bytes::lemma_agree_bytes(a, b, 0, 8);
        assert(bytes::part(a, 8, 1) =~= bytes::part(b, 8, 1));
        bytes::lemma_agree_bytes(a, b, 8, 1);
        bytes::lemma_agree_bytes(a, b, 9, 7);
        bytes::lemma_agree_bytes(a, b, 16, 32);
        bytes::lemma_agree_bytes(a, b, 48, 32);
        bytes::lemma_agree_bytes(a, b, 80, 32);
        bytes::lemma_agree_value(a, b, 112, 8);
        bytes::lemma_agree_value(a, b, 120, 8);
        bytes::lemma_agree_bytes(a, b, 128, 32);
        assert(a =~= bytes::part(a, 0, 160));
        assert(b =~= bytes::part(b, 0, 160));
    }
}

/// Fixed 8-byte tag identifying a `VaultShare` account.
///
/// The bytes read as text in a hex dump: `VSHARE\0\0`.
pub const VAULT_SHARE_DISCRIMINATOR: [u8; 8] = [0x56, 0x53, 0x48, 0x41, 0x52, 0x45, 0x00, 0x00];

/// What one depositor holds of one pool.
///
/// ```text
///     0  discriminator  [u8; 8]   VSHARE\0\0
///     8  bump           u8        PDA bump
///     9  _pad0          [u8; 7]
///    16  vault          [u8; 32]  the pool
///    48  owner          [u8; 32]
///    80  shares         u64
///    88  cost_basis     u64       all assets ever put in
///    96  _reserved      [u8; 32]
///   128  total
/// ```
#[derive(Clone, Copy)]
pub struct VaultShare {
    pub discriminator: [u8; 8],
    pub bump: u8,
    pub _pad0: [u8; 7],
    pub vault: [u8; 32],
    pub owner: [u8; 32],
    pub shares: u64,
    pub cost_basis: u64,
    pub _reserved: [u8; 32],
}

impl VaultShare {
    /// Size of the account data in bytes.
    pub const LEN: usize = 128;

    /// `b` is this value laid out field by field at the offsets above.
    pub open spec fn laid_out(self, b: Seq<u8>) -> bool {
        &&& b.len() == VaultShare::LEN
        &&& bytes::part(b, 0, 8) == self.discriminator@
        &&& b[8] == self.bump
        &&& bytes::part(b, 9, 7) == self._pad0@
        &&& bytes::part(b, 16, 32) == self.vault@
        &&& bytes::part(b, 48, 32) == self.owner@
        &&& bytes::u64_at(b, 80) == self.shares
        &&& bytes::u64_at(b, 88) == self.cost_basis
        &&& bytes::part(b, 96, 32) == self._reserved@
    }

    /// The account data that holds this value.
    pub fn to_bytes(&self) -> (r: Vec<u8>)
        ensures
            self.laid_out(r@),
    {
        let mut out: Vec<u8> = Vec::with_capacity(VaultShare::LEN);
        bytes::push_bytes(&mut out, &self.discriminator);
        out.push(self.bump);
        bytes::push_bytes(&mut out, &self._pad0);
        bytes::push_bytes(&mut out, &self.vault);
        bytes::push_bytes(&mut out, &self.owner);
        bytes::push_u64(&mut out, self.shares);
        bytes::push_u64(&mut out, self.cost_basis);
        bytes::push_bytes(&mut out, &self._reserved);
        proof {
            bytes::lemma_pow256_values();
            bytes::lemma_le_round_trip(self.shares as nat, 8);
            bytes::lemma_le_round_trip(self.cost_basis as nat, 8);
            assert(bytes::part(out@, 0, 8) =~= self.discriminator@);
            assert(bytes::part(out@, 9, 7) =~= self._pad0@);
            assert(bytes::part(out@, 16, 32) =~= self.vault@);
            assert(bytes::part(out@, 48, 32) =~= self.owner@);
            assert(bytes::part(out@, 80, 8) =~= bytes::le_bytes(self.shares as nat, 8));
            assert(bytes::part(out@, 88, 8) =~= bytes::le_bytes(self.cost_basis as nat, 8));
            assert(bytes::part(out@, 96, 32) =~= self._reserved@);
        }
        out
    }

    /// Reads account data back; `None` if it is not exactly `LEN` bytes.
    pub fn from_bytes(b: &[u8]) -> (r: Option<VaultShare>)
        ensures
            r is Some <==> b@.len() == VaultShare::LEN,
            r matches Some(v) ==> v.laid_out(b@),
    {
        if b.len() != VaultShare::LEN {
            return None;
        }
        Some(
            VaultShare {
                discriminator: bytes::read_array(b, 0),
                bump: b[8],
                _pad0: bytes::read_array(b, 9),
                vault: bytes::read_array(b, 16),
                owner: bytes::read_array(b, 48),
                shares: bytes::read_u64(b, 80),
                cost_basis: bytes::read_u64(b, 88),
                _reserved: bytes::read_array(b, 96),
            },
        )
    }

    /// The value whose account data is all zero bytes.
    pub fn zeroed() -> (r: VaultShare)
        ensures
            r.laid_out(Seq::new(VaultShare::LEN as nat, |i: int| 0u8)),
    {
        let r: VaultShare = VaultShare {
            discriminator: [0u8; 8],
            bump: 0,
            _pad0: [0u8; 7],
            vault: [0u8; 32],
            owner: [0u8; 32],
            shares: 0,
            cost_basis: 0,
            _reserved: [0u8; 32],
        };
        proof {
            let z: Seq<u8> = Seq::new(VaultShare::LEN as nat, |i: int| 0u8);
            assert(bytes::part(z, 0, 8) =~= r.discriminator@);
            assert(bytes::part(z, 9, 7) =~= r._pad0@);
            assert(bytes::part(z, 16, 32) =~= r.vault@);
            assert(bytes::part(z, 48, 32) =~= r.owner@);
            bytes::lemma_zero_value(bytes::part(z, 80, 8));
            bytes::lemma_zero_value(bytes::part(z, 88, 8));
            assert(bytes::part(z, 96, 32) =~= r._reserved@);
        }
        r
    }

    /// Account data determines the value: no two values share their bytes.
    pub proof fn value_is_unique(self, other: VaultShare, b: Seq<u8>)
        requires
            self.laid_out(b),
            other.laid_out(b),
        ensures
            self == other,
    {
        assert(self.discriminator =~= other.discriminator);
        assert(self._pad0 =~= other._pad0);
        assert(self.vault =~= other.vault);
        assert(self.owner =~= other.owner);
        assert(self._reserved =~= other._reserved);
    }

    /// The value determines every byte of the account data.
    pub proof fn bytes_are_unique(self, a: Seq<u8>, b: Seq<u8>)
        requires
            self.laid_out(a),
            self.laid_out(b),
        ensures
            a == b,
    {
        assert(bytes::part(a, 0, 0) =~= bytes::part(b, 0, 0));
        bytes::lemma_agree_bytes(a, b, 0, 8);
        assert(bytes::part(a, 8, 1) =~= bytes::part(b, 8, 1));
        bytes::lemma_agree_bytes(a, b, 8, 1);
        bytes::lemma_agree_bytes(a, b, 9, 7);
        bytes::lemma_agree_bytes(a, b, 16, 32);
        bytes::lemma_agree_bytes(a, b, 48, 32);
        bytes::lemma_agree_value(a, b, 80, 8);
        bytes::lemma_agree_value(a, b, 88, 8);
        bytes::lemma_agree_bytes(a, b, 96, 32);
        assert(a =~= bytes::part(a, 0, 128));
        assert(b =~= bytes::part(b, 0, 128));
    }
}

} // verus!
