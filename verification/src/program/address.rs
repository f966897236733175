//! Program-derived addresses and well-known program ids.

use vstd::prelude::*;

use solana_program::pubkey::Pubkey;

use crate::bytes;
use crate::program::types;

verus! {

/// Seed prefix of a market: `[MARKET_SEED, base_mint, quote_mint]`.
pub const MARKET_SEED: [u8; 6] = [0x6d, 0x61, 0x72, 0x6b, 0x65, 0x74];

/// The only seed of the program-wide `Stats` account.
pub const STATS_SEED: [u8; 5] = [0x73, 0x74, 0x61, 0x74, 0x73];

/// Seed prefix of a vault token account: `[VAULT_SEED, market, mint]`.
pub const VAULT_SEED: [u8; 5] = [0x76, 0x61, 0x75, 0x6c, 0x74];

/// Seed prefix of the token authority of a market's vaults:
/// `[VAULT_AUTH_SEED, market]`.
pub const VAULT_AUTH_SEED: [u8; 10] = [
    0x76,
    0x61,
    0x75,
    0x6c,
    0x74,
    0x5f,
    0x61,
    0x75,
    0x74,
    0x68,
];

/// Seed prefix of a flat order book: `[BOOK_SEED, market]`.
pub const BOOK_SEED: [u8; 4] = [0x62, 0x6f, 0x6f, 0x6b];

/// Seed prefix of a price oracle: `[ORACLE_SEED, market]`.
pub const ORACLE_SEED: [u8; 6] = [0x6f, 0x72, 0x61, 0x63, 0x6c, 0x65];

/// Seed prefix of a funding accumulator: `[FUNDING_SEED, market]`.
pub const FUNDING_SEED: [u8; 7] = [0x66, 0x75, 0x6e, 0x64, 0x69, 0x6e, 0x67];

/// Seed prefix of a position: `[POSITION_SEED, user, market]`.
pub const POSITION_SEED: [u8; 8] = [0x70, 0x6f, 0x73, 0x69, 0x74, 0x69, 0x6f, 0x6e];

/// Seed prefix of an insurance fund: `[INSURANCE_FUND_SEED, market]`.
pub const INSURANCE_FUND_SEED: [u8; 14] = [0x69, 0x6e, 0x73, 0x75, 0x72, 0x61, 0x6e, 0x63, 0x65, 0x5f, 0x66, 0x75, 0x6e, 0x64];

/// Seed prefix of the token account of an insurance fund:
/// `[INSURANCE_FUND_TOKEN_SEED, market, mint]`.
pub const INSURANCE_FUND_TOKEN_SEED: [u8; 20] = [0x69, 0x6e, 0x73, 0x75, 0x72, 0x61, 0x6e, 0x63, 0x65, 0x5f, 0x66, 0x75, 0x6e, 0x64, 0x5f, 0x74, 0x6f, 0x6b, 0x65, 0x6e];

/// Seed prefix of a trading vault: `[TRADING_VAULT_SEED, market, manager]`.
pub const TRADING_VAULT_SEED: [u8; 13] = [0x74, 0x72, 0x61, 0x64, 0x69, 0x6e, 0x67, 0x5f, 0x76, 0x61, 0x75, 0x6c, 0x74];

/// Seed prefix of a share in a trading vault:
/// `[VAULT_SHARE_SEED, vault, owner]`.
pub const VAULT_SHARE_SEED: [u8; 11] = [0x76, 0x61, 0x75, 0x6c, 0x74, 0x5f, 0x73, 0x68, 0x61, 0x72, 0x65];

/// Seed prefix of a builder profile: `[BUILDER_PROFILE_SEED, builder]`.
pub const BUILDER_PROFILE_SEED: [u8; 15] = [0x62, 0x75, 0x69, 0x6c, 0x64, 0x65, 0x72, 0x5f, 0x70, 0x72, 0x6f, 0x66, 0x69, 0x6c, 0x65];

/// Seed prefix of the fee vault of a mint: `[FEE_VAULT_SEED, mint]`.
pub const FEE_VAULT_SEED: [u8; 9] = [0x66, 0x65, 0x65, 0x5f, 0x76, 0x61, 0x75, 0x6c, 0x74];

/// Seed prefix of the token authority of a fee vault:
/// `[FEE_VAULT_AUTH_SEED, mint]`.
pub const FEE_VAULT_AUTH_SEED: [u8; 14] = [0x66, 0x65, 0x65, 0x5f, 0x76, 0x61, 0x75, 0x6c, 0x74, 0x5f, 0x61, 0x75, 0x74, 0x68];

/// Seed prefix of a slab order book: `[SLAB_SEED, market]`.
pub const SLAB_SEED: [u8; 4] = [0x73, 0x6c, 0x61, 0x62];

/// Id of the System program.
pub const SYSTEM_PROGRAM_ID: [u8; 32] = [
    0, 0, 0, 0, 0, 0, 0, 0, 0, 0, 0, 0, 0, 0, 0, 0, 0, 0, 0, 0, 0, 0, 0, 0, 0, 0, 0, 0, 0, 0, 0, 0,
];

/// Id of the SPL Token program,
/// `TokenkegQfeZyiNwAJbNbGKPFXCWuBvf9Ss623VQ5DA` in base 58.
pub const SPL_TOKEN_PROGRAM_ID: [u8; 32] = [
    0x06, 0xdd, 0xf6, 0xe1, 0xd7, 0x65, 0xa1, 0x93, 0xd9, 0xcb, 0xe1, 0x46, 0xce, 0xeb, 0x79, 0xac,
    0x1c, 0xb4, 0x85, 0xed, 0x5f, 0x5b, 0x37, 0x91, 0x3a, 0x8c, 0xf5, 0x85, 0x7e, 0xff, 0x00, 0xa9,
];

/// The base-58 text of a key.
pub uninterp spec fn key_text(key: Seq<u8>) -> Seq<char>;

/// Calls `to_string` on a `Pubkey`, which writes its bytes in base 58.
#[verifier::external_body]
pub(crate) fn show_key(key: &[u8; 32]) -> (r: String)
    ensures
        r@ == key_text(key@),
{
    Pubkey::new_from_array(*key).to_string()
}

/// The address that `seeds` and `program_id` lead to, with its bump seed.
/// `None` if no bump seed takes the address off the curve, or if there are
/// too many seeds or one is too long.
pub uninterp spec fn program_address(seeds: Seq<Seq<u8>>, program_id: Seq<u8>) -> Option<
    (Seq<u8>, u8),
>;

/// The mathematical value of a derived address.
pub open spec fn derived(r: Option<([u8; 32], u8)>) -> Option<(Seq<u8>, u8)> {
    match r {
        Some((key, bump)) => Some((key@, bump)),
        None => None,
    }
}

/// `key` is the address that `seeds` and `program_id` lead to.
pub open spec fn leads_to(seeds: Seq<Seq<u8>>, program_id: Seq<u8>, key: Seq<u8>) -> bool {
    program_address(seeds, program_id) matches Some((found, _)) && found == key
}

/// Calls `Pubkey::try_find_program_address`, whose result is a function of
/// the seeds and the program id: a search for the highest bump seed that
/// takes the SHA-256 digest of seeds, bump, program id and a fixed marker off
/// the ed25519 curve. `find_program_address` is this call with a panic in
/// place of `None`.
#[verifier::external_body]
pub(crate) fn find_address(seeds: &Vec<Vec<u8>>, program_id: &[u8; 32]) -> (r: Option<
    ([u8; 32], u8),
>)
    ensures
        derived(r) == program_address(types::seed_list(seeds@), program_id@),
{
    let seeds: Vec<&[u8]> = seeds.iter().map(|seed| seed.as_slice()).collect();
    Pubkey::try_find_program_address(&seeds, &Pubkey::new_from_array(*program_id)).map(
        |(key, bump)| (key.to_bytes(), bump),
    )
}

/// The address that one seed leads to.
pub fn derive_from_seed(seed: &[u8], program_id: &[u8; 32]) -> (r: Option<([u8; 32], u8)>)
    ensures
        derived(r) == program_address(seq![seed@], program_id@),
{
    let seeds: Vec<Vec<u8>> = vec![bytes::copy_bytes(seed)];
    assert(types::seed_list(seeds@) =~= seq![seed@]);
    find_address(&seeds, program_id)
}

/// The address that a seed prefix and a key lead to.
pub fn derive_with_key(seed: &[u8], key: &[u8; 32], program_id: &[u8; 32]) -> (r: Option<
    ([u8; 32], u8),
>)
    ensures
        derived(r) == program_address(seq![seed@, key@], program_id@),
{
    let seeds: Vec<Vec<u8>> = vec![bytes::copy_bytes(seed), bytes::copy_bytes(key)];
    assert(types::seed_list(seeds@) =~= seq![seed@, key@]);
    find_address(&seeds, program_id)
}

/// The address that a seed prefix and two keys lead to.
pub fn derive_with_keys(
    seed: &[u8],
    first: &[u8; 32],
    second: &[u8; 32],
    program_id: &[u8; 32],
) -> (r: Option<([u8; 32], u8)>)
    ensures
        derived(r) == program_address(seq![seed@, first@, second@], program_id@),
{
    let seeds: Vec<Vec<u8>> = vec![
        bytes::copy_bytes(seed),
        bytes::copy_bytes(first),
        bytes::copy_bytes(second),
    ];
    assert(types::seed_list(seeds@) =~= seq![seed@, first@, second@]);
    find_address(&seeds, program_id)
}

} // verus!
