//! Which words and keys the addresses of the program are derived from.

use vstd::prelude::*;

use crate::program::address;
use crate::program::laws;
use crate::program::laws::AddressKind;

verus! {

/// A seed spells a word in ASCII.
pub open spec fn spells(seed: Seq<u8>, word: Seq<char>) -> bool {
    &&& seed.len() == word.len()
    &&& forall|i: int| 0 <= i < word.len() ==> #[trigger] seed[i] as char == word[i]
}

/// Every kind of address is derived from a word of its own, followed by the keys
/// that tell two addresses of this kind apart.
pub proof fn seeds_spell_their_words(a: Seq<u8>, b: Seq<u8>)
    ensures
        ({
            let s = laws::kind_seeds(AddressKind::Market, a, b);
            s.len() == 3 && spells(s[0], "market"@) && s[1] == a && s[2] == b
        }),
        ({
            let s = laws::kind_seeds(AddressKind::Stats, a, b);
            s.len() == 1 && spells(s[0], "stats"@)
        }),
        ({
            let s = laws::kind_seeds(AddressKind::Vault, a, b);
            s.len() == 3 && spells(s[0], "vault"@) && s[1] == a && s[2] == b
        }),
        ({
            let s = laws::kind_seeds(AddressKind::VaultAuthority, a, b);
            s.len() == 2 && spells(s[0], "vault_auth"@) && s[1] == a
        }),
        ({
            let s = laws::kind_seeds(AddressKind::Book, a, b);
            s.len() == 2 && spells(s[0], "book"@) && s[1] == a
        }),
        ({
            let s = laws::kind_seeds(AddressKind::Oracle, a, b);
            s.len() == 2 && spells(s[0], "oracle"@) && s[1] == a
        }),
        ({
            let s = laws::kind_seeds(AddressKind::Funding, a, b);
            s.len() == 2 && spells(s[0], "funding"@) && s[1] == a
        }),
        ({
            let s = laws::kind_seeds(AddressKind::Position, a, b);
            s.len() == 3 && spells(s[0], "position"@) && s[1] == a && s[2] == b
        }),
        ({
            let s = laws::kind_seeds(AddressKind::InsuranceFund, a, b);
            s.len() == 2 && spells(s[0], "insurance_fund"@) && s[1] == a
        }),
        ({
            let s = laws::kind_seeds(AddressKind::InsuranceFundToken, a, b);
            s.len() == 3 && spells(s[0], "insurance_fund_token"@) && s[1] == a && s[2] == b
        }),
        ({
            let s = laws::kind_seeds(AddressKind::TradingVault, a, b);
            s.len() == 3 && spells(s[0], "trading_vault"@) && s[1] == a && s[2] == b
        }),
        ({
            let s = laws::kind_seeds(AddressKind::VaultShare, a, b);
            s.len() == 3 && spells(s[0], "vault_share"@) && s[1] == a && s[2] == b
        }),
        ({
            let s = laws::kind_seeds(AddressKind::BuilderProfile, a, b);
            s.len() == 2 && spells(s[0], "builder_profile"@) && s[1] == a
        }),
        ({
            let s = laws::kind_seeds(AddressKind::FeeVault, a, b);
            s.len() == 2 && spells(s[0], "fee_vault"@) && s[1] == a
        }),
        ({
            let s = laws::kind_seeds(AddressKind::FeeVaultAuthority, a, b);
            s.len() == 2 && spells(s[0], "fee_vault_auth"@) && s[1] == a
        }),
        ({
            let s = laws::kind_seeds(AddressKind::Slab, a, b);
            s.len() == 2 && spells(s[0], "slab"@) && s[1] == a
        }),
{
    reveal_strlit("market");
    reveal_strlit("stats");
    reveal_strlit("vault");
    reveal_strlit("vault_auth");
    reveal_strlit("book");
    reveal_strlit("oracle");
    reveal_strlit("funding");
    reveal_strlit("position");
    reveal_strlit("insurance_fund");
    reveal_strlit("insurance_fund_token");
    reveal_strlit("trading_vault");
    reveal_strlit("vault_share");
    reveal_strlit("builder_profile");
    reveal_strlit("fee_vault");
    reveal_strlit("fee_vault_auth");
    reveal_strlit("slab");
}

/// The System program has the key of zeros, and the Token program another.
pub proof fn program_ids_differ()
    ensures
        address::SYSTEM_PROGRAM_ID@ == Seq::new(32, |i: int| 0u8),
        address::SPL_TOKEN_PROGRAM_ID@ != address::SYSTEM_PROGRAM_ID@,
{
    assert(address::SYSTEM_PROGRAM_ID@ =~= Seq::new(32, |i: int| 0u8));
    assert(address::SPL_TOKEN_PROGRAM_ID@[0] == 0x06);
}

} // verus!
