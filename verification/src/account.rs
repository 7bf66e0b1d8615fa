//! The plain values that the refund logic reads: ledger addresses, the
//! escrow record, and asset holding accounts.

use vstd::prelude::*;

verus! {

broadcast use vstd::array::group_array_axioms;

/// A 32-byte ledger address. Identities, asset descriptors, account
/// addresses and derived authorities are all values of this type.
#[verifier::ext_equal]
#[derive(Clone, Copy, Debug, PartialEq, Eq)]
pub struct AccountId {
    pub bytes: [u8; 32],
}

/// Two addresses are equal exactly when their byte sequences are.
pub proof fn lemma_id_eq_bytes(a: AccountId, b: AccountId)
    ensures
        (a == b) <==> (a.bytes@ == b.bytes@),
{
    if a.bytes@ == b.bytes@ {
        assert(forall|i: int| 0 <= i < 32 ==> a.bytes[i] == b.bytes[i]);
        assert(a.bytes =~= b.bytes);
        assert(a =~= b);
    }
}

/// Address comparison, byte by byte.
pub fn id_eq(a: &AccountId, b: &AccountId) -> (r: bool)
    ensures
        r == (*a == *b),
        r == (a.bytes@ == b.bytes@),
{
    proof {
        lemma_id_eq_bytes(*a, *b);
    }
    let mut i: usize = 0;
    while i < 32
        invariant
            0 <= i <= 32,
            forall|j: int| 0 <= j < i ==> a.bytes[j] == b.bytes[j],
        decreases 32 - i,
    {
        if a.bytes[i] != b.bytes[i] {
            return false;
        }
        i += 1;
    }
    proof {
        assert(a.bytes =~= b.bytes);
    }
    true
}

/// The escrow record: the persistent descriptor binding a maker, an asset
/// type and a derivation nonce to a vault. `maker`, `mint_a` and `seed` are
/// fixed at creation; `bump` is the discriminant byte that fixes the
/// authority derivation to a canonical result.
#[verifier::ext_equal]
#[derive(Clone, Copy, Debug, PartialEq, Eq)]
pub struct Escrow {
    /// Identity of the maker who may reclaim the escrow.
    pub maker: AccountId,
    /// Identifier of the escrowed asset type.
    pub mint_a: AccountId,
    /// Derivation nonce chosen at creation.
    pub seed: u64,
    /// Discriminant byte of the authority derivation.
    pub bump: u8,
}

/// A holding account for one asset: which asset it holds, which authority
/// controls it, and its balance.
#[verifier::ext_equal]
#[derive(Clone, Copy, Debug, PartialEq, Eq)]
pub struct TokenAccount {
    /// The asset type held.
    pub mint: AccountId,
    /// The authority that controls withdrawals.
    pub authority: AccountId,
    /// Balance, in base units of the asset.
    pub amount: u64,
}

} // verus!
