//! Key-less authority derivation.
//!
//! A derived authority is a deterministic function of a namespace tag, the
//! maker's identity, the escrow's nonce and a discriminant byte, which the
//! ledger runtime can recompute independently. Only the derivation inputs are
//! ever stored; at use time the authority is re-derived and compared.

use vstd::prelude::*;
use crate::account::AccountId;

verus! {

/// What the ledger's program-address derivation returns for one tag, owner,
/// nonce, discriminant byte and program identifier: the 32 address bytes, or
/// nothing when these inputs admit no valid key-less authority. The value is
/// fixed by the inputs alone; it is not given an algorithm here.
pub uninterp spec fn program_address(
    tag: Seq<u8>,
    owner: Seq<u8>,
    nonce: u64,
    bump: u8,
    program: Seq<u8>,
) -> Option<Seq<u8>>;

/// The namespace tag of escrow authorities: the ASCII bytes of "escrow".
pub open spec fn spec_escrow_tag() -> Seq<u8> {
    seq![0x65u8, 0x73u8, 0x63u8, 0x72u8, 0x6fu8, 0x77u8]
}

/// The authority that controls an escrow's vault, as a function of the
/// escrow record's derivation inputs.
pub open spec fn escrow_authority(
    maker: AccountId,
    seed: u64,
    bump: u8,
    program_id: AccountId,
) -> Option<Seq<u8>> {
    program_address(spec_escrow_tag(), maker.bytes@, seed, bump, program_id.bytes@)
}

/// The namespace tag as bytes.
pub fn escrow_tag() -> (r: Vec<u8>)
    ensures
        r@ == spec_escrow_tag(),
{
    let mut t: Vec<u8> = Vec::new();
    t.push(0x65);
    t.push(0x73);
    t.push(0x63);
    t.push(0x72);
    t.push(0x6f);
    t.push(0x77);
    proof {
        assert(t@ =~= spec_escrow_tag());
    }
    t
}

/// Relies on solana-program's `Pubkey::create_program_address` (re-exported
/// by anchor-lang): a deterministic, off-curve hash of the seed bytes and the
/// program id — the same inputs always give the same address — returning
/// `Err` exactly when those inputs admit no valid program address.
#[verifier::external_body]
fn create_address(
    tag: &Vec<u8>,
    owner: &AccountId,
    nonce: u64,
    bump: u8,
    program: &AccountId,
) -> (r: Option<AccountId>)
    ensures
        r is Some <==> program_address(tag@, owner.bytes@, nonce, bump, program.bytes@) is Some,
        (r matches Some(a) ==> Some(a.bytes@) == program_address(
            tag@,
            owner.bytes@,
            nonce,
            bump,
            program.bytes@,
        )),
{
    let nonce_bytes = nonce.to_le_bytes();
    let bump_bytes = [bump];
    let pid = anchor_lang::solana_program::pubkey::Pubkey::new_from_array(program.bytes);
    let seeds: &[&[u8]] = &[tag.as_slice(), &owner.bytes, &nonce_bytes, &bump_bytes];
    match anchor_lang::solana_program::pubkey::Pubkey::create_program_address(seeds, &pid) {
        Ok(p) => Some(AccountId { bytes: p.to_bytes() }),
        Err(_) => None,
    }
}

/// The address of the key-less authority for an escrow of `maker` with nonce
/// `seed` and discriminant `bump`, under program `program_id`; `None` when
/// these inputs admit no valid authority.
pub fn derived_escrow_address(
    maker: &AccountId,
    seed: u64,
    bump: u8,
    program_id: &AccountId,
) -> (r: Option<AccountId>)
    ensures
        r is Some <==> escrow_authority(*maker, seed, bump, *program_id) is Some,
        (r matches Some(a) ==> Some(a.bytes@) == escrow_authority(*maker, seed, bump, *program_id)),
{
    let tag = escrow_tag();
    create_address(&tag, maker, seed, bump, program_id)
}

} // verus!
