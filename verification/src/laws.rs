//! The guarantees the refund operation gives, stated over its full
//! specification `Refund::refund_outcome`. The operation's own contract adds
//! that on any error the ledger is left exactly as it was.

use vstd::prelude::*;
use crate::refund::EscrowError;
use crate::refund::Refund;

verus! {

/// A refund invoked by the true owner of a fully valid escrow whose vault
/// holds a positive balance succeeds: the maker's receiving account is
/// credited with exactly the vault's balance, the vault and the escrow record
/// both cease to exist, the maker's native balance grows by exactly the two
/// reclaimed storage deposits, and no other account changes.
pub proof fn refund_credits_owner(s: Refund)
    requires
        s.validation_error() is None,
        s.settle_fits(),
        s.vault->Some_0.amount > 0,
    ensures
        s.refund_outcome() is Ok,
        ({
            let t = s.refund_outcome()->Ok_0;
            &&& t.maker_ata_a is Some
            &&& t.maker_ata_a->Some_0.amount == s.receiving_amount() + s.vault->Some_0.amount
            &&& t.maker_ata_a->Some_0.mint == s.mint_a
            &&& t.maker_ata_a->Some_0.authority == s.maker
            &&& t.escrow is None
            &&& t.vault is None
            &&& t.escrow_lamports == 0
            &&& t.vault_lamports == 0
            &&& t.maker_lamports == s.maker_lamports + s.vault_lamports + s.escrow_lamports
            &&& t.program_id == s.program_id
            &&& t.maker == s.maker
            &&& t.mint_a == s.mint_a
            &&& t.escrow_address == s.escrow_address
        }),
{
}

/// A refund signed by anyone other than the live record's owner fails with
/// `Unauthorized`, whatever the other accounts hold.
pub proof fn refund_refuses_foreign_signer(s: Refund)
    requires
        s.escrow is Some,
        s.escrow->Some_0.maker != s.maker,
    ensures
        s.refund_outcome() == Err::<Refund, EscrowError>(EscrowError::Unauthorized),
{
}

/// A refund whose vault is not controlled by the authority derived from the
/// escrow record fails with `ConstraintViolation`, however well every other
/// binding holds.
pub proof fn refund_refuses_unbound_vault(s: Refund)
    requires
        s.record_valid(),
        s.receiver_valid(),
        s.vault is Some,
        s.vault->Some_0.mint == s.mint_a,
        s.vault->Some_0.authority != s.escrow_address,
    ensures
        s.refund_outcome() == Err::<Refund, EscrowError>(EscrowError::ConstraintViolation),
{
}

/// Destruction is what cannot repeat: after a successful refund the record
/// account no longer resolves to a live escrow, so a second refund of the
/// settled ledger fails with `ConstraintViolation`.
pub proof fn refund_consumes_the_record(s: Refund)
    requires
        s.refund_outcome() is Ok,
    ensures
        s.refund_outcome()->Ok_0.refund_outcome() == Err::<Refund, EscrowError>(
            EscrowError::ConstraintViolation,
        ),
{
}

/// The settlement transfers the vault's whole balance before closing it, so
/// a close of an account still holding a balance is never reported.
pub proof fn refund_never_closes_nonempty(s: Refund)
    ensures
        s.refund_outcome() != Err::<Refund, EscrowError>(EscrowError::AccountNotEmpty),
{
}

/// A refund of a vault holding nothing still succeeds: it transfers zero —
/// the receiving balance does not move — and closes both accounts, returning
/// their storage deposits.
pub proof fn refund_of_empty_vault_closes(s: Refund)
    requires
        s.validation_error() is None,
        s.settle_fits(),
        s.vault->Some_0.amount == 0,
    ensures
        s.refund_outcome() is Ok,
        ({
            let t = s.refund_outcome()->Ok_0;
            &&& t.maker_ata_a is Some
            &&& t.maker_ata_a->Some_0.amount == s.receiving_amount()
            &&& t.escrow is None
            &&& t.vault is None
            &&& t.maker_lamports == s.maker_lamports + s.vault_lamports + s.escrow_lamports
        }),
{
}

} // verus!
