//! The refund operation: eager validation of every binding between maker,
//! escrow record, vault and asset descriptor, then an atomic settlement —
//! transfer the vault's whole balance to the maker's receiving account, close
//! the vault, close the escrow record, and return both storage deposits to
//! the maker.

use vstd::prelude::*;
use crate::account::AccountId;
use crate::account::Escrow;
use crate::account::TokenAccount;
use crate::account::id_eq;
use crate::account::lemma_id_eq_bytes;
use crate::derivation::escrow_authority;
use crate::derivation::derived_escrow_address;

verus! {

/// Why a refund was refused. Every check runs before any state change, and
/// the whole operation is one atomic unit, so a failed refund leaves every
/// account exactly as it was.
#[derive(Clone, Copy, Debug, PartialEq, Eq)]
pub enum EscrowError {
    /// The signer is not the escrow record's owner.
    Unauthorized,
    /// A derived-address or relationship binding between record, vault and
    /// asset descriptor does not hold — including a record that no longer
    /// resolves.
    ConstraintViolation,
    /// The transfer subsystem reported that a balance could not be moved:
    /// a receiving balance that the destination cannot represent.
    InsufficientBalance,
    /// A close was attempted on an account still holding a balance. The
    /// refund ordering — transfer everything, then close — keeps this from
    /// arising.
    AccountNotEmpty,
}

/// One refund invocation's view of the ledger: the accounts handed to the
/// operation, each reduced to the plain values the logic reads.
#[verifier::ext_equal]
#[derive(Clone, Copy, Debug, PartialEq, Eq)]
pub struct Refund {
    /// The escrow program's own identifier, under which authorities derive.
    pub program_id: AccountId,
    /// The identity that co-signed the invocation and claims the refund.
    pub maker: AccountId,
    /// The maker's native balance; receives the reclaimed storage deposits.
    pub maker_lamports: u64,
    /// The asset descriptor supplied by the caller.
    pub mint_a: AccountId,
    /// The maker's receiving account for the asset; created if absent.
    pub maker_ata_a: Option<TokenAccount>,
    /// Address of the escrow record account.
    pub escrow_address: AccountId,
    /// The escrow record, while it exists.
    pub escrow: Option<Escrow>,
    /// Storage deposit held by the escrow record account.
    pub escrow_lamports: u64,
    /// The vault, while it exists.
    pub vault: Option<TokenAccount>,
    /// Storage deposit held by the vault account.
    pub vault_lamports: u64,
}

impl Refund {
    /// Balance of the maker's receiving account; an absent account counts as
    /// empty, since it is created empty on demand.
    pub open spec fn receiving_amount(self) -> int {
        match self.maker_ata_a {
            Some(a) => a.amount as int,
            None => 0,
        }
    }

    /// The escrow record checks: the record resolves, was created by the
    /// signing maker, escrows the supplied asset, and its address re-derives
    /// from the namespace tag, the maker and the stored nonce with the stored
    /// discriminant byte.
    pub open spec fn record_valid(self) -> bool {
        &&& self.escrow is Some
        &&& self.escrow->Some_0.maker == self.maker
        &&& self.escrow->Some_0.mint_a == self.mint_a
        &&& escrow_authority(
            self.maker,
            self.escrow->Some_0.seed,
            self.escrow->Some_0.bump,
            self.program_id,
        ) == Some(self.escrow_address.bytes@)
    }

    /// The vault binding checks: the vault resolves, holds the escrowed
    /// asset, and is controlled by the derived authority — the escrow
    /// record's address. This re-derivation, not a stored pointer, is the
    /// sole proof that the vault belongs to this escrow.
    pub open spec fn vault_bound(self) -> bool {
        &&& self.vault is Some
        &&& self.vault->Some_0.mint == self.mint_a
        &&& self.vault->Some_0.authority == self.escrow_address
    }

    /// The receiving-account checks: absent (it will be created), or an
    /// account for the same asset controlled by the maker.
    pub open spec fn receiver_valid(self) -> bool {
        match self.maker_ata_a {
            Some(a) => a.mint == self.mint_a && a.authority == self.maker,
            None => true,
        }
    }

    /// The outcome of the eager pre-mutation validation: the error of the
    /// first violated binding, or `None` when every binding holds. A signer
    /// who is not the owner of a live record is `Unauthorized`; every other
    /// violation is `ConstraintViolation`.
    pub open spec fn validation_error(self) -> Option<EscrowError> {
        if self.escrow is Some && self.escrow->Some_0.maker != self.maker {
            Some(EscrowError::Unauthorized)
        } else if !(self.record_valid() && self.vault_bound() && self.receiver_valid()) {
            Some(EscrowError::ConstraintViolation)
        } else {
            None
        }
    }

    /// Whether the two credited balances stay representable: the receiving
    /// account's new asset balance, and the maker's native balance after both
    /// storage deposits return.
    pub open spec fn settle_fits(self) -> bool {
        &&& self.receiving_amount() + self.vault->Some_0.amount <= u64::MAX
        &&& self.maker_lamports + self.vault_lamports + self.escrow_lamports <= u64::MAX
    }

    /// The settled ledger: the vault's whole balance credited to the maker's
    /// receiving account, vault and escrow record both gone, and their
    /// storage deposits returned to the maker. Nothing else changes.
    pub open spec fn settled(self) -> Refund {
        Refund {
            maker_lamports: (self.maker_lamports + self.vault_lamports
                + self.escrow_lamports) as u64,
            maker_ata_a: Some(
                TokenAccount {
                    mint: self.mint_a,
                    authority: self.maker,
                    amount: (self.receiving_amount() + self.vault->Some_0.amount) as u64,
                },
            ),
            escrow: None,
            escrow_lamports: 0,
            vault: None,
            vault_lamports: 0,
            ..self
        }
    }

    /// Full specification of one refund invocation: the first violated
    /// binding aborts it; a settlement the balances cannot represent is
    /// reported by the transfer subsystem; otherwise the ledger settles.
    pub open spec fn refund_outcome(self) -> Result<Refund, EscrowError> {
        match self.validation_error() {
            Some(e) => Err(e),
            None => if self.settle_fits() {
                Ok(self.settled())
            } else {
                Err(EscrowError::InsufficientBalance)
            },
        }
    }

    /// Validate every relationship binding, mutating nothing: maker
    /// signature and record ownership, asset bindings, the re-derived
    /// authority against the record's address, the vault's controlling
    /// authority, and the receiving account's bindings.
    pub fn validate(&self) -> (r: Result<(), EscrowError>)
        ensures
            (r == match self.validation_error() {
                Some(e) => Err::<(), EscrowError>(e),
                None => Ok::<(), EscrowError>(()),
            }),
    {
        let esc = match &self.escrow {
            None => {
                return Err(EscrowError::ConstraintViolation);
            },
            Some(e) => *e,
        };
        if !id_eq(&esc.maker, &self.maker) {
            return Err(EscrowError::Unauthorized);
        }
        if !id_eq(&esc.mint_a, &self.mint_a) {
            return Err(EscrowError::ConstraintViolation);
        }
        match derived_escrow_address(&self.maker, esc.seed, esc.bump, &self.program_id) {
            None => {
                return Err(EscrowError::ConstraintViolation);
            },
            Some(a) => {
                proof {
                    lemma_id_eq_bytes(a, self.escrow_address);
                }
                if !id_eq(&a, &self.escrow_address) {
                    return Err(EscrowError::ConstraintViolation);
                }
            },
        }
        let v = match &self.vault {
            None => {
                return Err(EscrowError::ConstraintViolation);
            },
            Some(v) => *v,
        };
        if !id_eq(&v.mint, &self.mint_a) {
            return Err(EscrowError::ConstraintViolation);
        }
        if !id_eq(&v.authority, &self.escrow_address) {
            return Err(EscrowError::ConstraintViolation);
        }
        match &self.maker_ata_a {
            Some(a) => {
                if !id_eq(&a.mint, &self.mint_a) {
                    return Err(EscrowError::ConstraintViolation);
                }
                if !id_eq(&a.authority, &self.maker) {
                    return Err(EscrowError::ConstraintViolation);
                }
            },
            None => {},
        }
        Ok(())
    }

    /// The refund operation. On the first violated binding it aborts with
    /// that binding's error and the ledger unchanged; otherwise it settles
    /// atomically: the vault's whole balance — possibly zero — moves to the
    /// maker's receiving account (created on demand), the vault and the
    /// escrow record are closed, and both storage deposits return to the
    /// maker.
    pub fn withdraw_and_close(&mut self) -> (r: Result<(), EscrowError>)
        ensures
            (match old(self).refund_outcome() {
                Ok(s) => r is Ok && *final(self) == s,
                Err(e) => r == Err::<(), EscrowError>(e) && *final(self) == *old(self),
            }),
    {
        match self.validate() {
            Err(e) => {
                return Err(e);
            },
            Ok(()) => {},
        }
        let v = self.vault.unwrap();
        let start: u64 = match &self.maker_ata_a {
            Some(a) => a.amount,
            None => 0,
        };
        let total = match start.checked_add(v.amount) {
            None => {
                return Err(EscrowError::InsufficientBalance);
            },
            Some(t) => t,
        };
        let deposits = match self.vault_lamports.checked_add(self.escrow_lamports) {
            None => {
                return Err(EscrowError::InsufficientBalance);
            },
            Some(d) => d,
        };
        let credited = match self.maker_lamports.checked_add(deposits) {
            None => {
                return Err(EscrowError::InsufficientBalance);
            },
            Some(c) => c,
        };
        self.maker_lamports = credited;
        self.maker_ata_a = Some(
            TokenAccount { mint: self.mint_a, authority: self.maker, amount: total },
        );
        self.escrow = None;
        self.escrow_lamports = 0;
        self.vault = None;
        self.vault_lamports = 0;
        proof {
            assert(*self =~= old(self).settled());
        }
        Ok(())
    }
}

} // verus!
