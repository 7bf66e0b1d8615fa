//! Refund path of an escrow settlement protocol on a deterministic,
//! account-based ledger.
//!
//! An escrow holds a quantity of a fungible asset in a custodial vault on
//! behalf of a maker until the maker reclaims it. The refund operation
//! verifies that the caller is entitled to the escrowed funds — owner
//! signature, asset binding, and a re-derived key-less authority — then
//! settles atomically: the vault's whole balance moves to the maker's
//! receiving account, and the vault and the escrow record are closed, their
//! storage deposits returned to the maker.

pub mod account;
pub mod derivation;
pub mod refund;
pub mod laws;
