use escrow::account::AccountId;
use escrow::account::Escrow;
use escrow::account::TokenAccount;
use escrow::derivation::derived_escrow_address;
use escrow::refund::EscrowError;
use escrow::refund::Refund;

fn id(b: u8) -> AccountId {
    AccountId { bytes: [b; 32] }
}

/// A maker identity whose escrow address derives successfully for the given
/// nonce and discriminant, found by varying one byte of the identity, plus
/// that derived address.
fn maker_admitting(seed: u64, bump: u8, program: &AccountId) -> (AccountId, AccountId) {
    for i in 0..=255u16 {
        let mut bytes = [3u8; 32];
        bytes[0] = i as u8;
        let m = AccountId { bytes };
        if let Some(addr) = derived_escrow_address(&m, seed, bump, program) {
            return (m, addr);
        }
    }
    panic!("no maker identity admits this nonce and discriminant");
}

/// A discriminant byte under which the maker's escrow address derives
/// successfully, scanning downward from 255, plus the derived address.
fn bump_admitting(maker: &AccountId, seed: u64, program: &AccountId) -> (u8, AccountId) {
    let mut bump = 255u8;
    loop {
        if let Some(addr) = derived_escrow_address(maker, seed, bump, program) {
            return (bump, addr);
        }
        if bump == 0 {
            panic!("no discriminant admits this maker and nonce");
        }
        bump -= 1;
    }
}

/// A fully valid refund invocation: owner-signed, all bindings holding,
/// vault balance `amount`, no receiving account yet.
fn valid_refund(seed: u64, bump: u8, amount: u64) -> Refund {
    let program = id(9);
    let mint = id(7);
    let (maker, escrow_address) = maker_admitting(seed, bump, &program);
    Refund {
        program_id: program,
        maker,
        maker_lamports: 1_000,
        mint_a: mint,
        maker_ata_a: None,
        escrow_address,
        escrow: Some(Escrow { maker, mint_a: mint, seed, bump }),
        escrow_lamports: 1_224_960,
        vault: Some(TokenAccount { mint, authority: escrow_address, amount }),
        vault_lamports: 2_039_280,
    }
}

#[test]
fn refund_by_owner_transfers_and_closes() {
    // Escrow owner M, nonce 7, vault balance 500, discriminant 253.
    let mut s = valid_refund(7, 253, 500);
    let before = s;
    assert_eq!(s.withdraw_and_close(), Ok(()));
    let ata = s.maker_ata_a.expect("receiving account was created");
    assert_eq!(ata.amount, 500);
    assert_eq!(ata.mint, before.mint_a);
    assert_eq!(ata.authority, before.maker);
    assert!(s.escrow.is_none());
    assert!(s.vault.is_none());
    assert_eq!(s.escrow_lamports, 0);
    assert_eq!(s.vault_lamports, 0);
    assert_eq!(s.maker_lamports, 1_000 + 1_224_960 + 2_039_280);
    assert_eq!(s.maker, before.maker);
    assert_eq!(s.mint_a, before.mint_a);
    assert_eq!(s.program_id, before.program_id);
    assert_eq!(s.escrow_address, before.escrow_address);
}

#[test]
fn refund_adds_to_existing_receiving_account() {
    let mut s = valid_refund(7, 253, 500);
    s.maker_ata_a = Some(TokenAccount { mint: s.mint_a, authority: s.maker, amount: 25 });
    assert_eq!(s.withdraw_and_close(), Ok(()));
    assert_eq!(s.maker_ata_a.unwrap().amount, 525);
}

#[test]
fn refund_by_other_signer_fails_unauthorized() {
    // Same escrow, signed by N != M.
    let mut s = valid_refund(7, 253, 500);
    s.maker = id(42);
    let before = s;
    assert_eq!(s.withdraw_and_close(), Err(EscrowError::Unauthorized));
    assert_eq!(s, before);
}

#[test]
fn refund_with_foreign_vault_authority_fails() {
    let mut s = valid_refund(11, 254, 900);
    let mut v = s.vault.unwrap();
    v.authority = id(42);
    s.vault = Some(v);
    let before = s;
    assert_eq!(s.withdraw_and_close(), Err(EscrowError::ConstraintViolation));
    assert_eq!(s, before);
}

#[test]
fn refund_twice_consumes_the_record() {
    let mut s = valid_refund(7, 253, 500);
    assert_eq!(s.withdraw_and_close(), Ok(()));
    let settled = s;
    assert_eq!(s.withdraw_and_close(), Err(EscrowError::ConstraintViolation));
    assert_eq!(s, settled);
}

#[test]
fn refund_of_empty_vault_still_closes() {
    let mut s = valid_refund(3, 250, 0);
    assert_eq!(s.withdraw_and_close(), Ok(()));
    assert_eq!(s.maker_ata_a.unwrap().amount, 0);
    assert!(s.escrow.is_none());
    assert!(s.vault.is_none());
    assert_eq!(s.maker_lamports, 1_000 + 1_224_960 + 2_039_280);
}

#[test]
fn refund_with_wrong_asset_descriptor_fails() {
    let mut s = valid_refund(7, 253, 500);
    s.mint_a = id(8);
    assert_eq!(s.withdraw_and_close(), Err(EscrowError::ConstraintViolation));
}

#[test]
fn refund_with_wrong_vault_asset_fails() {
    let mut s = valid_refund(7, 253, 500);
    let mut v = s.vault.unwrap();
    v.mint = id(8);
    s.vault = Some(v);
    assert_eq!(s.withdraw_and_close(), Err(EscrowError::ConstraintViolation));
}

#[test]
fn refund_without_record_fails() {
    let mut s = valid_refund(7, 253, 500);
    s.escrow = None;
    assert_eq!(s.withdraw_and_close(), Err(EscrowError::ConstraintViolation));
}

#[test]
fn refund_without_vault_fails() {
    let mut s = valid_refund(7, 253, 500);
    s.vault = None;
    assert_eq!(s.withdraw_and_close(), Err(EscrowError::ConstraintViolation));
}

#[test]
fn refund_with_wrong_record_address_fails() {
    let mut s = valid_refund(7, 253, 500);
    s.escrow_address = id(42);
    assert_eq!(s.withdraw_and_close(), Err(EscrowError::ConstraintViolation));
}

#[test]
fn refund_with_wrong_discriminant_fails() {
    let mut s = valid_refund(7, 253, 500);
    // A record claiming a different discriminant no longer re-derives to the
    // record's address (or derives to nothing at all).
    let mut e = s.escrow.unwrap();
    e.bump = 252;
    s.escrow = Some(e);
    assert_eq!(s.withdraw_and_close(), Err(EscrowError::ConstraintViolation));
}

#[test]
fn refund_with_foreign_receiving_account_fails() {
    let mut s = valid_refund(7, 253, 500);
    s.maker_ata_a = Some(TokenAccount { mint: s.mint_a, authority: id(42), amount: 0 });
    assert_eq!(s.withdraw_and_close(), Err(EscrowError::ConstraintViolation));
}

#[test]
fn refund_overflowing_receiving_balance_fails() {
    let mut s = valid_refund(7, 253, 2);
    s.maker_ata_a = Some(TokenAccount { mint: s.mint_a, authority: s.maker, amount: u64::MAX - 1 });
    let before = s;
    assert_eq!(s.withdraw_and_close(), Err(EscrowError::InsufficientBalance));
    assert_eq!(s, before);
}

#[test]
fn refund_overflowing_native_balance_fails() {
    let mut s = valid_refund(7, 253, 500);
    s.maker_lamports = u64::MAX;
    assert_eq!(s.withdraw_and_close(), Err(EscrowError::InsufficientBalance));
}

#[test]
fn validate_reports_first_violation_and_mutates_nothing() {
    let s = valid_refund(7, 253, 500);
    assert_eq!(s.validate(), Ok(()));
    let mut t = s;
    t.maker = id(42);
    assert_eq!(t.validate(), Err(EscrowError::Unauthorized));
    let mut u = s;
    u.vault = Some(TokenAccount { mint: s.mint_a, authority: id(42), amount: 500 });
    assert_eq!(u.validate(), Err(EscrowError::ConstraintViolation));
}

#[test]
fn derivation_is_a_genuine_function_of_its_inputs() {
    let program = id(9);
    let maker = id(5);
    let (bump7, addr7) = bump_admitting(&maker, 7, &program);
    // Deterministic: the same inputs always give the same authority.
    let again = derived_escrow_address(&maker, 7, bump7, &program).unwrap();
    assert_eq!(addr7, again);
    // The authority is none of the inputs.
    assert_ne!(addr7, maker);
    assert_ne!(addr7, program);
    // A different nonce yields a different authority.
    let (_, addr8) = bump_admitting(&maker, 8, &program);
    assert_ne!(addr7, addr8);
    // A different owner yields a different authority.
    let (_, other) = bump_admitting(&id(6), 7, &program);
    assert_ne!(addr7, other);
}
