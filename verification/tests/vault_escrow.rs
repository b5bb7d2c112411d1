use exchange_core::escrow::{EscrowAccount, EscrowAuthority, EscrowError, EscrowStatus};
use exchange_core::vault::{AssetKind, Vault, VaultError};

#[test]
fn vault_lock_moves_exact_amount() {
    let mut v = Vault::new(AssetKind::Token);
    let mut source: u64 = 1000;
    assert_eq!(v.lock(&mut source, 300), Ok(()));
    assert_eq!(v.balance, 300);
    assert_eq!(source, 700);
}

#[test]
fn vault_lock_insufficient_funds() {
    let mut v = Vault::new(AssetKind::Native);
    let mut source: u64 = 99;
    assert_eq!(v.lock(&mut source, 100), Err(VaultError::InsufficientFunds));
    assert_eq!(v.balance, 0);
    assert_eq!(source, 99);
}

#[test]
fn vault_lock_overflow() {
    let mut v = Vault::new(AssetKind::Token);
    let mut source: u64 = u64::MAX;
    assert_eq!(v.lock(&mut source, u64::MAX), Ok(()));
    let mut more: u64 = 10;
    assert_eq!(v.lock(&mut more, 1), Err(VaultError::Overflow));
    assert_eq!(v.balance, u64::MAX);
    assert_eq!(more, 10);
}

#[test]
fn vault_release_insufficient_funds() {
    let mut v = Vault::new(AssetKind::Token);
    let mut source: u64 = 50;
    v.lock(&mut source, 50).unwrap();
    let mut dest: u64 = 0;
    assert_eq!(v.release(&mut dest, 51), Err(VaultError::InsufficientFunds));
    assert_eq!(v.balance, 50);
    assert_eq!(dest, 0);
}

#[test]
fn vault_release_overflow_destination() {
    let mut v = Vault::new(AssetKind::Native);
    let mut source: u64 = 10;
    v.lock(&mut source, 10).unwrap();
    let mut dest: u64 = u64::MAX;
    assert_eq!(v.release(&mut dest, 1), Err(VaultError::Overflow));
    assert_eq!(v.balance, 10);
}

#[test]
fn vault_conservation_over_sequence() {
    // Locked total equals vault balance plus released total, over a
    // mixed sequence of operations on one vault.
    let mut v = Vault::new(AssetKind::Token);
    let mut source: u64 = 10_000;
    let mut dest: u64 = 0;
    let mut locked: u64 = 0;
    let mut released: u64 = 0;
    for (lock_amt, release_amt) in [(500u64, 200u64), (300, 600), (1, 0), (0, 1)] {
        if v.lock(&mut source, lock_amt).is_ok() {
            locked += lock_amt;
        }
        if v.release(&mut dest, release_amt).is_ok() {
            released += release_amt;
        }
    }
    assert_eq!(v.balance + released, locked);
    assert_eq!(source + v.balance + dest, 10_000);
}

fn funded_escrow(now: i64) -> EscrowAccount {
    let mut e = EscrowAccount::initialize_escrow(7, 11, 22, 5, 100, 50, now, now + 3600).unwrap();
    let mut seller_base: u64 = 1000;
    let mut buyer_sol: u64 = 1000;
    e.deposit_to_escrow(22, 100, true, now, &mut seller_base).unwrap();
    e.deposit_to_escrow(11, 50, false, now, &mut buyer_sol).unwrap();
    e
}

#[test]
fn escrow_initialize_fields() {
    let e = EscrowAccount::initialize_escrow(7, 11, 22, 5, 100, 50, 1000, 4600).unwrap();
    assert_eq!(e.trade_id, 7);
    assert_eq!(e.buyer, 11);
    assert_eq!(e.seller, 22);
    assert_eq!(e.base_amount, 100);
    assert_eq!(e.sol_amount, 50);
    assert_eq!(e.base_deposited, 0);
    assert_eq!(e.sol_deposited, 0);
    assert_eq!(e.status, EscrowStatus::Pending);
    assert_eq!(e.expiry, 4600);
}

#[test]
fn escrow_initialize_duration_too_short() {
    let r = EscrowAccount::initialize_escrow(1, 11, 22, 5, 100, 50, 1000, 1059);
    assert_eq!(r, Err(EscrowError::InvalidStatus));
}

#[test]
fn escrow_initialize_duration_too_long() {
    let r = EscrowAccount::initialize_escrow(1, 11, 22, 5, 100, 50, 1000, 1000 + 86400 * 30 + 1);
    assert_eq!(r, Err(EscrowError::InvalidStatus));
}

#[test]
fn escrow_initialize_zero_amount() {
    assert_eq!(
        EscrowAccount::initialize_escrow(1, 11, 22, 5, 0, 50, 1000, 4600),
        Err(EscrowError::InvalidDepositAmount)
    );
    assert_eq!(
        EscrowAccount::initialize_escrow(1, 11, 22, 5, 100, 0, 1000, 4600),
        Err(EscrowError::InvalidDepositAmount)
    );
}

#[test]
fn escrow_two_leg_funding_and_swap() {
    // Partial funding keeps the record pending; full funding flips it to
    // funded; execution pays the promised amounts and is terminal.
    let now: i64 = 1000;
    let mut e = EscrowAccount::initialize_escrow(7, 11, 22, 5, 100, 50, now, now + 3600).unwrap();
    let mut seller_base: u64 = 1000;
    let mut buyer_sol: u64 = 1000;
    e.deposit_to_escrow(22, 100, true, now, &mut seller_base).unwrap();
    assert_eq!(e.status, EscrowStatus::Pending);
    assert_eq!(e.base_deposited, 100);
    assert_eq!(seller_base, 900);
    e.deposit_to_escrow(11, 50, false, now, &mut buyer_sol).unwrap();
    assert_eq!(e.status, EscrowStatus::Funded);
    assert_eq!(e.sol_deposited, 50);

    let mut buyer_base: u64 = 0;
    let mut seller_sol: u64 = 0;
    e.execute_swap(now + 10, &mut buyer_base, &mut seller_sol).unwrap();
    assert_eq!(buyer_base, 100);
    assert_eq!(seller_sol, 50);
    assert_eq!(e.status, EscrowStatus::Executed);

    let second = e.execute_swap(now + 20, &mut buyer_base, &mut seller_sol);
    assert_eq!(second, Err(EscrowError::AlreadyExecuted));
    assert_eq!(buyer_base, 100);
    assert_eq!(seller_sol, 50);
}

#[test]
fn escrow_expired_cancel_with_zero_refund() {
    let now: i64 = 1000;
    let e0 = EscrowAccount::initialize_escrow(7, 11, 22, 5, 100, 50, now, now + 3600).unwrap();
    let mut e = e0;
    let mut seller_base: u64 = 0;
    let mut buyer_sol: u64 = 0;
    // Anyone may trigger the cleanup once the deadline has passed.
    e.cancel_escrow(99, now + 3601, &mut seller_base, &mut buyer_sol).unwrap();
    assert_eq!(e.status, EscrowStatus::Expired);
    assert_eq!(seller_base, 0);
    assert_eq!(buyer_sol, 0);
}

#[test]
fn escrow_cancel_refunds_deposits() {
    let now: i64 = 1000;
    let mut e = EscrowAccount::initialize_escrow(7, 11, 22, 5, 100, 50, now, now + 3600).unwrap();
    let mut seller_base: u64 = 1000;
    let mut buyer_sol: u64 = 1000;
    e.deposit_to_escrow(22, 70, true, now, &mut seller_base).unwrap();
    e.deposit_to_escrow(11, 20, false, now, &mut buyer_sol).unwrap();
    let mut seller_refund: u64 = 0;
    let mut buyer_refund: u64 = 0;
    e.cancel_escrow(11, now + 5, &mut seller_refund, &mut buyer_refund).unwrap();
    assert_eq!(e.status, EscrowStatus::Cancelled);
    assert_eq!(seller_refund, 70);
    assert_eq!(buyer_refund, 20);
    assert_eq!(e.base_vault.balance, 0);
    assert_eq!(e.sol_vault.balance, 0);
}

#[test]
fn escrow_cancel_by_stranger_before_expiry_rejected() {
    let now: i64 = 1000;
    let mut e = EscrowAccount::initialize_escrow(7, 11, 22, 5, 100, 50, now, now + 3600).unwrap();
    let mut a: u64 = 0;
    let mut b: u64 = 0;
    assert_eq!(e.cancel_escrow(99, now + 5, &mut a, &mut b), Err(EscrowError::Unauthorized));
    assert_eq!(e.status, EscrowStatus::Pending);
}

#[test]
fn escrow_deposit_rejected_after_terminal_status() {
    let now: i64 = 1000;
    let mut e = funded_escrow(now);
    let mut buyer_base: u64 = 0;
    let mut seller_sol: u64 = 0;
    e.execute_swap(now, &mut buyer_base, &mut seller_sol).unwrap();
    let deposited_before = (e.base_deposited, e.sol_deposited);
    let mut source: u64 = 500;
    assert_eq!(e.deposit_to_escrow(11, 10, true, now, &mut source), Err(EscrowError::InvalidStatus));
    assert_eq!(source, 500);
    assert_eq!((e.base_deposited, e.sol_deposited), deposited_before);
}

#[test]
fn escrow_deposit_rejected_once_funded() {
    let now: i64 = 1000;
    let mut e = funded_escrow(now);
    assert_eq!(e.status, EscrowStatus::Funded);
    let mut source: u64 = 500;
    assert_eq!(e.deposit_to_escrow(11, 10, false, now, &mut source), Err(EscrowError::InvalidStatus));
    assert_eq!(source, 500);
}

#[test]
fn escrow_deposit_rejected_after_expiry() {
    let now: i64 = 1000;
    let mut e = EscrowAccount::initialize_escrow(7, 11, 22, 5, 100, 50, now, now + 3600).unwrap();
    let mut source: u64 = 500;
    assert_eq!(e.deposit_to_escrow(11, 10, false, now + 3601, &mut source), Err(EscrowError::EscrowExpired));
}

#[test]
fn escrow_deposit_zero_amount_rejected() {
    let now: i64 = 1000;
    let mut e = EscrowAccount::initialize_escrow(7, 11, 22, 5, 100, 50, now, now + 3600).unwrap();
    let mut source: u64 = 500;
    assert_eq!(e.deposit_to_escrow(11, 0, true, now, &mut source), Err(EscrowError::InvalidDepositAmount));
}

#[test]
fn escrow_deposit_by_stranger_rejected() {
    let now: i64 = 1000;
    let mut e = EscrowAccount::initialize_escrow(7, 11, 22, 5, 100, 50, now, now + 3600).unwrap();
    let mut source: u64 = 500;
    assert_eq!(e.deposit_to_escrow(99, 10, true, now, &mut source), Err(EscrowError::Unauthorized));
}

#[test]
fn escrow_deposit_insufficient_source() {
    let now: i64 = 1000;
    let mut e = EscrowAccount::initialize_escrow(7, 11, 22, 5, 100, 50, now, now + 3600).unwrap();
    let mut source: u64 = 9;
    assert_eq!(e.deposit_to_escrow(11, 10, true, now, &mut source), Err(EscrowError::InsufficientBalance));
}

#[test]
fn escrow_execute_unfunded_rejected() {
    let now: i64 = 1000;
    let mut e = EscrowAccount::initialize_escrow(7, 11, 22, 5, 100, 50, now, now + 3600).unwrap();
    let mut buyer_base: u64 = 0;
    let mut seller_sol: u64 = 0;
    assert_eq!(
        e.execute_swap(now, &mut buyer_base, &mut seller_sol),
        Err(EscrowError::NotFullyFunded)
    );
}

#[test]
fn escrow_execute_after_expiry_rejected() {
    let now: i64 = 1000;
    let mut e = funded_escrow(now);
    let mut buyer_base: u64 = 0;
    let mut seller_sol: u64 = 0;
    assert_eq!(
        e.execute_swap(now + 3601, &mut buyer_base, &mut seller_sol),
        Err(EscrowError::EscrowExpired)
    );
    assert_eq!(e.status, EscrowStatus::Funded);
}

#[test]
fn escrow_cancel_after_cancel_rejected() {
    let now: i64 = 1000;
    let mut e = EscrowAccount::initialize_escrow(7, 11, 22, 5, 100, 50, now, now + 3600).unwrap();
    let mut a: u64 = 0;
    let mut b: u64 = 0;
    e.cancel_escrow(11, now, &mut a, &mut b).unwrap();
    assert_eq!(e.cancel_escrow(11, now, &mut a, &mut b), Err(EscrowError::AlreadyCancelled));
}

#[test]
fn escrow_cancel_after_execute_rejected() {
    let now: i64 = 1000;
    let mut e = funded_escrow(now);
    let mut buyer_base: u64 = 0;
    let mut seller_sol: u64 = 0;
    e.execute_swap(now, &mut buyer_base, &mut seller_sol).unwrap();
    let mut a: u64 = 0;
    let mut b: u64 = 0;
    assert_eq!(e.cancel_escrow(11, now, &mut a, &mut b), Err(EscrowError::AlreadyExecuted));
}

#[test]
fn escrow_claim_rules() {
    let now: i64 = 1000;
    let mut e = funded_escrow(now);
    assert_eq!(e.claim_from_escrow(11), Err(EscrowError::InvalidStatus));
    let mut buyer_base: u64 = 0;
    let mut seller_sol: u64 = 0;
    e.execute_swap(now, &mut buyer_base, &mut seller_sol).unwrap();
    assert_eq!(e.claim_from_escrow(11), Ok(()));
    assert_eq!(e.claim_from_escrow(22), Ok(()));
    assert_eq!(e.claim_from_escrow(99), Err(EscrowError::Unauthorized));
}

#[test]
fn escrow_emergency_withdraw_sweeps_expired_vault() {
    let now: i64 = 1000;
    let mut e = EscrowAccount::initialize_escrow(7, 11, 22, 5, 100, 50, now, now + 3600).unwrap();
    let mut seller_base: u64 = 1000;
    e.deposit_to_escrow(22, 60, true, now, &mut seller_base).unwrap();
    let authority = EscrowAuthority { authority: 42, total_escrows: 1, total_volume: 0 };
    let mut dest: u64 = 0;
    assert_eq!(
        e.emergency_withdraw(42, &authority, now, true, &mut dest),
        Err(EscrowError::EscrowNotExpired)
    );
    assert_eq!(
        e.emergency_withdraw(41, &authority, now + 3601, true, &mut dest),
        Err(EscrowError::Unauthorized)
    );
    assert_eq!(e.emergency_withdraw(42, &authority, now + 3601, true, &mut dest), Ok(60));
    assert_eq!(dest, 60);
    assert_eq!(e.base_vault.balance, 0);
}

#[test]
fn escrow_fully_funded_and_expired_predicates() {
    let now: i64 = 1000;
    let e = EscrowAccount::initialize_escrow(7, 11, 22, 5, 100, 50, now, now + 3600).unwrap();
    assert!(!e.is_fully_funded());
    assert!(!e.is_expired(now + 3600));
    assert!(e.is_expired(now + 3601));
    let f = funded_escrow(now);
    assert!(f.is_fully_funded());
}

#[test]
fn escrow_cancel_after_sweep_reports_missing_balance() {
    // After an emergency sweep of an expired escrow's base vault, a later
    // cancel cannot cover the recorded deposit and is rejected whole.
    let now: i64 = 1000;
    let mut e = EscrowAccount::initialize_escrow(7, 11, 22, 5, 100, 50, now, now + 3600).unwrap();
    let mut seller_base: u64 = 1000;
    e.deposit_to_escrow(22, 60, true, now, &mut seller_base).unwrap();
    let authority = EscrowAuthority { authority: 42, total_escrows: 1, total_volume: 0 };
    let mut swept_to: u64 = 0;
    e.emergency_withdraw(42, &authority, now + 3601, true, &mut swept_to).unwrap();
    let mut refund_base: u64 = 0;
    let mut refund_sol: u64 = 0;
    assert_eq!(
        e.cancel_escrow(11, now + 3602, &mut refund_base, &mut refund_sol),
        Err(EscrowError::InsufficientBalance)
    );
    assert_eq!(refund_base, 0);
    assert_eq!(e.base_deposited, 60);
}

#[test]
fn escrow_initialize_far_future_expiry_rejected() {
    let r = EscrowAccount::initialize_escrow(1, 11, 22, 5, 100, 50, -10, i64::MAX);
    assert_eq!(r, Err(EscrowError::InvalidStatus));
}
