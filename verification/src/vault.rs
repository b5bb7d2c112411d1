//! Custody vaults.
//!
//! A vault holds value deposited for an order book or an escrow until a
//! settlement or refund condition is proven. Both asset representations —
//! a fungible-token ledger entry and a native-currency balance — share the
//! same accounting contract: a lock debits the source and credits the vault
//! by exactly the same amount, a release debits the vault and credits the
//! destination by exactly the same amount, and no value is ever created or
//! destroyed.

use vstd::prelude::*;

verus! {

/// The two asset representations a vault can hold, selected at the call
/// site; the accounting contract is identical for both.
#[derive(Clone, Copy, PartialEq, Eq, Structural, Debug)]
pub enum AssetKind {
    /// A fungible-token ledger balance.
    Token,
    /// A native-currency balance.
    Native,
}

/// Errors of the custody layer. Callers map them onto their own error
/// taxonomy.
#[derive(Clone, Copy, PartialEq, Eq, Structural, Debug)]
pub enum VaultError {
    /// The debited balance is smaller than the amount.
    InsufficientFunds,
    /// The credited balance would exceed `u64::MAX`.
    Overflow,
}

/// Custody storage exclusively controlled by the owning order book or
/// escrow record.
#[derive(Clone, Copy, PartialEq, Eq, Structural, Debug)]
pub struct Vault {
    pub kind: AssetKind,
    pub balance: u64,
}

impl Vault {
    /// A fresh, empty vault of the given asset kind.
    pub fn new(kind: AssetKind) -> (v: Vault)
        ensures
            v.kind == kind,
            v.balance == 0,
    {
        Vault { kind, balance: 0 }
    }

    /// Debits `source` and credits the vault by exactly `amount`.
    ///
    /// Fails with `InsufficientFunds` when the source balance is short, and
    /// with `Overflow` when the vault credit would exceed `u64::MAX`; on
    /// failure nothing moves.
    pub fn lock(&mut self, source: &mut u64, amount: u64) -> (r: Result<(), VaultError>)
        ensures
            r is Ok <==> *old(source) >= amount && old(self).balance + amount <= u64::MAX,
            r is Ok ==> {
                &&& *final(source) == *old(source) - amount
                &&& final(self).balance == old(self).balance + amount
            },
            r == Err::<(), VaultError>(VaultError::InsufficientFunds) <==> *old(source) < amount,
            r == Err::<(), VaultError>(VaultError::Overflow) <==> *old(source) >= amount
                && old(self).balance + amount > u64::MAX,
            r is Err ==> *final(source) == *old(source) && *final(self) == *old(self),
            final(self).kind == old(self).kind,
            final(self).balance + *final(source) == old(self).balance + *old(source),
    {
        if *source < amount {
            return Err(VaultError::InsufficientFunds);
        }
        match self.balance.checked_add(amount) {
            Some(credited) => {
                *source = *source - amount;
                self.balance = credited;
                Ok(())
            }
            None => Err(VaultError::Overflow),
        }
    }

    /// Debits the vault and credits `destination` by exactly `amount`.
    ///
    /// Fails with `InsufficientFunds` when the vault balance is short, and
    /// with `Overflow` when the destination credit would exceed `u64::MAX`;
    /// on failure nothing moves.
    pub fn release(&mut self, destination: &mut u64, amount: u64) -> (r: Result<(), VaultError>)
        ensures
            r is Ok <==> old(self).balance >= amount && *old(destination) + amount <= u64::MAX,
            r is Ok ==> {
                &&& final(self).balance == old(self).balance - amount
                &&& *final(destination) == *old(destination) + amount
            },
            r == Err::<(), VaultError>(VaultError::InsufficientFunds) <==> old(self).balance < amount,
            r == Err::<(), VaultError>(VaultError::Overflow) <==> old(self).balance >= amount
                && *old(destination) + amount > u64::MAX,
            r is Err ==> *final(destination) == *old(destination) && *final(self) == *old(self),
            final(self).kind == old(self).kind,
            final(self).balance + *final(destination) == old(self).balance + *old(destination),
    {
        if self.balance < amount {
            return Err(VaultError::InsufficientFunds);
        }
        match destination.checked_add(amount) {
            Some(credited) => {
                self.balance = self.balance - amount;
                *destination = credited;
                Ok(())
            }
            None => Err(VaultError::Overflow),
        }
    }
}

/// One successful custody operation on a vault, as seen from the vault:
/// a lock credits it, a release debits it.
pub enum VaultOp {
    Lock { amount: u64 },
    Release { amount: u64 },
}

/// The vault balance after running `ops` from an empty vault, provided
/// every operation in `ops` succeeds (see `ops_valid`).
pub open spec fn balance_after(ops: Seq<VaultOp>) -> int
    decreases ops.len(),
{
    if ops.len() == 0 {
        0
    } else {
        match ops.last() {
            VaultOp::Lock { amount } => balance_after(ops.drop_last()) + amount,
            VaultOp::Release { amount } => balance_after(ops.drop_last()) - amount,
        }
    }
}

/// The sum of all amounts locked into the vault over `ops`.
pub open spec fn total_locked(ops: Seq<VaultOp>) -> int
    decreases ops.len(),
{
    if ops.len() == 0 {
        0
    } else {
        total_locked(ops.drop_last()) + match ops.last() {
            VaultOp::Lock { amount } => amount as int,
            VaultOp::Release { amount } => 0,
        }
    }
}

/// The sum of all amounts released to external destinations over `ops`.
pub open spec fn total_released(ops: Seq<VaultOp>) -> int
    decreases ops.len(),
{
    if ops.len() == 0 {
        0
    } else {
        total_released(ops.drop_last()) + match ops.last() {
            VaultOp::Lock { amount } => 0,
            VaultOp::Release { amount } => amount as int,
        }
    }
}

/// Conservation of value: for any sequence of lock and release operations
/// on one vault, the vault balance plus everything released to external
/// destinations equals everything that was ever locked.
pub proof fn lemma_vault_conservation(ops: Seq<VaultOp>)
    ensures
        balance_after(ops) + total_released(ops) == total_locked(ops),
    decreases ops.len(),
{
    if ops.len() > 0 {
        lemma_vault_conservation(ops.drop_last());
    }
}

} // verus!
