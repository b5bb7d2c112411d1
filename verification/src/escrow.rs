//! Bilateral escrow: a two-leg atomic swap with a deadline.
//!
//! An escrow record is a state machine independent of the order book, used
//! when two parties negotiate off-book. It moves from `Pending` through
//! `Funded` (both legs deposited in full) to one of the terminal states
//! `Executed`, `Cancelled` or `Expired`. The record owns one custody vault
//! per leg: a token vault for the base leg and a native-currency vault for
//! the other, and no transition ever creates or destroys value.

use vstd::prelude::*;
use crate::vault::{AssetKind, Vault};

verus! {

/// Shortest allowed time between creation and expiry, in seconds.
pub const MIN_ESCROW_DURATION: i64 = 60;

/// Longest allowed time between creation and expiry, in seconds.
pub const MAX_ESCROW_DURATION: i64 = 86400 * 30;

#[derive(Clone, Copy, PartialEq, Eq, Structural, Debug)]
pub enum EscrowStatus {
    Pending,
    Funded,
    Executed,
    Cancelled,
    Expired,
}

#[derive(Clone, Copy, PartialEq, Eq, Structural, Debug)]
pub enum EscrowError {
    NotPending,
    NotFullyFunded,
    EscrowExpired,
    EscrowNotExpired,
    InvalidDepositAmount,
    AlreadyExecuted,
    AlreadyCancelled,
    Unauthorized,
    InvalidStatus,
    InsufficientBalance,
    Overflow,
}

/// The privileged identity allowed to recover stuck funds.
#[derive(Clone, Copy, PartialEq, Eq, Structural, Debug)]
pub struct EscrowAuthority {
    pub authority: u64,
    pub total_escrows: u64,
    pub total_volume: u64,
}

/// One bilateral trade: the seller owes `base_amount` of the base leg to
/// the buyer, the buyer owes `sol_amount` of the native leg to the seller.
#[derive(Clone, Copy, PartialEq, Eq, Structural, Debug)]
pub struct EscrowAccount {
    pub trade_id: u64,
    pub buyer: u64,
    pub seller: u64,
    pub base_mint: u64,
    pub base_amount: u64,
    pub sol_amount: u64,
    pub base_deposited: u64,
    pub sol_deposited: u64,
    pub base_vault: Vault,
    pub sol_vault: Vault,
    pub status: EscrowStatus,
    pub created_at: i64,
    pub expiry: i64,
}

impl EscrowAccount {
    /// Both legs have met their promised amounts.
    pub open spec fn fully_funded(self) -> bool {
        self.base_deposited >= self.base_amount && self.sol_deposited >= self.sol_amount
    }

    /// The deadline has passed at `now`.
    pub open spec fn expired(self, now: i64) -> bool {
        now > self.expiry
    }

    /// A status from which no further transition is allowed.
    pub open spec fn terminal(self) -> bool {
        self.status == EscrowStatus::Executed
            || self.status == EscrowStatus::Cancelled
            || self.status == EscrowStatus::Expired
    }

    /// Well-formedness: both promised amounts are positive, and once the
    /// record has reached `Funded` (or gone on to `Executed`), both legs
    /// had met their promised amounts.
    pub open spec fn wf(self) -> bool {
        &&& self.base_amount > 0
        &&& self.sol_amount > 0
        &&& self.base_vault.kind == AssetKind::Token
        &&& self.sol_vault.kind == AssetKind::Native
        &&& (self.status == EscrowStatus::Funded || self.status == EscrowStatus::Executed)
            ==> self.fully_funded()
    }

    pub fn is_fully_funded(&self) -> (r: bool)
        ensures
            r == self.fully_funded(),
    {
        self.base_deposited >= self.base_amount && self.sol_deposited >= self.sol_amount
    }

    pub fn is_expired(&self, current_time: i64) -> (r: bool)
        ensures
            r == self.expired(current_time),
    {
        current_time > self.expiry
    }

    /// Creates a `Pending` escrow with empty vaults.
    ///
    /// Rejects a deadline whose distance from `now` lies outside
    /// [`MIN_ESCROW_DURATION`, `MAX_ESCROW_DURATION`], and rejects a zero
    /// promised amount on either leg.
    pub fn initialize_escrow(
        trade_id: u64,
        buyer: u64,
        seller: u64,
        base_mint: u64,
        base_amount: u64,
        sol_amount: u64,
        now: i64,
        expiry: i64,
    ) -> (r: Result<EscrowAccount, EscrowError>)
        ensures
            r == Err::<EscrowAccount, EscrowError>(EscrowError::InvalidStatus)
                <==> !(MIN_ESCROW_DURATION <= expiry - now <= MAX_ESCROW_DURATION),
            r == Err::<EscrowAccount, EscrowError>(EscrowError::InvalidDepositAmount)
                <==> MIN_ESCROW_DURATION <= expiry - now <= MAX_ESCROW_DURATION
                    && (base_amount == 0 || sol_amount == 0),
            r is Ok <==> MIN_ESCROW_DURATION <= expiry - now <= MAX_ESCROW_DURATION
                && base_amount > 0 && sol_amount > 0,
            r matches Ok(e) ==> {
                &&& e.wf()
                &&& e.trade_id == trade_id
                &&& e.buyer == buyer
                &&& e.seller == seller
                &&& e.base_mint == base_mint
                &&& e.base_amount == base_amount
                &&& e.sol_amount == sol_amount
                &&& e.base_deposited == 0
                &&& e.sol_deposited == 0
                &&& e.base_vault.balance == 0
                &&& e.sol_vault.balance == 0
                &&& e.status == EscrowStatus::Pending
                &&& e.created_at == now
                &&& e.expiry == expiry
            },
    {
        let duration = match expiry.checked_sub(now) {
            Some(d) => d,
            None => {
                // A distance that does not even fit in `i64` is certainly
                // outside the allowed window.
                return Err(EscrowError::InvalidStatus);
            }
        };
        if !(MIN_ESCROW_DURATION <= duration && duration <= MAX_ESCROW_DURATION) {
            return Err(EscrowError::InvalidStatus);
        }
        if base_amount == 0 || sol_amount == 0 {
            return Err(EscrowError::InvalidDepositAmount);
        }
        Ok(EscrowAccount {
            trade_id,
            buyer,
            seller,
            base_mint,
            base_amount,
            sol_amount,
            base_deposited: 0,
            sol_deposited: 0,
            base_vault: Vault::new(AssetKind::Token),
            sol_vault: Vault::new(AssetKind::Native),
            status: EscrowStatus::Pending,
            created_at: now,
            expiry,
        })
    }

    /// Deposits `amount` from `source` into the chosen leg's vault.
    ///
    /// Only allowed while `Pending` and before the deadline, only by the
    /// buyer or the seller, and only with a positive amount. Once both
    /// legs meet their promised amounts the record becomes `Funded`; from
    /// `Funded` or any terminal status every further deposit is rejected
    /// with the state unchanged.
    pub fn deposit_to_escrow(
        &mut self,
        depositor: u64,
        amount: u64,
        is_base: bool,
        now: i64,
        source: &mut u64,
    ) -> (r: Result<(), EscrowError>)
        requires
            old(self).wf(),
        ensures
            final(self).wf(),
            r == Err::<(), EscrowError>(EscrowError::InvalidStatus)
                <==> old(self).status != EscrowStatus::Pending,
            old(self).status == EscrowStatus::Pending ==> {
                &&& (r == Err::<(), EscrowError>(EscrowError::EscrowExpired)
                    <==> old(self).expired(now))
                &&& (r == Err::<(), EscrowError>(EscrowError::InvalidDepositAmount)
                    <==> !old(self).expired(now) && amount == 0)
                &&& (r == Err::<(), EscrowError>(EscrowError::Unauthorized)
                    <==> !old(self).expired(now) && amount > 0
                        && depositor != old(self).buyer && depositor != old(self).seller)
                &&& (r == Err::<(), EscrowError>(EscrowError::InsufficientBalance)
                    <==> !old(self).expired(now) && amount > 0
                        && (depositor == old(self).buyer || depositor == old(self).seller)
                        && *old(source) < amount)
                &&& (r == Err::<(), EscrowError>(EscrowError::Overflow)
                    <==> !old(self).expired(now) && amount > 0
                        && (depositor == old(self).buyer || depositor == old(self).seller)
                        && *old(source) >= amount
                        && (if is_base {
                            old(self).base_deposited + amount > u64::MAX
                                || old(self).base_vault.balance + amount > u64::MAX
                        } else {
                            old(self).sol_deposited + amount > u64::MAX
                                || old(self).sol_vault.balance + amount > u64::MAX
                        }))
                &&& (r is Ok <==> !old(self).expired(now) && amount > 0
                    && (depositor == old(self).buyer || depositor == old(self).seller)
                    && *old(source) >= amount
                    && (if is_base {
                        old(self).base_deposited + amount <= u64::MAX
                            && old(self).base_vault.balance + amount <= u64::MAX
                    } else {
                        old(self).sol_deposited + amount <= u64::MAX
                            && old(self).sol_vault.balance + amount <= u64::MAX
                    }))
            },
            r is Err ==> *final(self) == *old(self) && *final(source) == *old(source),
            r is Ok ==> {
                &&& *final(source) == *old(source) - amount
                &&& is_base ==> *final(self) == (EscrowAccount {
                    base_deposited: (old(self).base_deposited + amount) as u64,
                    base_vault: Vault {
                        balance: (old(self).base_vault.balance + amount) as u64,
                        ..old(self).base_vault
                    },
                    status: if old(self).base_deposited + amount >= old(self).base_amount && old(
                        self,
                    ).sol_deposited >= old(self).sol_amount {
                        EscrowStatus::Funded
                    } else {
                        EscrowStatus::Pending
                    },
                    ..*old(self)
                })
                &&& !is_base ==> *final(self) == (EscrowAccount {
                    sol_deposited: (old(self).sol_deposited + amount) as u64,
                    sol_vault: Vault {
                        balance: (old(self).sol_vault.balance + amount) as u64,
                        ..old(self).sol_vault
                    },
                    status: if old(self).base_deposited >= old(self).base_amount && old(
                        self,
                    ).sol_deposited + amount >= old(self).sol_amount {
                        EscrowStatus::Funded
                    } else {
                        EscrowStatus::Pending
                    },
                    ..*old(self)
                })
            },
    {
        if !matches!(self.status, EscrowStatus::Pending) {
            return Err(EscrowError::InvalidStatus);
        }
        if self.is_expired(now) {
            return Err(EscrowError::EscrowExpired);
        }
        if amount == 0 {
            return Err(EscrowError::InvalidDepositAmount);
        }
        if depositor != self.buyer && depositor != self.seller {
            return Err(EscrowError::Unauthorized);
        }
        if *source < amount {
            return Err(EscrowError::InsufficientBalance);
        }
        if is_base {
            let new_deposited = match self.base_deposited.checked_add(amount) {
                Some(d) => d,
                None => {
                    return Err(EscrowError::Overflow);
                }
            };
            match self.base_vault.lock(source, amount) {
                Ok(()) => {}
                Err(_) => {
                    return Err(EscrowError::Overflow);
                }
            }
            self.base_deposited = new_deposited;
        } else {
            let new_deposited = match self.sol_deposited.checked_add(amount) {
                Some(d) => d,
                None => {
                    return Err(EscrowError::Overflow);
                }
            };
            match self.sol_vault.lock(source, amount) {
                Ok(()) => {}
                Err(_) => {
                    return Err(EscrowError::Overflow);
                }
            }
            self.sol_deposited = new_deposited;
        }
        if self.is_fully_funded() {
            self.status = EscrowStatus::Funded;
        }
        Ok(())
    }

    /// Executes the atomic swap: the full promised base amount goes to the
    /// buyer and the full promised native amount goes to the seller, both
    /// or neither.
    ///
    /// Only allowed while `Funded` and before the deadline; re-execution
    /// is rejected with `AlreadyExecuted`.
    pub fn execute_swap(
        &mut self,
        now: i64,
        buyer_base: &mut u64,
        seller_sol: &mut u64,
    ) -> (r: Result<(), EscrowError>)
        requires
            old(self).wf(),
        ensures
            final(self).wf(),
            r == Err::<(), EscrowError>(EscrowError::AlreadyExecuted)
                <==> old(self).status == EscrowStatus::Executed,
            r == Err::<(), EscrowError>(EscrowError::NotFullyFunded)
                <==> old(self).status != EscrowStatus::Executed
                    && old(self).status != EscrowStatus::Funded,
            old(self).status == EscrowStatus::Funded ==> {
                &&& (r == Err::<(), EscrowError>(EscrowError::EscrowExpired)
                    <==> old(self).expired(now))
                &&& (r == Err::<(), EscrowError>(EscrowError::InsufficientBalance)
                    <==> !old(self).expired(now)
                        && (old(self).base_vault.balance < old(self).base_amount
                            || old(self).sol_vault.balance < old(self).sol_amount))
                &&& (r == Err::<(), EscrowError>(EscrowError::Overflow)
                    <==> !old(self).expired(now)
                        && old(self).base_vault.balance >= old(self).base_amount
                        && old(self).sol_vault.balance >= old(self).sol_amount
                        && (*old(buyer_base) + old(self).base_amount > u64::MAX
                            || *old(seller_sol) + old(self).sol_amount > u64::MAX))
                &&& (r is Ok <==> !old(self).expired(now)
                    && old(self).base_vault.balance >= old(self).base_amount
                    && old(self).sol_vault.balance >= old(self).sol_amount
                    && *old(buyer_base) + old(self).base_amount <= u64::MAX
                    && *old(seller_sol) + old(self).sol_amount <= u64::MAX)
            },
            r is Err ==> *final(self) == *old(self) && *final(buyer_base) == *old(buyer_base)
                && *final(seller_sol) == *old(seller_sol),
            r is Ok ==> {
                &&& *final(buyer_base) == *old(buyer_base) + old(self).base_amount
                &&& *final(seller_sol) == *old(seller_sol) + old(self).sol_amount
                &&& *final(self) == (EscrowAccount {
                    base_vault: Vault {
                        balance: (old(self).base_vault.balance - old(self).base_amount) as u64,
                        ..old(self).base_vault
                    },
                    sol_vault: Vault {
                        balance: (old(self).sol_vault.balance - old(self).sol_amount) as u64,
                        ..old(self).sol_vault
                    },
                    status: EscrowStatus::Executed,
                    ..*old(self)
                })
            },
    {
        if matches!(self.status, EscrowStatus::Executed) {
            return Err(EscrowError::AlreadyExecuted);
        }
        if !matches!(self.status, EscrowStatus::Funded) {
            return Err(EscrowError::NotFullyFunded);
        }
        if self.is_expired(now) {
            return Err(EscrowError::EscrowExpired);
        }
        if self.base_vault.balance < self.base_amount || self.sol_vault.balance < self.sol_amount {
            return Err(EscrowError::InsufficientBalance);
        }
        if u64::MAX - self.base_amount < *buyer_base {
            return Err(EscrowError::Overflow);
        }
        if u64::MAX - self.sol_amount < *seller_sol {
            return Err(EscrowError::Overflow);
        }
        let base_ok = self.base_vault.release(buyer_base, self.base_amount);
        assert(base_ok is Ok);
        let sol_ok = self.sol_vault.release(seller_sol, self.sol_amount);
        assert(sol_ok is Ok);
        self.status = EscrowStatus::Executed;
        Ok(())
    }

    /// Cancels the escrow and refunds whatever has actually been deposited
    /// on each leg back to its depositor side: base to the seller, native
    /// currency to the buyer.
    ///
    /// Before the deadline only the buyer or the seller may cancel, and
    /// only while `Pending`; once expired anyone may trigger the cleanup.
    /// The status becomes `Expired` when the deadline has passed, else
    /// `Cancelled`; terminal records are rejected.
    pub fn cancel_escrow(
        &mut self,
        caller: u64,
        now: i64,
        seller_base: &mut u64,
        buyer_sol: &mut u64,
    ) -> (r: Result<(), EscrowError>)
        requires
            old(self).wf(),
        ensures
            final(self).wf(),
            r == Err::<(), EscrowError>(EscrowError::AlreadyExecuted)
                <==> old(self).status == EscrowStatus::Executed,
            r == Err::<(), EscrowError>(EscrowError::AlreadyCancelled)
                <==> old(self).status == EscrowStatus::Cancelled
                    || old(self).status == EscrowStatus::Expired,
            !old(self).terminal() ==> {
                &&& (r == Err::<(), EscrowError>(EscrowError::Unauthorized)
                    <==> !old(self).expired(now)
                        && (old(self).status != EscrowStatus::Pending
                            || (caller != old(self).buyer && caller != old(self).seller)))
                &&& (r == Err::<(), EscrowError>(EscrowError::InsufficientBalance)
                    <==> (old(self).expired(now)
                            || (old(self).status == EscrowStatus::Pending
                                && (caller == old(self).buyer || caller == old(self).seller)))
                        && (old(self).base_vault.balance < old(self).base_deposited
                            || old(self).sol_vault.balance < old(self).sol_deposited))
                &&& (r == Err::<(), EscrowError>(EscrowError::Overflow)
                    <==> (old(self).expired(now)
                            || (old(self).status == EscrowStatus::Pending
                                && (caller == old(self).buyer || caller == old(self).seller)))
                        && old(self).base_vault.balance >= old(self).base_deposited
                        && old(self).sol_vault.balance >= old(self).sol_deposited
                        && (*old(seller_base) + old(self).base_deposited > u64::MAX
                            || *old(buyer_sol) + old(self).sol_deposited > u64::MAX))
                &&& (r is Ok <==> (old(self).expired(now)
                        || (old(self).status == EscrowStatus::Pending
                            && (caller == old(self).buyer || caller == old(self).seller)))
                    && old(self).base_vault.balance >= old(self).base_deposited
                    && old(self).sol_vault.balance >= old(self).sol_deposited
                    && *old(seller_base) + old(self).base_deposited <= u64::MAX
                    && *old(buyer_sol) + old(self).sol_deposited <= u64::MAX)
            },
            r is Err ==> *final(self) == *old(self) && *final(seller_base) == *old(seller_base)
                && *final(buyer_sol) == *old(buyer_sol),
            r is Ok ==> {
                &&& *final(seller_base) == *old(seller_base) + old(self).base_deposited
                &&& *final(buyer_sol) == *old(buyer_sol) + old(self).sol_deposited
                &&& *final(self) == (EscrowAccount {
                    base_vault: Vault {
                        balance: (old(self).base_vault.balance - old(self).base_deposited) as u64,
                        ..old(self).base_vault
                    },
                    sol_vault: Vault {
                        balance: (old(self).sol_vault.balance - old(self).sol_deposited) as u64,
                        ..old(self).sol_vault
                    },
                    status: if old(self).expired(now) {
                        EscrowStatus::Expired
                    } else {
                        EscrowStatus::Cancelled
                    },
                    ..*old(self)
                })
            },
    {
        if matches!(self.status, EscrowStatus::Executed) {
            return Err(EscrowError::AlreadyExecuted);
        }
        if matches!(self.status, EscrowStatus::Cancelled) || matches!(
            self.status,
            EscrowStatus::Expired,
        ) {
            return Err(EscrowError::AlreadyCancelled);
        }
        let expired_now = self.is_expired(now);
        if !expired_now {
            let allowed = matches!(self.status, EscrowStatus::Pending) && (caller == self.buyer
                || caller == self.seller);
            if !allowed {
                return Err(EscrowError::Unauthorized);
            }
        }
        if self.base_vault.balance < self.base_deposited
            || self.sol_vault.balance < self.sol_deposited {
            return Err(EscrowError::InsufficientBalance);
        }
        if u64::MAX - self.base_deposited < *seller_base {
            return Err(EscrowError::Overflow);
        }
        if u64::MAX - self.sol_deposited < *buyer_sol {
            return Err(EscrowError::Overflow);
        }
        let base_ok = self.base_vault.release(seller_base, self.base_deposited);
        assert(base_ok is Ok);
        let sol_ok = self.sol_vault.release(buyer_sol, self.sol_deposited);
        assert(sol_ok is Ok);
        self.status = if expired_now {
            EscrowStatus::Expired
        } else {
            EscrowStatus::Cancelled
        };
        Ok(())
    }

    /// Checks that `claimer` may claim from a completed escrow: the swap
    /// must have executed and the claimer must be the buyer or the seller.
    pub fn claim_from_escrow(&self, claimer: u64) -> (r: Result<(), EscrowError>)
        ensures
            r == Err::<(), EscrowError>(EscrowError::InvalidStatus)
                <==> self.status != EscrowStatus::Executed,
            r == Err::<(), EscrowError>(EscrowError::Unauthorized)
                <==> self.status == EscrowStatus::Executed
                    && claimer != self.buyer && claimer != self.seller,
            r is Ok <==> self.status == EscrowStatus::Executed
                && (claimer == self.buyer || claimer == self.seller),
    {
        if !matches!(self.status, EscrowStatus::Executed) {
            return Err(EscrowError::InvalidStatus);
        }
        if claimer != self.buyer && claimer != self.seller {
            return Err(EscrowError::Unauthorized);
        }
        Ok(())
    }

    /// Recovery path for stuck funds: once the deadline has passed, the
    /// escrow authority may sweep whatever remains in one leg's vault to a
    /// designated destination. Returns the amount swept.
    pub fn emergency_withdraw(
        &mut self,
        caller: u64,
        authority: &EscrowAuthority,
        now: i64,
        is_base: bool,
        destination: &mut u64,
    ) -> (r: Result<u64, EscrowError>)
        requires
            old(self).wf(),
        ensures
            final(self).wf(),
            r == Err::<u64, EscrowError>(EscrowError::Unauthorized)
                <==> caller != authority.authority,
            r == Err::<u64, EscrowError>(EscrowError::EscrowNotExpired)
                <==> caller == authority.authority && !old(self).expired(now),
            r == Err::<u64, EscrowError>(EscrowError::Overflow)
                <==> caller == authority.authority && old(self).expired(now)
                    && *old(destination) + (if is_base {
                        old(self).base_vault.balance
                    } else {
                        old(self).sol_vault.balance
                    }) > u64::MAX,
            r is Ok <==> caller == authority.authority && old(self).expired(now)
                && *old(destination) + (if is_base {
                    old(self).base_vault.balance
                } else {
                    old(self).sol_vault.balance
                }) <= u64::MAX,
            r is Err ==> *final(self) == *old(self) && *final(destination) == *old(destination),
            r matches Ok(swept) ==> {
                &&& swept == (if is_base {
                    old(self).base_vault.balance
                } else {
                    old(self).sol_vault.balance
                })
                &&& *final(destination) == *old(destination) + swept
                &&& is_base ==> *final(self) == (EscrowAccount {
                    base_vault: Vault { balance: 0, ..old(self).base_vault },
                    ..*old(self)
                })
                &&& !is_base ==> *final(self) == (EscrowAccount {
                    sol_vault: Vault { balance: 0, ..old(self).sol_vault },
                    ..*old(self)
                })
            },
    {
        if caller != authority.authority {
            return Err(EscrowError::Unauthorized);
        }
        if !self.is_expired(now) {
            return Err(EscrowError::EscrowNotExpired);
        }
        let balance = if is_base {
            self.base_vault.balance
        } else {
            self.sol_vault.balance
        };
        if u64::MAX - balance < *destination {
            return Err(EscrowError::Overflow);
        }
        if is_base {
            let swept = self.base_vault.release(destination, balance);
            assert(swept is Ok);
        } else {
            let swept = self.sol_vault.release(destination, balance);
            assert(swept is Ok);
        }
        Ok(balance)
    }
}

} // verus!
