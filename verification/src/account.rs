//! Per-client accounts and their checked balance mutations.
//!
//! An [`Account`] splits a client's funds into `available` (spendable) and
//! `held` (frozen pending dispute resolution), plus a terminal `locked` flag
//! set by a chargeback. Every mutation is specified exactly by a spec-level
//! transition function (`spec_deposit`, `spec_withdraw`, ...), and each
//! executable method ensures that it performs precisely that transition.

use crate::amount::Amount;
use vstd::prelude::*;

verus! {

/// Identifies one client. One account exists per distinct client id.
#[derive(Clone, Copy, Debug, PartialEq, Eq, Hash, Structural)]
pub struct ClientId(pub u16);

/// Why an account refused a balance mutation.
#[derive(Clone, Copy, Debug, PartialEq, Eq)]
pub enum AccountError {
    /// The mutation would have pushed a balance outside the representable
    /// range. Carries the balances at the time of the attempt and the
    /// offending amount.
    Overflow { available: Amount, held: Amount, transaction_amount: Amount },
    /// A withdrawal asked for more than `available`, or the mutation would
    /// have pushed a balance below the representable range. Carries the
    /// balances at the time of the attempt and the offending amount.
    Underflow { available: Amount, held: Amount, transaction_amount: Amount },
    /// The account is locked by a prior chargeback; deposits and
    /// withdrawals are rejected. Carries the account as it stood.
    FrozenAccount(Account),
}

/// The outcome of one account mutation.
pub type AccountResult = Result<(), AccountError>;

/// One client's balances and lock state.
#[derive(Clone, Copy, Debug, PartialEq, Eq)]
pub struct Account {
    /// Funds the client may withdraw or that may be put under hold. May go
    /// negative only as a byproduct of disputing funds already withdrawn.
    pub available: Amount,
    /// Funds frozen pending dispute resolution.
    pub held: Amount,
    /// True once a chargeback has occurred; terminal for the run.
    pub locked: bool,
}

/// A fresh account: both balances zero, not locked. Accounts are created
/// lazily in this state on the first transaction naming their client.
pub open spec fn empty_account() -> Account {
    Account { available: Amount { units: 0 }, held: Amount { units: 0 }, locked: false }
}

/// Whether the mathematical integer `x` is representable as an amount.
pub open spec fn fits_amount(x: int) -> bool {
    i64::MIN <= x <= i64::MAX
}

/// What `deposit` does: rejected when locked, rejected without mutation
/// when `available + amount` is unrepresentable, otherwise `amount` is
/// added to `available`.
pub open spec fn spec_deposit(a: Account, amount: Amount) -> (Account, AccountResult) {
    if a.locked {
        (a, Err(AccountError::FrozenAccount(a)))
    } else if fits_amount(a.available@ + amount@) {
        (
            Account {
                available: Amount { units: (a.available.units + amount.units) as i64 },
                held: a.held,
                locked: a.locked,
            },
            Ok(()),
        )
    } else {
        (
            a,
            Err(
                AccountError::Overflow {
                    available: a.available,
                    held: a.held,
                    transaction_amount: amount,
                },
            ),
        )
    }
}

/// What `withdraw` does: rejected when locked, rejected without mutation
/// when `available < amount`, otherwise `amount` is subtracted from
/// `available`.
pub open spec fn spec_withdraw(a: Account, amount: Amount) -> (Account, AccountResult) {
    if a.locked {
        (a, Err(AccountError::FrozenAccount(a)))
    } else if a.available@ < amount@ {
        (
            a,
            Err(
                AccountError::Underflow {
                    available: a.available,
                    held: a.held,
                    transaction_amount: amount,
                },
            ),
        )
    } else {
        (
            Account {
                available: Amount { units: (a.available.units - amount.units) as i64 },
                held: a.held,
                locked: a.locked,
            },
            Ok(()),
        )
    }
}

/// What `dispute` does: `amount` moves from `available` to `held` as one
/// atomic pair of checked operations; if either half is unrepresentable,
/// nothing changes. `available` may legitimately go negative here, when the
/// disputed funds were already withdrawn. The lock is not consulted.
pub open spec fn spec_dispute(a: Account, amount: Amount) -> (Account, AccountResult) {
    if !fits_amount(a.held@ + amount@) {
        (
            a,
            Err(
                AccountError::Underflow {
                    available: a.available,
                    held: a.held,
                    transaction_amount: amount,
                },
            ),
        )
    } else if !fits_amount(a.available@ - amount@) {
        (
            a,
            Err(
                AccountError::Overflow {
                    available: a.available,
                    held: a.held,
                    transaction_amount: amount,
                },
            ),
        )
    } else {
        (
            Account {
                available: Amount { units: (a.available.units - amount.units) as i64 },
                held: Amount { units: (a.held.units + amount.units) as i64 },
                locked: a.locked,
            },
            Ok(()),
        )
    }
}

/// What `resolve` does: the inverse of `spec_dispute` — `amount` moves from
/// `held` back to `available` as one atomic pair of checked operations; if
/// either half is unrepresentable, nothing changes.
pub open spec fn spec_resolve(a: Account, amount: Amount) -> (Account, AccountResult) {
    if !fits_amount(a.held@ - amount@) {
        (
            a,
            Err(
                AccountError::Overflow {
                    available: a.available,
                    held: a.held,
                    transaction_amount: amount,
                },
            ),
        )
    } else if !fits_amount(a.available@ + amount@) {
        (
            a,
            Err(
                AccountError::Underflow {
                    available: a.available,
                    held: a.held,
                    transaction_amount: amount,
                },
            ),
        )
    } else {
        (
            Account {
                available: Amount { units: (a.available.units + amount.units) as i64 },
                held: Amount { units: (a.held.units - amount.units) as i64 },
                locked: a.locked,
            },
            Ok(()),
        )
    }
}

/// What `chargeback` does: `amount` leaves `held` and the account locks.
/// It cannot fail: the ledger only charges back a disputed transaction,
/// whose amount a prior dispute verified present in `held`.
pub open spec fn spec_chargeback(a: Account, amount: Amount) -> Account {
    Account {
        available: a.available,
        held: Amount { units: (a.held.units - amount.units) as i64 },
        locked: true,
    }
}

/// What `check_locked` reports: an error carrying the account when it is
/// locked, success otherwise.
pub open spec fn spec_check_locked(a: Account) -> AccountResult {
    if a.locked {
        Err(AccountError::FrozenAccount(a))
    } else {
        Ok(())
    }
}

impl Account {
    /// Spendable funds.
    pub fn available(&self) -> (r: Amount)
        ensures
            r == self.available,
    {
        self.available
    }

    /// Funds frozen pending dispute resolution.
    pub fn held(&self) -> (r: Amount)
        ensures
            r == self.held,
    {
        self.held
    }

    /// Whether a chargeback has locked this account.
    pub fn locked(&self) -> (r: bool)
        ensures
            r == self.locked,
    {
        self.locked
    }

    /// The client's total funds, `available + held`, or `None` when that
    /// sum is not representable.
    pub fn total(&self) -> (r: Option<Amount>)
        ensures
            r matches Some(t) ==> t@ == self.available@ + self.held@,
            r is Some <==> fits_amount(self.available@ + self.held@),
    {
        self.available.checked_add(self.held)
    }

    /// Fails with `FrozenAccount` when the account is locked; otherwise
    /// succeeds. Never mutates.
    pub fn check_locked(&mut self) -> (r: AccountResult)
        ensures
            *final(self) == *old(self),
            r == spec_check_locked(*old(self)),
    {
        if self.locked {
            Err(AccountError::FrozenAccount(*self))
        } else {
            Ok(())
        }
    }

    /// Adds `amount` to `available` via checked addition; see
    /// [`spec_deposit`] for the exact outcome on every input. On failure
    /// nothing changes.
    pub fn deposit(&mut self, amount: Amount) -> (r: AccountResult)
        ensures
            *final(self) == spec_deposit(*old(self), amount).0,
            r == spec_deposit(*old(self), amount).1,
    {
        if self.locked {
            return Err(AccountError::FrozenAccount(*self));
        }
        match self.available.checked_add(amount) {
            Some(value) => {
                self.available = value;
                Ok(())
            },
            None => Err(
                AccountError::Overflow {
                    available: self.available,
                    held: self.held,
                    transaction_amount: amount,
                },
            ),
        }
    }

    /// Subtracts `amount` from `available` unless the account is locked or
    /// `available < amount`; see [`spec_withdraw`] for the exact outcome on
    /// every input. On failure nothing changes.
    pub fn withdraw(&mut self, amount: Amount) -> (r: AccountResult)
        requires
            old(self).available@ - amount@ <= i64::MAX,
        ensures
            *final(self) == spec_withdraw(*old(self), amount).0,
            r == spec_withdraw(*old(self), amount).1,
    {
        if self.locked {
            return Err(AccountError::FrozenAccount(*self));
        }
        if self.available.lt(amount) {
            return Err(
                AccountError::Underflow {
                    available: self.available,
                    held: self.held,
                    transaction_amount: amount,
                },
            );
        }
        self.available = Amount::from_units(self.available.units - amount.units);
        Ok(())
    }

    /// Moves `amount` from `available` to `held` as one atomic pair of
    /// checked operations; see [`spec_dispute`] for the exact outcome on
    /// every input. On failure nothing changes.
    pub fn dispute(&mut self, amount: Amount) -> (r: AccountResult)
        ensures
            *final(self) == spec_dispute(*old(self), amount).0,
            r == spec_dispute(*old(self), amount).1,
    {
        let new_available = self.available.checked_sub(amount);
        let new_held = self.held.checked_add(amount);
        match (new_available, new_held) {
            (Some(available), Some(held)) => {
                self.available = available;
                self.held = held;
                Ok(())
            },
            (_, None) => Err(
                AccountError::Underflow {
                    available: self.available,
                    held: self.held,
                    transaction_amount: amount,
                },
            ),
            (None, Some(_)) => Err(
                AccountError::Overflow {
                    available: self.available,
                    held: self.held,
                    transaction_amount: amount,
                },
            ),
        }
    }

    /// Moves `amount` from `held` back to `available` as one atomic pair of
    /// checked operations; see [`spec_resolve`] for the exact outcome on
    /// every input. On failure nothing changes.
    pub fn resolve(&mut self, amount: Amount) -> (r: AccountResult)
        ensures
            *final(self) == spec_resolve(*old(self), amount).0,
            r == spec_resolve(*old(self), amount).1,
    {
        let new_available = self.available.checked_add(amount);
        let new_held = self.held.checked_sub(amount);
        match (new_available, new_held) {
            (Some(available), Some(held)) => {
                self.available = available;
                self.held = held;
                Ok(())
            },
            (_, None) => Err(
                AccountError::Overflow {
                    available: self.available,
                    held: self.held,
                    transaction_amount: amount,
                },
            ),
            (None, Some(_)) => Err(
                AccountError::Underflow {
                    available: self.available,
                    held: self.held,
                    transaction_amount: amount,
                },
            ),
        }
    }

    /// Subtracts `amount` from `held` and locks the account; see
    /// [`spec_chargeback`]. The caller must know the subtraction is
    /// representable — the ledger does, because the amount of a disputed
    /// transaction is always present in `held`.
    pub fn chargeback(&mut self, amount: Amount)
        requires
            fits_amount(old(self).held@ - amount@),
        ensures
            *final(self) == spec_chargeback(*old(self), amount),
    {
        self.held = Amount::from_units(self.held.units - amount.units);
        self.locked = true;
    }
}

impl Default for Account {
    /// A fresh account: both balances zero, not locked.
    fn default() -> (r: Account)
        ensures
            r == empty_account(),
    {
        Account { available: Amount::zero(), held: Amount::zero(), locked: false }
    }
}

} // verus!
