//! Disputable transactions and their dispute lifecycle.
//!
//! A [`Transaction`] records one deposit or withdrawal together with its
//! dispute state. The state moves strictly `Undisputed -> Disputed ->
//! {Undisputed, Chargedback}`; `Chargedback` is terminal. A transition is attempted only
//! after [`Transaction::check_valid_dispute`] passes, and it advances the
//! state only when the paired account mutation succeeds, so no partial
//! transition is ever visible.

use crate::account::{spec_chargeback, spec_dispute, spec_resolve, Account, AccountError, ClientId};
use crate::amount::Amount;
use vstd::prelude::*;

verus! {

/// Identifies one disputable transaction. Write-once: ids are globally
/// unique across the input stream for deposits and withdrawals.
#[derive(Clone, Copy, Debug, PartialEq, Eq, Hash, Structural)]
pub struct TransactionId(pub u32);

/// Why the ledger refused a transaction.
#[derive(Clone, Copy, Debug, PartialEq, Eq)]
pub enum TransactionError {
    /// A deposit or withdrawal reused an already-recorded transaction id.
    RepeatedTransactionId(TransactionId),
    /// A dispute, resolve or chargeback referenced an id with no record.
    UnknownTransactionId(TransactionId),
    /// A dispute, resolve or chargeback referenced a client with no account.
    UnknownClientId(ClientId),
    /// A dispute was requested on a transaction that is not in the
    /// `Undisputed` state, or on one that is not of a disputable kind.
    AlreadyDisputed(TransactionId),
    /// The requesting client does not match the referenced transaction's
    /// client (requesting client first, transaction's client second).
    MismatchedClientId(ClientId, ClientId),
    /// A resolve or chargeback was requested on a transaction that is not
    /// currently disputed.
    UndisputedTransaction(TransactionId),
    /// The account refused the balance mutation; carries the client and the
    /// account's own error.
    AccountError(ClientId, AccountError),
    /// A negative amount was supplied.
    InvalidAmount(TransactionId, Amount),
}

/// The outcome of applying one transaction to the ledger.
pub type TransactionResult = Result<(), TransactionError>;

/// The kind of a client request.
#[derive(Clone, Copy, Debug, PartialEq, Eq, Structural)]
pub enum Operation {
    Deposit,
    Withdrawal,
    Dispute,
    Chargeback,
    Resolve,
}

/// Where a transaction stands in its dispute lifecycle. Transitions are
/// strictly `Undisputed -> Disputed -> {Undisputed, Chargedback}`; `Chargedback` is
/// terminal.
#[derive(Clone, Copy, Debug, PartialEq, Eq, Structural)]
pub enum TransactionState {
    Undisputed,
    Disputed,
    Chargedback,
}

/// One recorded monetary operation plus its dispute lifecycle state.
#[derive(Clone, Copy, Debug, PartialEq, Eq)]
pub struct Transaction {
    /// The client the operation belongs to.
    pub client_id: ClientId,
    /// The operation's amount.
    pub amount: Amount,
    /// Where the transaction stands in its dispute lifecycle.
    pub state: TransactionState,
    /// The kind of operation. Recorded transactions hold only `Deposit` or
    /// `Withdrawal`; a `Transaction` value is also used to carry a
    /// dispute-family request to the ledger.
    pub operation: Operation,
}

/// What `check_valid_dispute` decides, given the requesting transaction
/// `req`, the referenced id, and the referenced transaction `target`:
/// only transactions of a disputable kind — recorded deposits and
/// withdrawals — can be disputed (`AlreadyDisputed` otherwise);
/// the requesting client must own the referenced transaction
/// (`MismatchedClientId`); a dispute needs state `Undisputed` (`AlreadyDisputed`
/// otherwise); a resolve or chargeback needs state `Disputed`
/// (`UndisputedTransaction` otherwise).
pub open spec fn spec_check_valid_dispute(
    req: Transaction,
    transaction_id: TransactionId,
    target: Transaction,
) -> TransactionResult {
    if !(target.operation is Deposit || target.operation is Withdrawal) {
        Err(TransactionError::AlreadyDisputed(transaction_id))
    } else if req.client_id != target.client_id {
        Err(TransactionError::MismatchedClientId(req.client_id, target.client_id))
    } else if req.operation is Dispute {
        if !(target.state is Undisputed) {
            Err(TransactionError::AlreadyDisputed(transaction_id))
        } else {
            Ok(())
        }
    } else if !(target.state is Disputed) {
        Err(TransactionError::UndisputedTransaction(transaction_id))
    } else {
        Ok(())
    }
}

/// What `Transaction::dispute` does: the account moves the amount under
/// hold; only if that succeeds does the state advance to `Disputed`.
pub open spec fn spec_tx_dispute(t: Transaction, a: Account) -> (Transaction, Account,
    TransactionResult) {
    let (a2, r) = spec_dispute(a, t.amount);
    match r {
        Ok(()) => (
            Transaction {
                client_id: t.client_id,
                amount: t.amount,
                state: TransactionState::Disputed,
                operation: t.operation,
            },
            a2,
            Ok(()),
        ),
        Err(e) => (t, a, Err(TransactionError::AccountError(t.client_id, e))),
    }
}

/// What `Transaction::resolve` does: the account releases the amount from
/// hold; only if that succeeds does the state return to `Undisputed`.
pub open spec fn spec_tx_resolve(t: Transaction, a: Account) -> (Transaction, Account,
    TransactionResult) {
    let (a2, r) = spec_resolve(a, t.amount);
    match r {
        Ok(()) => (
            Transaction {
                client_id: t.client_id,
                amount: t.amount,
                state: TransactionState::Undisputed,
                operation: t.operation,
            },
            a2,
            Ok(()),
        ),
        Err(e) => (t, a, Err(TransactionError::AccountError(t.client_id, e))),
    }
}

/// What `Transaction::chargeback` does: the held amount leaves the account,
/// the account locks, and the state becomes `Chargedback`. Always succeeds.
pub open spec fn spec_tx_chargeback(t: Transaction, a: Account) -> (Transaction, Account) {
    (
        Transaction {
            client_id: t.client_id,
            amount: t.amount,
            state: TransactionState::Chargedback,
            operation: t.operation,
        },
        spec_chargeback(a, t.amount),
    )
}

impl Transaction {
    /// A fresh transaction in the `Undisputed` state.
    pub fn new(client_id: ClientId, amount: Amount, operation: Operation) -> (r: Self)
        ensures
            r == (Transaction { client_id, amount, state: TransactionState::Undisputed, operation }),
    {
        Self { amount, client_id, operation, state: TransactionState::Undisputed }
    }

    /// The kind of operation.
    pub fn operation(&self) -> (r: Operation)
        ensures
            r == self.operation,
    {
        self.operation
    }

    /// The operation's amount.
    pub fn amount(&self) -> (r: Amount)
        ensures
            r == self.amount,
    {
        self.amount
    }

    /// The client the operation belongs to.
    pub fn client_id(&self) -> (r: ClientId)
        ensures
            r == self.client_id,
    {
        self.client_id
    }

    /// Where the transaction stands in its dispute lifecycle.
    pub fn state(&self) -> (r: TransactionState)
        ensures
            r == self.state,
    {
        self.state
    }

    /// Puts this transaction's amount under hold on `account` and, if the
    /// account accepts, advances the state to `Disputed`; see
    /// [`spec_tx_dispute`]. On failure neither the transaction nor the
    /// account changes.
    pub fn dispute(&mut self, account: &mut Account) -> (r: TransactionResult)
        ensures
            *final(self) == spec_tx_dispute(*old(self), *old(account)).0,
            *final(account) == spec_tx_dispute(*old(self), *old(account)).1,
            r == spec_tx_dispute(*old(self), *old(account)).2,
    {
        match account.dispute(self.amount) {
            Ok(()) => {
                self.state = TransactionState::Disputed;
                Ok(())
            },
            Err(err) => Err(TransactionError::AccountError(self.client_id, err)),
        }
    }

    /// Releases this transaction's amount from hold on `account` and, if
    /// the account accepts, returns the state to `Ok`; see
    /// [`spec_tx_resolve`]. On failure neither the transaction nor the
    /// account changes.
    pub fn resolve(&mut self, account: &mut Account) -> (r: TransactionResult)
        ensures
            *final(self) == spec_tx_resolve(*old(self), *old(account)).0,
            *final(account) == spec_tx_resolve(*old(self), *old(account)).1,
            r == spec_tx_resolve(*old(self), *old(account)).2,
    {
        match account.resolve(self.amount) {
            Ok(()) => {
                self.state = TransactionState::Undisputed;
                Ok(())
            },
            Err(err) => Err(TransactionError::AccountError(self.client_id, err)),
        }
    }

    /// Removes this transaction's amount from the account's hold, locks the
    /// account, and marks the transaction `Chargedback`; see
    /// [`spec_tx_chargeback`]. The caller must know the amount is present
    /// in `held` — the ledger does, for any disputed transaction.
    pub fn chargeback(&mut self, account: &mut Account) -> (r: TransactionResult)
        requires
            crate::account::fits_amount(old(account).held@ - old(self).amount@),
        ensures
            *final(self) == spec_tx_chargeback(*old(self), *old(account)).0,
            *final(account) == spec_tx_chargeback(*old(self), *old(account)).1,
            r == Ok::<(), TransactionError>(()),
    {
        account.chargeback(self.amount);
        self.state = TransactionState::Chargedback;
        Ok(())
    }

    /// Decides whether `self` (the requesting transaction) may run its
    /// dispute-family operation against `target` (the recorded transaction
    /// under `transaction_id`); see [`spec_check_valid_dispute`].
    pub fn check_valid_dispute(
        &self,
        transaction_id: TransactionId,
        target: &Transaction,
    ) -> (r: TransactionResult)
        ensures
            r == spec_check_valid_dispute(*self, transaction_id, *target),
    {
        if !matches!(target.operation, Operation::Deposit | Operation::Withdrawal) {
            return Err(TransactionError::AlreadyDisputed(transaction_id));
        }
        if self.client_id.0 != target.client_id.0 {
            return Err(
                TransactionError::MismatchedClientId(self.client_id, target.client_id),
            );
        }
        if matches!(self.operation, Operation::Dispute) {
            if !matches!(target.state, TransactionState::Undisputed) {
                return Err(TransactionError::AlreadyDisputed(transaction_id));
            }
        } else if !matches!(target.state, TransactionState::Disputed) {
            return Err(TransactionError::UndisputedTransaction(transaction_id));
        }
        Ok(())
    }
}

} // verus!
