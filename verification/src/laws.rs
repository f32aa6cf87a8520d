//! Laws of the ledger: properties relating several applications of
//! [`spec_apply`], the exact transition that
//! [`crate::ledger::Ledger::apply_transaction`] performs.

use crate::account::AccountError;
use crate::ledger::{spec_apply, LedgerView};
use crate::transactions::{Transaction, TransactionError, TransactionId};
use vstd::prelude::*;

verus! {

/// Transaction ids are write-once. After any successful deposit or
/// withdrawal under an id, a second deposit or withdrawal under the same id
/// is rejected with `RepeatedTransactionId`, and the ledger — balances
/// included — stays exactly as the first application left it.
pub proof fn lemma_repeated_id_rejected(
    l: LedgerView,
    id: TransactionId,
    first: Transaction,
    second: Transaction,
)
    requires
        first.operation is Deposit || first.operation is Withdrawal,
        second.operation is Deposit || second.operation is Withdrawal,
        second.amount@ >= 0,
        spec_apply(l, id, first).1 is Ok,
    ensures
        spec_apply(spec_apply(l, id, first).0, id, second).1 == Err::<(), TransactionError>(
            TransactionError::RepeatedTransactionId(id),
        ),
        spec_apply(spec_apply(l, id, first).0, id, second).0 == spec_apply(l, id, first).0,
{
}

/// Dispute conservation, first half: after a successful deposit whose
/// record is then successfully disputed, `available` has decreased and
/// `held` has increased by exactly the deposited amount, and the record
/// stands `Disputed`. The lock is untouched.
pub proof fn lemma_dispute_conservation(
    l: LedgerView,
    id: TransactionId,
    deposit: Transaction,
    dispute: Transaction,
)
    requires
        deposit.operation is Deposit,
        dispute.operation is Dispute,
        dispute.client_id == deposit.client_id,
        dispute.amount@ >= 0,
        spec_apply(l, id, deposit).1 is Ok,
        spec_apply(spec_apply(l, id, deposit).0, id, dispute).1 is Ok,
    ensures
        ({
            let l1 = spec_apply(l, id, deposit).0;
            let l2 = spec_apply(l1, id, dispute).0;
            let c = deposit.client_id.0;
            &&& l2.accounts[c].available@ == l1.accounts[c].available@ - deposit.amount@
            &&& l2.accounts[c].held@ == l1.accounts[c].held@ + deposit.amount@
            &&& l2.accounts[c].locked == l1.accounts[c].locked
            &&& l2.transactions[id.0].state is Disputed
        }),
{
}

/// Dispute conservation, resolve half: a successful dispute followed by a
/// resolve of the same transaction cannot fail, and it returns the whole
/// ledger — balances, lock, dispute states — to exactly its pre-dispute
/// state.
pub proof fn lemma_resolve_restores(
    l1: LedgerView,
    id: TransactionId,
    dispute: Transaction,
    resolve: Transaction,
)
    requires
        dispute.operation is Dispute,
        resolve.operation is Resolve,
        resolve.client_id == dispute.client_id,
        dispute.amount@ >= 0,
        resolve.amount@ >= 0,
        spec_apply(l1, id, dispute).1 is Ok,
    ensures
        spec_apply(spec_apply(l1, id, dispute).0, id, resolve).1 is Ok,
        spec_apply(spec_apply(l1, id, dispute).0, id, resolve).0 == l1,
{
    let l2 = spec_apply(l1, id, dispute).0;
    let l3 = spec_apply(l2, id, resolve).0;
    let c = dispute.client_id.0;
    assert(l3.accounts =~= l1.accounts);
    assert(l3.transactions =~= l1.transactions);
    assert(l3 =~= l1);
}

/// Dispute conservation, chargeback half: a successful dispute followed by
/// a chargeback of the same transaction cannot fail; it removes exactly the
/// disputed amount from `held` (returning it to its pre-dispute value),
/// leaves `available` as the dispute left it, locks the account, and marks
/// the record `Chargedback`.
pub proof fn lemma_chargeback_settles(
    l1: LedgerView,
    id: TransactionId,
    dispute: Transaction,
    chargeback: Transaction,
)
    requires
        dispute.operation is Dispute,
        chargeback.operation is Chargeback,
        chargeback.client_id == dispute.client_id,
        dispute.amount@ >= 0,
        chargeback.amount@ >= 0,
        spec_apply(l1, id, dispute).1 is Ok,
    ensures
        spec_apply(spec_apply(l1, id, dispute).0, id, chargeback).1 is Ok,
        ({
            let l2 = spec_apply(l1, id, dispute).0;
            let l3 = spec_apply(l2, id, chargeback).0;
            let c = dispute.client_id.0;
            &&& l3.accounts[c].held == l1.accounts[c].held
            &&& l3.accounts[c].held@ == l2.accounts[c].held@ - l1.transactions[id.0].amount@
            &&& l3.accounts[c].available == l2.accounts[c].available
            &&& l3.accounts[c].locked
            &&& l3.transactions[id.0].state is Chargedback
        }),
{
}

/// A resolve or chargeback of a transaction that is not under dispute is
/// rejected with `UndisputedTransaction`, and the ledger — balances and
/// lock included — is unchanged. The request must otherwise be well formed:
/// a non-negative amount, naming a recorded deposit or withdrawal of its
/// own client.
pub proof fn lemma_undisputed_rejected(l: LedgerView, id: TransactionId, t: Transaction)
    requires
        t.operation is Resolve || t.operation is Chargeback,
        t.amount@ >= 0,
        l.transactions.contains_key(id.0),
        l.accounts.contains_key(t.client_id.0),
        l.transactions[id.0].operation is Deposit || l.transactions[id.0].operation is Withdrawal,
        l.transactions[id.0].client_id == t.client_id,
        !(l.transactions[id.0].state is Disputed),
    ensures
        spec_apply(l, id, t).1 == Err::<(), TransactionError>(
            TransactionError::UndisputedTransaction(id),
        ),
        spec_apply(l, id, t).0 == l,
{
}

/// A second dispute of an already-disputed transaction is rejected with
/// `AlreadyDisputed`, and the ledger stays exactly as the first dispute
/// left it.
pub proof fn lemma_double_dispute_rejected(
    l1: LedgerView,
    id: TransactionId,
    first: Transaction,
    second: Transaction,
)
    requires
        first.operation is Dispute,
        second.operation is Dispute,
        second.client_id == first.client_id,
        first.amount@ >= 0,
        second.amount@ >= 0,
        spec_apply(l1, id, first).1 is Ok,
    ensures
        spec_apply(spec_apply(l1, id, first).0, id, second).1 == Err::<(), TransactionError>(
            TransactionError::AlreadyDisputed(id),
        ),
        spec_apply(spec_apply(l1, id, first).0, id, second).0 == spec_apply(l1, id, first).0,
{
}

/// A locked account freezes future deposits and withdrawals: once `locked`
/// is true, any deposit or withdrawal for that client under a fresh id
/// fails with `FrozenAccount`, and the ledger — balances included — is
/// unchanged.
pub proof fn lemma_locked_rejects(l: LedgerView, id: TransactionId, t: Transaction)
    requires
        t.operation is Deposit || t.operation is Withdrawal,
        t.amount@ >= 0,
        !l.transactions.contains_key(id.0),
        l.accounts.contains_key(t.client_id.0),
        l.accounts[t.client_id.0].locked,
    ensures
        spec_apply(l, id, t).1 == Err::<(), TransactionError>(
            TransactionError::AccountError(
                t.client_id,
                AccountError::FrozenAccount(l.accounts[t.client_id.0]),
            ),
        ),
        spec_apply(l, id, t).0 == l,
{
}

} // verus!
