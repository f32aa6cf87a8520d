//! The ledger: the single validated entry point over all accounts and
//! recorded transactions.
//!
//! A [`Ledger`] owns the map of accounts and the map of disputable
//! transactions, and arbitrates every mutation through
//! [`Ledger::apply_transaction`]. Its exact behaviour on every input is the
//! spec-level transition function [`spec_apply`]; every error return leaves
//! the visible state unchanged.
//!
//! The ledger's well-formedness ([`Ledger::wf`]) carries the engine's
//! central invariant: for every account, `held` equals the sum of the
//! amounts of that client's transactions currently under dispute
//! ([`held_sum`]). That is what guarantees a chargeback always finds its
//! amount present in `held`.

use crate::account::{empty_account, spec_deposit, spec_withdraw, Account, ClientId};
use crate::transactions::{
    spec_check_valid_dispute, spec_tx_chargeback, spec_tx_dispute, spec_tx_resolve, Operation,
    Transaction, TransactionError, TransactionId, TransactionResult, TransactionState,
};
use std::collections::HashMap;
use vstd::prelude::*;

verus! {

broadcast use vstd::std_specs::hash::group_hash_axioms;

/// The ledger's visible state: one account per client ever seen, and the
/// record of every successful deposit or withdrawal.
#[verifier::ext_equal]
pub struct LedgerView {
    /// One account per client id, created lazily, never removed.
    pub accounts: Map<u16, Account>,
    /// One record per consumed transaction id; holds only deposits and
    /// withdrawals, never dispute-family requests.
    pub transactions: Map<u32, Transaction>,
}

/// The contribution of one recorded transaction to the funds held for
/// client `c`: its amount while it is under dispute and belongs to `c`,
/// zero otherwise.
pub open spec fn hold_of(t: Transaction, c: u16) -> int {
    if t.client_id.0 == c && t.state is Disputed {
        t.amount@
    } else {
        0
    }
}

/// The total amount under dispute for client `c`: the sum of
/// [`hold_of`] over the recorded transaction ids `ids`, each looked up in
/// `txs`.
pub open spec fn held_sum(ids: Seq<u32>, txs: Map<u32, Transaction>, c: u16) -> int
    decreases ids.len(),
{
    if ids.len() == 0 {
        0
    } else {
        held_sum(ids.drop_last(), txs, c) + hold_of(txs[ids.last()], c)
    }
}

/// A recorded transaction is valid for a ledger view: its client has an
/// account, its amount is non-negative (the entry point rejects negative
/// amounts), and it is a disputable kind.
pub open spec fn tx_valid(t: Transaction, l: LedgerView) -> bool {
    &&& l.accounts.contains_key(t.client_id.0)
    &&& t.amount@ >= 0
    &&& (t.operation is Deposit || t.operation is Withdrawal)
}

/// How `t` is recorded by a successful deposit or withdrawal: fresh, in the
/// `Undisputed` state.
pub open spec fn recorded(t: Transaction) -> Transaction {
    Transaction {
        client_id: t.client_id,
        amount: t.amount,
        state: TransactionState::Undisputed,
        operation: t.operation,
    }
}

/// What applying a deposit or withdrawal does. The id must be unused
/// (`RepeatedTransactionId`); the account is looked up or starts empty; the
/// account mutation runs; only on success are the new account and the fresh
/// record written back — a failed deposit or withdrawal consumes no id and
/// creates no account.
pub open spec fn spec_apply_record(l: LedgerView, id: TransactionId, t: Transaction) -> (
    LedgerView,
    TransactionResult,
) {
    if l.transactions.contains_key(id.0) {
        (l, Err(TransactionError::RepeatedTransactionId(id)))
    } else {
        let a0 = if l.accounts.contains_key(t.client_id.0) {
            l.accounts[t.client_id.0]
        } else {
            empty_account()
        };
        let step = if t.operation is Deposit {
            spec_deposit(a0, t.amount)
        } else {
            spec_withdraw(a0, t.amount)
        };
        match step.1 {
            Ok(()) => (
                LedgerView {
                    accounts: l.accounts.insert(t.client_id.0, step.0),
                    transactions: l.transactions.insert(id.0, recorded(t)),
                },
                Ok(()),
            ),
            Err(e) => (l, Err(TransactionError::AccountError(t.client_id, e))),
        }
    }
}

/// What applying a dispute, resolve or chargeback does. The referenced
/// transaction must exist (`UnknownTransactionId`), the requesting client
/// must have an account (`UnknownClientId`), and the request must pass
/// [`spec_check_valid_dispute`]; then the transaction transition runs
/// against the account, and only on success are both written back.
pub open spec fn spec_apply_dispute_family(l: LedgerView, id: TransactionId, t: Transaction) -> (
    LedgerView,
    TransactionResult,
) {
    if !l.transactions.contains_key(id.0) {
        (l, Err(TransactionError::UnknownTransactionId(id)))
    } else if !l.accounts.contains_key(t.client_id.0) {
        (l, Err(TransactionError::UnknownClientId(t.client_id)))
    } else {
        let target = l.transactions[id.0];
        let acct = l.accounts[t.client_id.0];
        match spec_check_valid_dispute(t, id, target) {
            Err(e) => (l, Err(e)),
            Ok(()) => {
                let step = if t.operation is Dispute {
                    spec_tx_dispute(target, acct)
                } else if t.operation is Resolve {
                    spec_tx_resolve(target, acct)
                } else {
                    let (t2, a2) = spec_tx_chargeback(target, acct);
                    (t2, a2, Ok(()))
                };
                match step.2 {
                    Ok(()) => (
                        LedgerView {
                            accounts: l.accounts.insert(t.client_id.0, step.1),
                            transactions: l.transactions.insert(id.0, step.0),
                        },
                        Ok(()),
                    ),
                    Err(e) => (l, Err(e)),
                }
            },
        }
    }
}

/// What [`Ledger::apply_transaction`] does on every input: a negative
/// amount is rejected up front (`InvalidAmount`); a deposit or withdrawal
/// goes through [`spec_apply_record`]; a dispute, resolve or chargeback
/// goes through [`spec_apply_dispute_family`]. Every error leaves the
/// ledger unchanged.
pub open spec fn spec_apply(l: LedgerView, id: TransactionId, t: Transaction) -> (
    LedgerView,
    TransactionResult,
) {
    if t.amount@ < 0 {
        (l, Err(TransactionError::InvalidAmount(id, t.amount)))
    } else {
        match t.operation {
            Operation::Deposit => spec_apply_record(l, id, t),
            Operation::Withdrawal => spec_apply_record(l, id, t),
            _ => spec_apply_dispute_family(l, id, t),
        }
    }
}

/// The ledger engine: accounts, recorded transactions, and the order in
/// which clients and transaction ids were first seen.
pub struct Ledger {
    /// One account per client id ever seen.
    pub accounts: HashMap<u16, Account>,
    /// One record per consumed transaction id (deposits and withdrawals).
    pub transactions: HashMap<u32, Transaction>,
    /// Client ids in first-seen order; mirrors the keys of `accounts`.
    pub client_order: Vec<u16>,
    /// Recorded transaction ids in insertion order; mirrors the keys of
    /// `transactions`. Ghost: only the held-sum invariant needs it.
    pub tx_order: Ghost<Seq<u32>>,
}

impl View for Ledger {
    type V = LedgerView;

    open spec fn view(&self) -> LedgerView {
        LedgerView { accounts: self.accounts@, transactions: self.transactions@ }
    }
}

impl Ledger {
    /// Well-formedness: the two orders list exactly the map keys, once
    /// each; every recorded transaction is valid; and every account's
    /// `held` is exactly the sum of its client's disputed amounts.
    pub open spec fn wf(self) -> bool {
        &&& self.tx_order@.no_duplicates()
        &&& forall|id: u32| #![auto]
            self.transactions@.contains_key(id) <==> self.tx_order@.contains(id)
        &&& forall|id: u32| #[trigger]
            self.transactions@.contains_key(id) ==> tx_valid(self.transactions@[id], self@)
        &&& self.client_order@.no_duplicates()
        &&& forall|c: u16| #![auto]
            self.accounts@.contains_key(c) <==> self.client_order@.contains(c)
        &&& forall|c: u16| #[trigger]
            self.accounts@.contains_key(c) ==> self.accounts@[c].held@ == held_sum(
                self.tx_order@,
                self.transactions@,
                c,
            )
    }

    /// An empty ledger: no accounts, no recorded transactions.
    pub fn new() -> (r: Ledger)
        ensures
            r.wf(),
            r@.accounts == Map::<u16, Account>::empty(),
            r@.transactions == Map::<u32, Transaction>::empty(),
            r.client_order@ == Seq::<u16>::empty(),
    {
        let r = Ledger {
            accounts: HashMap::new(),
            transactions: HashMap::new(),
            client_order: Vec::new(),
            tx_order: Ghost(Seq::empty()),
        };
        r
    }

    /// The account for `client_id`, if one has been created.
    pub fn get_account(&self, client_id: ClientId) -> (r: Option<Account>)
        ensures
            r matches Some(a) ==> self@.accounts.contains_key(client_id.0) && a
                == self@.accounts[client_id.0],
            r is None <==> !self@.accounts.contains_key(client_id.0),
    {
        match self.accounts.get(&client_id.0) {
            Some(a) => Some(*a),
            None => None,
        }
    }

    /// The recorded transaction under `transaction_id`, if any.
    pub fn get_transaction(&self, transaction_id: TransactionId) -> (r: Option<Transaction>)
        ensures
            r matches Some(t) ==> self@.transactions.contains_key(transaction_id.0) && t
                == self@.transactions[transaction_id.0],
            r is None <==> !self@.transactions.contains_key(transaction_id.0),
    {
        match self.transactions.get(&transaction_id.0) {
            Some(t) => Some(*t),
            None => None,
        }
    }

    /// How many accounts exist.
    pub fn account_count(&self) -> (r: usize)
        ensures
            r == self@.accounts.len(),
    {
        self.accounts.len()
    }

    /// How many transaction ids have been consumed.
    pub fn transaction_count(&self) -> (r: usize)
        ensures
            r == self@.transactions.len(),
    {
        self.transactions.len()
    }

    /// The client ids with an account, in first-seen order, each once.
    /// Callers wanting another order must sort for themselves.
    pub fn client_ids(&self) -> (r: &Vec<u16>)
        ensures
            r@ == self.client_order@,
    {
        &self.client_order
    }

    /// Copies of the recorded transaction and the client's account for a
    /// dispute-family request: the transaction must exist
    /// (`UnknownTransactionId`, checked first), then the account
    /// (`UnknownClientId`).
    pub fn get_transaction_and_account(
        &self,
        transaction_id: TransactionId,
        client_id: ClientId,
    ) -> (r: Result<(Transaction, Account), TransactionError>)
        ensures
            r is Ok <==> self@.transactions.contains_key(transaction_id.0)
                && self@.accounts.contains_key(client_id.0),
            r matches Ok(p) ==> {
                &&& p.0 == self@.transactions[transaction_id.0]
                &&& p.1 == self@.accounts[client_id.0]
            },
            !self@.transactions.contains_key(transaction_id.0) <==> r == Err::<
                (Transaction, Account),
                _,
            >(TransactionError::UnknownTransactionId(transaction_id)),
            self@.transactions.contains_key(transaction_id.0) && !self@.accounts.contains_key(
                client_id.0,
            ) <==> r == Err::<(Transaction, Account), _>(
                TransactionError::UnknownClientId(client_id),
            ),
    {
        let target = match self.transactions.get(&transaction_id.0) {
            Some(t) => *t,
            None => {
                return Err(TransactionError::UnknownTransactionId(transaction_id));
            },
        };
        let account = match self.accounts.get(&client_id.0) {
            Some(a) => *a,
            None => {
                return Err(TransactionError::UnknownClientId(client_id));
            },
        };
        Ok((target, account))
    }

    /// The account for `client_id`, created empty first if none exists.
    /// Never touches the recorded transactions or an existing account.
    pub fn get_or_insert_account(&mut self, client_id: ClientId) -> (r: Account)
        requires
            old(self).wf(),
        ensures
            final(self).wf(),
            final(self)@.transactions == old(self)@.transactions,
            r == if old(self)@.accounts.contains_key(client_id.0) {
                old(self)@.accounts[client_id.0]
            } else {
                empty_account()
            },
            final(self)@.accounts == if old(self)@.accounts.contains_key(client_id.0) {
                old(self)@.accounts
            } else {
                old(self)@.accounts.insert(client_id.0, empty_account())
            },
    {
        match self.accounts.get(&client_id.0) {
            Some(a) => *a,
            None => {
                let a = Account::default();
                self.accounts.insert(client_id.0, a);
                self.client_order.push(client_id.0);
                proof {
                    self.lemma_wf_after_fresh_account(*old(self), client_id.0);
                }
                a
            },
        }
    }

    /// Applies one transaction: the single validated entry point. The exact
    /// outcome on every input is [`spec_apply`]; every error leaves the
    /// visible state unchanged.
    pub fn apply_transaction(&mut self, transaction_id: TransactionId, transaction: &Transaction)
        -> (r: TransactionResult)
        requires
            old(self).wf(),
        ensures
            final(self).wf(),
            final(self)@ == spec_apply(old(self)@, transaction_id, *transaction).0,
            r == spec_apply(old(self)@, transaction_id, *transaction).1,
    {
        if transaction.amount().is_negative() {
            return Err(TransactionError::InvalidAmount(transaction_id, transaction.amount()));
        }
        match transaction.operation() {
            Operation::Deposit => self.apply_record(transaction_id, transaction),
            Operation::Withdrawal => self.apply_record(transaction_id, transaction),
            _ => self.apply_dispute_family(transaction_id, transaction),
        }
    }

    /// The deposit/withdrawal half of [`Ledger::apply_transaction`].
    fn apply_record(&mut self, transaction_id: TransactionId, transaction: &Transaction) -> (r:
        TransactionResult)
        requires
            old(self).wf(),
            transaction.amount@ >= 0,
            transaction.operation is Deposit || transaction.operation is Withdrawal,
        ensures
            final(self).wf(),
            final(self)@ == spec_apply_record(old(self)@, transaction_id, *transaction).0,
            r == spec_apply_record(old(self)@, transaction_id, *transaction).1,
    {
        if self.transactions.contains_key(&transaction_id.0) {
            return Err(TransactionError::RepeatedTransactionId(transaction_id));
        }
        let client_key = transaction.client_id().0;
        let fresh: bool;
        let mut account: Account;
        match self.accounts.get(&client_key) {
            Some(a) => {
                account = *a;
                fresh = false;
            },
            None => {
                account = Account::default();
                fresh = true;
            },
        }
        let res = match transaction.operation() {
            Operation::Deposit => account.deposit(transaction.amount()),
            _ => account.withdraw(transaction.amount()),
        };
        match res {
            Ok(()) => {
                let rec = Transaction::new(
                    transaction.client_id(),
                    transaction.amount(),
                    transaction.operation(),
                );
                self.transactions.insert(transaction_id.0, rec);
                self.accounts.insert(client_key, account);
                if fresh {
                    self.client_order.push(client_key);
                }
                proof {
                    self.tx_order@ = old(self).tx_order@.push(transaction_id.0);
                }
                proof {
                    self.lemma_wf_after_record(*old(self), transaction_id.0, rec, fresh);
                }
                Ok(())
            },
            Err(e) => Err(TransactionError::AccountError(transaction.client_id(), e)),
        }
    }

    /// The dispute/resolve/chargeback half of
    /// [`Ledger::apply_transaction`].
    fn apply_dispute_family(&mut self, transaction_id: TransactionId, transaction: &Transaction)
        -> (r: TransactionResult)
        requires
            old(self).wf(),
            transaction.operation is Dispute || transaction.operation is Resolve
                || transaction.operation is Chargeback,
        ensures
            final(self).wf(),
            final(self)@ == spec_apply_dispute_family(old(self)@, transaction_id, *transaction).0,
            r == spec_apply_dispute_family(old(self)@, transaction_id, *transaction).1,
    {
        let mut target: Transaction;
        let mut account: Account;
        match self.get_transaction_and_account(transaction_id, transaction.client_id()) {
            Ok(pair) => {
                target = pair.0;
                account = pair.1;
            },
            Err(e) => {
                return Err(e);
            },
        }
        match transaction.check_valid_dispute(transaction_id, &target) {
            Ok(()) => {},
            Err(e) => {
                return Err(e);
            },
        }
        let res = match transaction.operation() {
            Operation::Dispute => target.dispute(&mut account),
            Operation::Resolve => target.resolve(&mut account),
            _ => {
                proof {
                    old(self).lemma_disputed_amount_within_held(
                        transaction_id.0,
                        transaction.client_id.0,
                    );
                }
                target.chargeback(&mut account)
            },
        };
        match res {
            Ok(()) => {
                self.transactions.insert(transaction_id.0, target);
                self.accounts.insert(transaction.client_id().0, account);
                proof {
                    self.lemma_wf_after_tx_update(
                        *old(self),
                        transaction_id.0,
                        target,
                        account,
                    );
                }
                Ok(())
            },
            Err(e) => Err(e),
        }
    }

    /// A fresh client's account may be inserted empty: no recorded
    /// transaction names a client without an account, so its held sum is
    /// zero, and well-formedness is preserved.
    proof fn lemma_wf_after_fresh_account(&self, pre: Ledger, c: u16)
        requires
            pre.wf(),
            !pre.accounts@.contains_key(c),
            self.accounts@ == pre.accounts@.insert(c, empty_account()),
            self.transactions@ == pre.transactions@,
            self.client_order@ == pre.client_order@.push(c),
            self.tx_order@ == pre.tx_order@,
        ensures
            self.wf(),
    {
        assert(!pre.client_order@.contains(c));
        lemma_push_contains(pre.client_order@, c);
        lemma_push_no_duplicates(pre.client_order@, c);
        lemma_order_ids_recorded(pre);
        lemma_held_sum_absent(pre.tx_order@, pre.transactions@, c, pre@);
        assert forall|id: u32| self.transactions@.contains_key(id) implies tx_valid(
            self.transactions@[id],
            self@,
        ) by {
            assert(tx_valid(pre.transactions@[id], pre@));
        }
    }

    /// Recording a fresh deposit or withdrawal preserves well-formedness:
    /// the new record is undisputed, so no client's held sum changes, and
    /// the mutated account's `held` was untouched.
    proof fn lemma_wf_after_record(&self, pre: Ledger, id: u32, rec: Transaction, fresh: bool)
        requires
            pre.wf(),
            !pre.transactions@.contains_key(id),
            rec.state is Undisputed,
            rec.amount@ >= 0,
            rec.operation is Deposit || rec.operation is Withdrawal,
            self.transactions@ == pre.transactions@.insert(id, rec),
            self.tx_order@ == pre.tx_order@.push(id),
            self.accounts@ == pre.accounts@.insert(rec.client_id.0, self.accounts@[rec.client_id.0]),
            self.accounts@.contains_key(rec.client_id.0),
            self.accounts@[rec.client_id.0].held == (if pre.accounts@.contains_key(rec.client_id.0) {
                pre.accounts@[rec.client_id.0].held
            } else {
                empty_account().held
            }),
            fresh == !pre.accounts@.contains_key(rec.client_id.0),
            self.client_order@ == (if fresh {
                pre.client_order@.push(rec.client_id.0)
            } else {
                pre.client_order@
            }),
        ensures
            self.wf(),
    {
        let c = rec.client_id.0;
        assert(!pre.tx_order@.contains(id));
        lemma_push_contains(pre.tx_order@, id);
        lemma_push_no_duplicates(pre.tx_order@, id);
        if fresh {
            assert(!pre.client_order@.contains(c));
            lemma_push_contains(pre.client_order@, c);
            lemma_push_no_duplicates(pre.client_order@, c);
        }
        assert forall|id2: u32| self.transactions@.contains_key(id2) implies tx_valid(
            self.transactions@[id2],
            self@,
        ) by {
            if id2 != id {
                assert(tx_valid(pre.transactions@[id2], pre@));
            }
        }
        assert forall|c2: u16| self.accounts@.contains_key(c2) implies self.accounts@[c2].held@
            == held_sum(self.tx_order@, self.transactions@, c2) by {
            lemma_held_sum_insert_new(pre.tx_order@, pre.transactions@, c2, id, rec);
            assert(hold_of(rec, c2) == 0);
            if c2 == c {
                if fresh {
                    lemma_order_ids_recorded(pre);
                    lemma_held_sum_absent(pre.tx_order@, pre.transactions@, c2, pre@);
                }
            } else {
                assert(pre.accounts@.contains_key(c2));
            }
        }
    }

    /// A disputed transaction's amount never exceeds its client's `held`:
    /// `held` is the sum of all of the client's disputed amounts, each
    /// non-negative, and this transaction is one of them.
    proof fn lemma_disputed_amount_within_held(&self, id: u32, c: u16)
        requires
            self.wf(),
            self.transactions@.contains_key(id),
            self.transactions@[id].state is Disputed,
            self.transactions@[id].client_id.0 == c,
            self.accounts@.contains_key(c),
        ensures
            0 <= self.transactions@[id].amount@ <= self.accounts@[c].held@,
    {
        lemma_order_ids_recorded(*self);
        assert forall|id2: u32| #[trigger] self.transactions@.contains_key(id2)
            implies self.transactions@[id2].amount@ >= 0 by {
            assert(tx_valid(self.transactions@[id2], self@));
        }
        lemma_held_sum_member(self.tx_order@, self.transactions@, c, id);
    }

    /// Updating one recorded transaction together with its client's account
    /// preserves well-formedness, for each of the three dispute-family
    /// transitions: the change in the client's held sum is exactly the
    /// change the transition made to the account's `held`.
    proof fn lemma_wf_after_tx_update(
        &self,
        pre: Ledger,
        id: u32,
        t2: Transaction,
        a2: Account,
    )
        requires
            pre.wf(),
            pre.transactions@.contains_key(id),
            pre.accounts@.contains_key(t2.client_id.0),
            t2.client_id == pre.transactions@[id].client_id,
            t2.amount == pre.transactions@[id].amount,
            t2.operation == pre.transactions@[id].operation,
            a2.held@ == pre.accounts@[t2.client_id.0].held@ - hold_of(
                pre.transactions@[id],
                t2.client_id.0,
            ) + hold_of(t2, t2.client_id.0),
            self.transactions@ == pre.transactions@.insert(id, t2),
            self.accounts@ == pre.accounts@.insert(t2.client_id.0, a2),
            self.tx_order@ == pre.tx_order@,
            self.client_order@ == pre.client_order@,
        ensures
            self.wf(),
    {
        let c = t2.client_id.0;
        assert forall|id2: u32| #![auto]
            self.transactions@.contains_key(id2) <==> self.tx_order@.contains(id2) by {
            assert(pre.transactions@.contains_key(id2) <==> pre.tx_order@.contains(id2));
        }
        assert forall|id2: u32| self.transactions@.contains_key(id2) implies tx_valid(
            self.transactions@[id2],
            self@,
        ) by {
            assert(tx_valid(pre.transactions@[id2], pre@));
        }
        assert forall|c2: u16| self.accounts@.contains_key(c2) implies self.accounts@[c2].held@
            == held_sum(self.tx_order@, self.transactions@, c2) by {
            assert(pre.tx_order@.contains(id));
            lemma_held_sum_update(pre.tx_order@, pre.transactions@, c2, id, t2);
            if c2 != c {
                assert(hold_of(pre.transactions@[id], c2) == 0);
                assert(hold_of(t2, c2) == 0);
            }
        }
    }
}

impl Default for Ledger {
    /// An empty ledger, as [`Ledger::new`] builds it.
    fn default() -> (r: Ledger)
        ensures
            r.wf(),
            r@.accounts == Map::<u16, Account>::empty(),
            r@.transactions == Map::<u32, Transaction>::empty(),
    {
        Ledger::new()
    }
}

/// Every id listed in a well-formed ledger's transaction order has a
/// record.
proof fn lemma_order_ids_recorded(l: Ledger)
    requires
        l.wf(),
    ensures
        forall|i: int| #![trigger l.tx_order@[i]] 0 <= i < l.tx_order@.len()
            ==> l.transactions@.contains_key(l.tx_order@[i]),
{
    assert forall|i: int| #![trigger l.tx_order@[i]] 0 <= i < l.tx_order@.len()
        implies l.transactions@.contains_key(l.tx_order@[i]) by {
        assert(l.tx_order@.contains(l.tx_order@[i]));
    }
}

/// Pushing an element makes a sequence contain exactly what it contained
/// before, plus that element.
proof fn lemma_push_contains<A>(s: Seq<A>, x: A)
    ensures
        forall|y: A| #[trigger] s.push(x).contains(y) <==> (s.contains(y) || y == x),
{
    assert forall|y: A| #[trigger] s.push(x).contains(y) implies (s.contains(y) || y == x) by {
        let i = choose|i: int| 0 <= i < s.push(x).len() && s.push(x)[i] == y;
        if i < s.len() {
            assert(s[i] == y);
        }
    }
    assert forall|y: A| (s.contains(y) || y == x) implies #[trigger] s.push(x).contains(y) by {
        if s.contains(y) {
            let i = choose|i: int| 0 <= i < s.len() && s[i] == y;
            assert(s.push(x)[i] == y);
        } else {
            assert(s.push(x)[s.len() as int] == y);
        }
    }
}

/// Pushing an element a sequence does not contain keeps it free of
/// duplicates.
proof fn lemma_push_no_duplicates<A>(s: Seq<A>, x: A)
    requires
        s.no_duplicates(),
        !s.contains(x),
    ensures
        s.push(x).no_duplicates(),
{
    assert forall|i: int, j: int|
        0 <= i < s.push(x).len() && 0 <= j < s.push(x).len() && i != j implies s.push(x)[i]
        != s.push(x)[j] by {
        if i < s.len() && j < s.len() {
            assert(s[i] == s.push(x)[i]);
            assert(s[j] == s.push(x)[j]);
        } else if i < s.len() {
            assert(s.contains(s[i]));
        } else if j < s.len() {
            assert(s.contains(s[j]));
        }
    }
}

/// Two transaction maps that agree on every id in `ids` give the same held
/// sum.
proof fn lemma_held_sum_congruent(
    ids: Seq<u32>,
    txs1: Map<u32, Transaction>,
    txs2: Map<u32, Transaction>,
    c: u16,
)
    requires
        forall|i: int| #![trigger ids[i]] 0 <= i < ids.len() ==> txs1[ids[i]] == txs2[ids[i]],
    ensures
        held_sum(ids, txs1, c) == held_sum(ids, txs2, c),
    decreases ids.len(),
{
    if ids.len() > 0 {
        lemma_held_sum_congruent(ids.drop_last(), txs1, txs2, c);
        assert(txs1[ids.last()] == txs2[ids.last()]);
    }
}

/// Appending an id adds exactly its contribution to the held sum.
proof fn lemma_held_sum_push(ids: Seq<u32>, txs: Map<u32, Transaction>, c: u16, id: u32)
    ensures
        held_sum(ids.push(id), txs, c) == held_sum(ids, txs, c) + hold_of(txs[id], c),
{
    assert(ids.push(id).drop_last() =~= ids);
    assert(ids.push(id).last() == id);
}

/// Recording a fresh id changes the held sum by exactly the new record's
/// contribution.
proof fn lemma_held_sum_insert_new(
    ids: Seq<u32>,
    txs: Map<u32, Transaction>,
    c: u16,
    id: u32,
    t: Transaction,
)
    requires
        !ids.contains(id),
    ensures
        held_sum(ids.push(id), txs.insert(id, t), c) == held_sum(ids, txs, c) + hold_of(t, c),
{
    lemma_held_sum_push(ids, txs.insert(id, t), c, id);
    assert forall|i: int| #![trigger ids[i]] 0 <= i < ids.len() implies txs.insert(id, t)[ids[i]]
        == txs[ids[i]] by {
        assert(ids.contains(ids[i]));
    }
    lemma_held_sum_congruent(ids, txs.insert(id, t), txs, c);
}

/// Replacing the record under one listed id changes the held sum by
/// exactly the difference of the old and new contributions.
proof fn lemma_held_sum_update(
    ids: Seq<u32>,
    txs: Map<u32, Transaction>,
    c: u16,
    id: u32,
    t2: Transaction,
)
    requires
        ids.no_duplicates(),
        ids.contains(id),
    ensures
        held_sum(ids, txs.insert(id, t2), c) == held_sum(ids, txs, c) - hold_of(txs[id], c)
            + hold_of(t2, c),
    decreases ids.len(),
{
    let rest = ids.drop_last();
    if ids.last() == id {
        assert forall|i: int| #![trigger rest[i]] 0 <= i < rest.len() implies txs.insert(id, t2)[rest[i]]
            == txs[rest[i]] by {
            assert(ids[i] == rest[i]);
            assert(ids.contains(ids[i]));
        }
        lemma_held_sum_congruent(rest, txs.insert(id, t2), txs, c);
    } else {
        let k = choose|k: int| 0 <= k < ids.len() && ids[k] == id;
        assert(rest[k] == id);
        assert(rest.contains(id));
        lemma_held_sum_update(rest, txs, c, id, t2);
    }
}

/// Every listed contribution for `c` is non-negative in a well-formed
/// ledger, so the held sum dominates each one; in particular a disputed
/// transaction's amount never exceeds it.
proof fn lemma_held_sum_member(ids: Seq<u32>, txs: Map<u32, Transaction>, c: u16, id: u32)
    requires
        ids.no_duplicates(),
        forall|i: int| #![trigger ids[i]] 0 <= i < ids.len() ==> txs.contains_key(ids[i]),
        forall|id2: u32| #[trigger] txs.contains_key(id2) ==> txs[id2].amount@ >= 0,
        ids.contains(id),
        txs[id].client_id.0 == c,
        txs[id].state is Disputed,
    ensures
        held_sum(ids, txs, c) >= txs[id].amount@,
    decreases ids.len(),
{
    let rest = ids.drop_last();
    if ids.last() == id {
        lemma_held_sum_nonneg(rest, txs, c);
    } else {
        let k = choose|k: int| 0 <= k < ids.len() && ids[k] == id;
        assert(rest[k] == id);
        assert(rest.contains(id));
        lemma_held_sum_member(rest, txs, c, id);
        assert(txs.contains_key(ids.last()));
        assert(hold_of(txs[ids.last()], c) >= 0);
    }
}

/// A held sum over non-negative contributions is non-negative.
proof fn lemma_held_sum_nonneg(ids: Seq<u32>, txs: Map<u32, Transaction>, c: u16)
    requires
        forall|i: int| #![trigger ids[i]] 0 <= i < ids.len() ==> txs.contains_key(ids[i]),
        forall|id2: u32| #[trigger] txs.contains_key(id2) ==> txs[id2].amount@ >= 0,
    ensures
        held_sum(ids, txs, c) >= 0,
    decreases ids.len(),
{
    if ids.len() > 0 {
        lemma_held_sum_nonneg(ids.drop_last(), txs, c);
        assert(txs.contains_key(ids.last()));
    }
}

/// A client with no account has nothing recorded against it, so its held
/// sum is zero.
proof fn lemma_held_sum_absent(ids: Seq<u32>, txs: Map<u32, Transaction>, c: u16, l: LedgerView)
    requires
        forall|i: int| #![trigger ids[i]] 0 <= i < ids.len() ==> txs.contains_key(ids[i]),
        forall|id2: u32| #[trigger] txs.contains_key(id2) ==> tx_valid(txs[id2], l),
        !l.accounts.contains_key(c),
    ensures
        held_sum(ids, txs, c) == 0,
    decreases ids.len(),
{
    if ids.len() > 0 {
        lemma_held_sum_absent(ids.drop_last(), txs, c, l);
        assert(txs.contains_key(ids.last()));
        assert(txs[ids.last()].client_id.0 != c);
    }
}

} // verus!
