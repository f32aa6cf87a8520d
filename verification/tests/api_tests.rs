use crab::account::{Account, ClientId};
use crab::amount::Amount;
use crab::ledger::Ledger;
use crab::transactions::{Operation, Transaction, TransactionError, TransactionId};

#[test]
fn default_ledger_is_empty() {
    let ledger = Ledger::default();
    assert_eq!(ledger.account_count(), 0);
    assert_eq!(ledger.transaction_count(), 0);
    assert!(ledger.client_ids().is_empty());
    assert!(ledger.get_account(ClientId(1)).is_none());
    assert!(ledger.get_transaction(TransactionId(1)).is_none());
}

#[test]
fn get_or_insert_account_creates_lazily() {
    let mut ledger = Ledger::new();
    let fresh = ledger.get_or_insert_account(ClientId(3));
    assert_eq!(fresh, Account::default());
    assert_eq!(ledger.account_count(), 1);
    // a second call returns the same account and creates nothing
    let again = ledger.get_or_insert_account(ClientId(3));
    assert_eq!(again, fresh);
    assert_eq!(ledger.account_count(), 1);
    assert_eq!(ledger.client_ids().as_slice(), &[3u16]);
}

#[test]
fn get_transaction_and_account_reports_what_is_missing() {
    let mut ledger = Ledger::new();
    let _ = ledger.apply_transaction(
        TransactionId(1),
        &Transaction::new(ClientId(1), Amount::from_units(100), Operation::Deposit),
    );
    assert_eq!(
        ledger.get_transaction_and_account(TransactionId(2), ClientId(1)),
        Err(TransactionError::UnknownTransactionId(TransactionId(2)))
    );
    assert_eq!(
        ledger.get_transaction_and_account(TransactionId(1), ClientId(9)),
        Err(TransactionError::UnknownClientId(ClientId(9)))
    );
    let (transaction, account) = ledger
        .get_transaction_and_account(TransactionId(1), ClientId(1))
        .unwrap();
    assert_eq!(transaction.amount(), Amount::from_units(100));
    assert_eq!(account.available(), Amount::from_units(100));
}

#[test]
fn check_locked_reports_the_lock() {
    let mut account = Account::default();
    assert_eq!(account.check_locked(), Ok(()));
    assert_eq!(account.deposit(Amount::from_units(7)), Ok(()));
    account.chargeback(Amount::from_units(0));
    assert!(account.locked());
    let frozen = account;
    assert_eq!(
        account.check_locked(),
        Err(crab::account::AccountError::FrozenAccount(frozen))
    );
}
