use crab::account::{AccountError, ClientId};
use crab::amount::Amount;
use crab::ledger::Ledger;
use crab::transactions::{Operation, Transaction, TransactionError, TransactionId, TransactionState};

fn deposit(client: u16, units: i64) -> Transaction {
    Transaction::new(ClientId(client), Amount::from_units(units), Operation::Deposit)
}

fn request(client: u16, operation: Operation) -> Transaction {
    Transaction::new(ClientId(client), Amount::zero(), operation)
}

#[test]
fn negative_amount_rejected() {
    let mut ledger = Ledger::new();
    let res = ledger.apply_transaction(TransactionId(1), &deposit(1, -1));
    assert_eq!(
        res.unwrap_err(),
        TransactionError::InvalidAmount(TransactionId(1), Amount::from_units(-1))
    );
    assert!(ledger.get_account(ClientId(1)).is_none());
    assert_eq!(ledger.transaction_count(), 0);
}

#[test]
fn dispute_of_unknown_transaction_rejected() {
    let mut ledger = Ledger::new();
    let _ = ledger.apply_transaction(TransactionId(1), &deposit(1, 100));
    let res = ledger.apply_transaction(TransactionId(2), &request(1, Operation::Dispute));
    assert_eq!(
        res.unwrap_err(),
        TransactionError::UnknownTransactionId(TransactionId(2))
    );
}

#[test]
fn dispute_from_unknown_client_rejected() {
    let mut ledger = Ledger::new();
    let _ = ledger.apply_transaction(TransactionId(1), &deposit(1, 100));
    let res = ledger.apply_transaction(TransactionId(1), &request(2, Operation::Dispute));
    assert_eq!(res.unwrap_err(), TransactionError::UnknownClientId(ClientId(2)));
}

#[test]
fn dispute_by_wrong_client_rejected() {
    let mut ledger = Ledger::new();
    let _ = ledger.apply_transaction(TransactionId(1), &deposit(1, 100));
    let _ = ledger.apply_transaction(TransactionId(2), &deposit(2, 100));
    let res = ledger.apply_transaction(TransactionId(1), &request(2, Operation::Dispute));
    assert_eq!(
        res.unwrap_err(),
        TransactionError::MismatchedClientId(ClientId(2), ClientId(1))
    );
}

#[test]
fn dispute_of_withdrawal_holds_its_amount() {
    let mut ledger = Ledger::new();
    let _ = ledger.apply_transaction(TransactionId(1), &deposit(1, 100));
    let _ = ledger.apply_transaction(
        TransactionId(2),
        &Transaction::new(ClientId(1), Amount::from_units(40), Operation::Withdrawal),
    );
    let res = ledger.apply_transaction(TransactionId(2), &request(1, Operation::Dispute));
    assert!(res.is_ok());
    let account = ledger.get_account(ClientId(1)).unwrap();
    assert_eq!(account.available(), Amount::from_units(20));
    assert_eq!(account.held(), Amount::from_units(40));
    assert!(!account.locked());
    assert_eq!(
        ledger.get_transaction(TransactionId(2)).unwrap().state(),
        TransactionState::Disputed
    );
}

#[test]
fn dispute_of_a_request_kind_rejected() {
    let mut ledger = Ledger::new();
    let _ = ledger.apply_transaction(TransactionId(1), &deposit(1, 100));
    // only recorded deposits and withdrawals are disputable; a request
    // carrying a dispute-family kind is not
    let deposit_record = ledger.get_transaction(TransactionId(1)).unwrap();
    let res = request(1, Operation::Dispute)
        .check_valid_dispute(TransactionId(1), &request(1, Operation::Resolve));
    assert_eq!(
        res.unwrap_err(),
        TransactionError::AlreadyDisputed(TransactionId(1))
    );
    let ok = request(1, Operation::Dispute).check_valid_dispute(TransactionId(1), &deposit_record);
    assert!(ok.is_ok());
}

#[test]
fn second_dispute_rejected() {
    let mut ledger = Ledger::new();
    let _ = ledger.apply_transaction(TransactionId(1), &deposit(1, 100));
    let first = ledger.apply_transaction(TransactionId(1), &request(1, Operation::Dispute));
    assert!(first.is_ok());
    let second = ledger.apply_transaction(TransactionId(1), &request(1, Operation::Dispute));
    assert_eq!(
        second.unwrap_err(),
        TransactionError::AlreadyDisputed(TransactionId(1))
    );
    let account = ledger.get_account(ClientId(1)).unwrap();
    assert_eq!(account.available(), Amount::from_units(0));
    assert_eq!(account.held(), Amount::from_units(100));
    assert!(!account.locked());
}

#[test]
fn withdrawal_beyond_available_rejected() {
    let mut ledger = Ledger::new();
    let _ = ledger.apply_transaction(TransactionId(1), &deposit(1, 100));
    let res = ledger.apply_transaction(
        TransactionId(2),
        &Transaction::new(ClientId(1), Amount::from_units(101), Operation::Withdrawal),
    );
    assert_eq!(
        res.unwrap_err(),
        TransactionError::AccountError(
            ClientId(1),
            AccountError::Underflow {
                available: Amount::from_units(100),
                held: Amount::from_units(0),
                transaction_amount: Amount::from_units(101),
            }
        )
    );
    // the failed withdrawal consumed no id
    assert_eq!(ledger.transaction_count(), 1);
    assert_eq!(
        ledger.get_account(ClientId(1)).unwrap().available(),
        Amount::from_units(100)
    );
}

#[test]
fn deposit_overflow_rejected() {
    let mut ledger = Ledger::new();
    let _ = ledger.apply_transaction(TransactionId(1), &deposit(1, i64::MAX));
    let res = ledger.apply_transaction(TransactionId(2), &deposit(1, 1));
    assert_eq!(
        res.unwrap_err(),
        TransactionError::AccountError(
            ClientId(1),
            AccountError::Overflow {
                available: Amount::from_units(i64::MAX),
                held: Amount::from_units(0),
                transaction_amount: Amount::from_units(1),
            }
        )
    );
    assert_eq!(ledger.transaction_count(), 1);
    assert_eq!(
        ledger.get_account(ClientId(1)).unwrap().available(),
        Amount::from_units(i64::MAX)
    );
}

#[test]
fn locked_account_freezes_deposits_and_withdrawals() {
    let mut ledger = Ledger::new();
    let _ = ledger.apply_transaction(TransactionId(1), &deposit(1, 100));
    let _ = ledger.apply_transaction(TransactionId(1), &request(1, Operation::Dispute));
    let cb = ledger.apply_transaction(TransactionId(1), &request(1, Operation::Chargeback));
    assert!(cb.is_ok());
    let locked_account = ledger.get_account(ClientId(1)).unwrap();
    assert!(locked_account.locked());
    assert_eq!(locked_account.held(), Amount::from_units(0));

    let dep = ledger.apply_transaction(TransactionId(2), &deposit(1, 5));
    assert_eq!(
        dep.unwrap_err(),
        TransactionError::AccountError(ClientId(1), AccountError::FrozenAccount(locked_account))
    );
    let wd = ledger.apply_transaction(
        TransactionId(3),
        &Transaction::new(ClientId(1), Amount::from_units(5), Operation::Withdrawal),
    );
    assert_eq!(
        wd.unwrap_err(),
        TransactionError::AccountError(ClientId(1), AccountError::FrozenAccount(locked_account))
    );
    // balances unchanged, no ids consumed
    assert_eq!(ledger.get_account(ClientId(1)).unwrap(), locked_account);
    assert_eq!(ledger.transaction_count(), 1);
}

#[test]
fn dispute_then_resolve_restores_exactly() {
    let mut ledger = Ledger::new();
    let _ = ledger.apply_transaction(TransactionId(1), &deposit(1, 123_456));
    let _ = ledger.apply_transaction(TransactionId(2), &deposit(1, 1_000));
    let before = ledger.get_account(ClientId(1)).unwrap();

    assert!(ledger
        .apply_transaction(TransactionId(1), &request(1, Operation::Dispute))
        .is_ok());
    let during = ledger.get_account(ClientId(1)).unwrap();
    assert_eq!(during.available(), Amount::from_units(1_000));
    assert_eq!(during.held(), Amount::from_units(123_456));
    assert_eq!(
        ledger.get_transaction(TransactionId(1)).unwrap().state(),
        TransactionState::Disputed
    );

    assert!(ledger
        .apply_transaction(TransactionId(1), &request(1, Operation::Resolve))
        .is_ok());
    let after = ledger.get_account(ClientId(1)).unwrap();
    assert_eq!(after, before);
    assert_eq!(
        ledger.get_transaction(TransactionId(1)).unwrap().state(),
        TransactionState::Undisputed
    );
}

#[test]
fn totals_report_available_plus_held() {
    let mut ledger = Ledger::new();
    let _ = ledger.apply_transaction(TransactionId(1), &deposit(1, 500_000));
    let _ = ledger.apply_transaction(TransactionId(2), &deposit(1, 200_000));
    let _ = ledger.apply_transaction(TransactionId(1), &request(1, Operation::Dispute));
    let account = ledger.get_account(ClientId(1)).unwrap();
    assert_eq!(account.total(), Some(Amount::from_units(700_000)));

    let clients = ledger.client_ids();
    assert_eq!(clients.as_slice(), &[1u16]);
}
