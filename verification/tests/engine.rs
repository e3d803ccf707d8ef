use ledger_engine::account::Account;
use ledger_engine::checkpoint::Checkpoint;
use ledger_engine::transaction::Transaction;
use ledger_engine::transaction::TransactionType;
use ledger_engine::transaction_processor::AccountsMap;
use ledger_engine::transaction_processor::Outcome;
use ledger_engine::transaction_processor::RejectReason;
use ledger_engine::transaction_processor::TransactionsMap;
use ledger_engine::transaction_processor::process_transaction;
use std::collections::HashMap;

// Amounts are fixed-point: 10_000 units stand for 1.0 of the currency.

fn run_process_transaction(input: Vec<Transaction>) -> (AccountsMap, TransactionsMap) {
    let mut accounts: AccountsMap = HashMap::new();
    let mut transactions: TransactionsMap = HashMap::new();
    for transaction in input {
        process_transaction(transaction, &mut accounts, &mut transactions);
    }
    (accounts, transactions)
}

#[test]
fn test_process_transaction_deposit_withdraw() {
    let input: Vec<Transaction> = vec![
        Transaction::new(TransactionType::Deposit, 1, 1, Some(10000)),
        Transaction::new(TransactionType::Deposit, 2, 2, Some(20000)),
        Transaction::new(TransactionType::Deposit, 1, 3, Some(20000)),
        Transaction::new(TransactionType::Withdrawal, 1, 4, Some(15000)),
        Transaction::new(TransactionType::Withdrawal, 2, 5, Some(30000)),
    ];
    let (accounts, transactions) = run_process_transaction(input);

    assert_eq!(accounts.keys().len(), 2);
    // Four stored records: the rejected withdrawal is not stored.
    assert_eq!(transactions.keys().len(), 4);

    let account_1 = accounts.get(&1).unwrap();
    assert_eq!(account_1.available(), 15000);
    assert_eq!(account_1.held(), 0);
    assert_eq!(account_1.total(), 15000);
    assert_eq!(account_1.locked(), false);

    let account_2 = accounts.get(&2).unwrap();
    assert_eq!(account_2.available(), 20000);
    assert_eq!(account_2.held(), 0);
    assert_eq!(account_2.total(), 20000);
    assert_eq!(account_2.locked(), false);
}

#[test]
fn test_process_transaction_dispute_resolve_chargeback() {
    let input: Vec<Transaction> = vec![
        Transaction::new(TransactionType::Deposit, 1, 1, Some(50000)),
        Transaction::new(TransactionType::Dispute, 1, 1, None),
        Transaction::new(TransactionType::Resolve, 1, 1, None),
        Transaction::new(TransactionType::Deposit, 2, 2, Some(50000)),
        Transaction::new(TransactionType::Dispute, 2, 2, None),
        Transaction::new(TransactionType::Chargeback, 2, 2, None),
    ];
    let (accounts, transactions) = run_process_transaction(input);

    assert_eq!(accounts.keys().len(), 2);
    assert_eq!(transactions.keys().len(), 2);

    let account_1 = accounts.get(&1).unwrap();
    assert_eq!(account_1.available(), 50000);
    assert_eq!(account_1.held(), 0);
    assert_eq!(account_1.total(), 50000);
    assert_eq!(account_1.locked(), false);

    let account_2 = accounts.get(&2).unwrap();
    assert_eq!(account_2.available(), 0);
    assert_eq!(account_2.held(), 0);
    assert_eq!(account_2.total(), 0);
    assert_eq!(account_2.locked(), true);
}

#[test]
fn total_always_equals_available_plus_held() {
    let mut accounts: AccountsMap = HashMap::new();
    let mut transactions: TransactionsMap = HashMap::new();
    let input: Vec<Transaction> = vec![
        Transaction::new(TransactionType::Deposit, 7, 1, Some(30000)),
        Transaction::new(TransactionType::Deposit, 8, 2, Some(12345)),
        Transaction::new(TransactionType::Withdrawal, 7, 3, Some(10000)),
        Transaction::new(TransactionType::Dispute, 7, 1, None),
        Transaction::new(TransactionType::Resolve, 7, 1, None),
        Transaction::new(TransactionType::Dispute, 8, 2, None),
        Transaction::new(TransactionType::Chargeback, 8, 2, None),
    ];
    for transaction in input {
        process_transaction(transaction, &mut accounts, &mut transactions);
        for account in accounts.values() {
            assert_eq!(account.total(), account.available() + account.held());
        }
    }
}

#[test]
fn withdrawal_insufficient_funds_is_dropped_whole() {
    let mut accounts: AccountsMap = HashMap::new();
    let mut transactions: TransactionsMap = HashMap::new();
    process_transaction(
        Transaction::new(TransactionType::Deposit, 1, 1, Some(10000)),
        &mut accounts,
        &mut transactions,
    );
    let outcome = process_transaction(
        Transaction::new(TransactionType::Withdrawal, 1, 2, Some(10001)),
        &mut accounts,
        &mut transactions,
    );
    assert_eq!(outcome, Outcome::Rejected(RejectReason::InsufficientFunds));
    let account = accounts.get(&1).unwrap();
    assert_eq!(account.available(), 10000);
    assert!(account.available() >= 0);
    // A withdrawal's record is stored only on success.
    assert!(!transactions.contains_key(&2));
    assert_eq!(transactions.keys().len(), 1);
}

#[test]
fn dispute_unknown_already_disputed_or_wrong_client_is_noop() {
    let mut accounts: AccountsMap = HashMap::new();
    let mut transactions: TransactionsMap = HashMap::new();
    process_transaction(
        Transaction::new(TransactionType::Deposit, 1, 1, Some(10000)),
        &mut accounts,
        &mut transactions,
    );

    let unknown = process_transaction(
        Transaction::new(TransactionType::Dispute, 1, 99, None),
        &mut accounts,
        &mut transactions,
    );
    assert_eq!(unknown, Outcome::Rejected(RejectReason::UnknownTransaction));
    assert_eq!(accounts.get(&1).unwrap().available(), 10000);
    assert_eq!(accounts.get(&1).unwrap().held(), 0);

    let wrong_client = process_transaction(
        Transaction::new(TransactionType::Dispute, 2, 1, None),
        &mut accounts,
        &mut transactions,
    );
    assert_eq!(wrong_client, Outcome::Rejected(RejectReason::ClientMismatch));
    assert_eq!(accounts.get(&1).unwrap().held(), 0);
    // The mismatched client's empty account was still created on first
    // reference.
    assert_eq!(accounts.get(&2).unwrap().total(), 0);

    let first = process_transaction(
        Transaction::new(TransactionType::Dispute, 1, 1, None),
        &mut accounts,
        &mut transactions,
    );
    assert_eq!(first, Outcome::Applied);
    let second = process_transaction(
        Transaction::new(TransactionType::Dispute, 1, 1, None),
        &mut accounts,
        &mut transactions,
    );
    assert_eq!(second, Outcome::Rejected(RejectReason::AlreadyInDispute));
    assert_eq!(accounts.get(&1).unwrap().held(), 10000);
    assert_eq!(accounts.get(&1).unwrap().available(), 0);
}

#[test]
fn resolve_or_chargeback_without_dispute_is_noop() {
    let mut accounts: AccountsMap = HashMap::new();
    let mut transactions: TransactionsMap = HashMap::new();
    process_transaction(
        Transaction::new(TransactionType::Deposit, 1, 1, Some(10000)),
        &mut accounts,
        &mut transactions,
    );

    let resolve = process_transaction(
        Transaction::new(TransactionType::Resolve, 1, 1, None),
        &mut accounts,
        &mut transactions,
    );
    assert_eq!(resolve, Outcome::Rejected(RejectReason::NotInDispute));
    let chargeback = process_transaction(
        Transaction::new(TransactionType::Chargeback, 1, 1, None),
        &mut accounts,
        &mut transactions,
    );
    assert_eq!(chargeback, Outcome::Rejected(RejectReason::NotInDispute));
    let resolve_unknown = process_transaction(
        Transaction::new(TransactionType::Resolve, 1, 99, None),
        &mut accounts,
        &mut transactions,
    );
    assert_eq!(resolve_unknown, Outcome::Rejected(RejectReason::UnknownTransaction));

    let account = accounts.get(&1).unwrap();
    assert_eq!(account.available(), 10000);
    assert_eq!(account.held(), 0);
    assert_eq!(account.total(), 10000);
    assert_eq!(account.locked(), false);
}

#[test]
fn locked_account_stays_locked() {
    let mut accounts: AccountsMap = HashMap::new();
    let mut transactions: TransactionsMap = HashMap::new();
    let input: Vec<Transaction> = vec![
        Transaction::new(TransactionType::Deposit, 1, 1, Some(10000)),
        Transaction::new(TransactionType::Dispute, 1, 1, None),
        Transaction::new(TransactionType::Chargeback, 1, 1, None),
    ];
    for transaction in input {
        process_transaction(transaction, &mut accounts, &mut transactions);
    }
    assert!(accounts.get(&1).unwrap().locked());

    // The engine keeps applying later events to a locked account; none
    // of them ever clears the lock.
    let later: Vec<Transaction> = vec![
        Transaction::new(TransactionType::Deposit, 1, 2, Some(5000)),
        Transaction::new(TransactionType::Withdrawal, 1, 3, Some(1000)),
        Transaction::new(TransactionType::Dispute, 1, 2, None),
        Transaction::new(TransactionType::Resolve, 1, 2, None),
    ];
    for transaction in later {
        process_transaction(transaction, &mut accounts, &mut transactions);
        assert!(accounts.get(&1).unwrap().locked());
    }
}

#[test]
fn duplicate_transaction_id_leaves_state_unchanged() {
    let mut accounts: AccountsMap = HashMap::new();
    let mut transactions: TransactionsMap = HashMap::new();
    process_transaction(
        Transaction::new(TransactionType::Deposit, 1, 1, Some(10000)),
        &mut accounts,
        &mut transactions,
    );

    let duplicate_deposit = process_transaction(
        Transaction::new(TransactionType::Deposit, 1, 1, Some(77000)),
        &mut accounts,
        &mut transactions,
    );
    assert_eq!(duplicate_deposit, Outcome::Rejected(RejectReason::DuplicateTransaction));
    let duplicate_withdrawal = process_transaction(
        Transaction::new(TransactionType::Withdrawal, 1, 1, Some(3000)),
        &mut accounts,
        &mut transactions,
    );
    assert_eq!(duplicate_withdrawal, Outcome::Rejected(RejectReason::DuplicateTransaction));

    assert_eq!(accounts.get(&1).unwrap().available(), 10000);
    assert_eq!(accounts.get(&1).unwrap().total(), 10000);
    assert_eq!(transactions.keys().len(), 1);
    assert_eq!(transactions.get(&1).unwrap().amount(), Some(10000));
}

#[test]
fn deposit_without_amount_is_rejected() {
    let mut accounts: AccountsMap = HashMap::new();
    let mut transactions: TransactionsMap = HashMap::new();
    let outcome = process_transaction(
        Transaction::new(TransactionType::Deposit, 1, 1, None),
        &mut accounts,
        &mut transactions,
    );
    assert_eq!(outcome, Outcome::Rejected(RejectReason::MissingAmount));
    assert_eq!(transactions.keys().len(), 0);
    // The account itself was still created on first reference.
    assert_eq!(accounts.get(&1).unwrap().total(), 0);

    let withdrawal = process_transaction(
        Transaction::new(TransactionType::Withdrawal, 1, 1, None),
        &mut accounts,
        &mut transactions,
    );
    assert_eq!(withdrawal, Outcome::Rejected(RejectReason::MissingAmount));
    assert_eq!(transactions.keys().len(), 0);
}

#[test]
fn deposit_overflowing_the_balance_is_rejected() {
    let mut accounts: AccountsMap = HashMap::new();
    let mut transactions: TransactionsMap = HashMap::new();
    let first = process_transaction(
        Transaction::new(TransactionType::Deposit, 1, 1, Some(i64::MAX)),
        &mut accounts,
        &mut transactions,
    );
    assert_eq!(first, Outcome::Applied);
    let second = process_transaction(
        Transaction::new(TransactionType::Deposit, 1, 2, Some(1)),
        &mut accounts,
        &mut transactions,
    );
    assert_eq!(second, Outcome::Rejected(RejectReason::AmountOutOfRange));
    assert_eq!(accounts.get(&1).unwrap().available(), i64::MAX);
    assert!(!transactions.contains_key(&2));
}

#[test]
fn dispute_of_spent_deposit_can_drive_available_negative() {
    // A dispute does not check that the available funds still cover the
    // disputed amount; funds already withdrawn leave the account
    // negative. This mirrors the engine's deliberate policy.
    let mut accounts: AccountsMap = HashMap::new();
    let mut transactions: TransactionsMap = HashMap::new();
    let input: Vec<Transaction> = vec![
        Transaction::new(TransactionType::Deposit, 1, 1, Some(10000)),
        Transaction::new(TransactionType::Withdrawal, 1, 2, Some(8000)),
        Transaction::new(TransactionType::Dispute, 1, 1, None),
    ];
    for transaction in input {
        process_transaction(transaction, &mut accounts, &mut transactions);
    }
    let account = accounts.get(&1).unwrap();
    assert_eq!(account.available(), -8000);
    assert_eq!(account.held(), 10000);
    assert_eq!(account.total(), 2000);
}

#[test]
fn second_dispute_after_chargeback_is_accepted_again() {
    // A chargeback clears the record's dispute flag without marking the
    // record terminally charged back, so the same record can be
    // disputed again while the account stays locked. The engine keeps
    // this policy rather than silently changing it.
    let mut accounts: AccountsMap = HashMap::new();
    let mut transactions: TransactionsMap = HashMap::new();
    let input: Vec<Transaction> = vec![
        Transaction::new(TransactionType::Deposit, 1, 1, Some(10000)),
        Transaction::new(TransactionType::Dispute, 1, 1, None),
        Transaction::new(TransactionType::Chargeback, 1, 1, None),
    ];
    for transaction in input {
        process_transaction(transaction, &mut accounts, &mut transactions);
    }
    let again = process_transaction(
        Transaction::new(TransactionType::Dispute, 1, 1, None),
        &mut accounts,
        &mut transactions,
    );
    assert_eq!(again, Outcome::Applied);
    let account = accounts.get(&1).unwrap();
    assert!(account.locked());
    assert_eq!(account.available(), -10000);
    assert_eq!(account.held(), 10000);
    assert_eq!(account.total(), 0);
}

#[test]
fn account_accessors_report_the_fields() {
    let account = Account::new(42);
    assert_eq!(account.client_id(), 42);
    assert_eq!(account.available(), 0);
    assert_eq!(account.held(), 0);
    assert_eq!(account.total(), 0);
    assert_eq!(account.locked(), false);
}

#[test]
fn transaction_accessors_report_the_fields() {
    let mut transaction = Transaction::new(TransactionType::Deposit, 3, 9, Some(12500));
    assert_eq!(transaction.transaction_type(), TransactionType::Deposit);
    assert_eq!(transaction.client_id(), 3);
    assert_eq!(transaction.transaction_id(), 9);
    assert_eq!(transaction.amount(), Some(12500));
    assert_eq!(transaction.in_dispute(), false);
    transaction.set_dispute(true);
    assert_eq!(transaction.in_dispute(), true);
    transaction.set_dispute(false);
    assert_eq!(transaction.in_dispute(), false);
}

#[test]
fn checkpoint_carries_the_engine_state() {
    let mut accounts: AccountsMap = HashMap::new();
    let mut transactions: TransactionsMap = HashMap::new();
    process_transaction(
        Transaction::new(TransactionType::Deposit, 1, 1, Some(10000)),
        &mut accounts,
        &mut transactions,
    );
    let checkpoint = Checkpoint { line: 1, accounts, transactions };
    assert_eq!(checkpoint.line, 1);
    assert_eq!(checkpoint.accounts.get(&1).unwrap().available(), 10000);
    assert!(checkpoint.transactions.contains_key(&1));
}
