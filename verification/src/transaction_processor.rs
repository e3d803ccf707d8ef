use vstd::prelude::*;

use std::collections::HashMap;

use crate::account::Account;
use crate::account::initial_account;
use crate::id::ClientID;
use crate::id::TransactionID;
use crate::transaction::Transaction;
use crate::transaction::TransactionType;

verus! {

broadcast use vstd::std_specs::hash::group_hash_axioms;

/// All accounts, keyed by client identifier.
pub type AccountsMap = HashMap<ClientID, Account>;

/// The last-seen record of each funds-moving event, keyed by transaction
/// identifier, for dispute lookups.
pub type TransactionsMap = HashMap<TransactionID, Transaction>;

/// Why an event was dropped. Every rejection leaves the stream running;
/// no event is ever fatal.
#[derive(Clone, Copy, Debug, PartialEq, Eq, Structural)]
pub enum RejectReason {
    /// A deposit or withdrawal reused the identifier of a stored record.
    DuplicateTransaction,
    /// A deposit or withdrawal arrived without an amount, or a stored
    /// record unexpectedly carries none.
    MissingAmount,
    /// A withdrawal asked for more than the available funds. Nothing
    /// changes: a withdrawal's record is stored only on success.
    InsufficientFunds,
    /// A dispute, resolve or chargeback referenced an identifier that
    /// was never stored.
    UnknownTransaction,
    /// The referenced record belongs to a different client.
    ClientMismatch,
    /// A dispute referenced a record that is already in dispute.
    AlreadyInDispute,
    /// A resolve or chargeback referenced a record not currently in
    /// dispute.
    NotInDispute,
    /// Applying the amount would leave a balance outside the fixed-point
    /// machine range.
    AmountOutOfRange,
}

/// What one event application did to the ledger.
#[derive(Clone, Copy, Debug, PartialEq, Eq, Structural)]
pub enum Outcome {
    Applied,
    Rejected(RejectReason),
}

/// Every account is internally consistent and stored under its own
/// client identifier.
pub open spec fn accounts_wf(m: Map<ClientID, Account>) -> bool {
    forall|c: ClientID| #[trigger] m.contains_key(c) ==> m[c].wf() && m[c].client_id == c
}

/// Every stored record carries a non-negative amount.
pub open spec fn transactions_wf(m: Map<TransactionID, Transaction>) -> bool {
    forall|i: TransactionID| #[trigger] m.contains_key(i) ==> m[i].valid_record()
}

/// The accounts map once the client of an incoming event is present:
/// an account is created, with all balances zero, on the first event
/// that references its client identifier.
pub open spec fn with_account(accs: Map<ClientID, Account>, client: ClientID) -> Map<
    ClientID,
    Account,
> {
    if accs.contains_key(client) {
        accs
    } else {
        accs.insert(client, initial_account(client))
    }
}

/// What a deposit does: reject a reused identifier, a missing amount,
/// or an amount the balances cannot absorb; otherwise credit the
/// account and store the record.
pub open spec fn deposit_step(
    a: Account,
    t: Transaction,
    txs: Map<TransactionID, Transaction>,
) -> (Account, Map<TransactionID, Transaction>, Outcome) {
    if txs.contains_key(t.transaction_id) {
        (a, txs, Outcome::Rejected(RejectReason::DuplicateTransaction))
    } else {
        match t.amount {
            None => (a, txs, Outcome::Rejected(RejectReason::MissingAmount)),
            Some(x) => if a.can_credit(x) {
                (a.credited(x), txs.insert(t.transaction_id, t), Outcome::Applied)
            } else {
                (a, txs, Outcome::Rejected(RejectReason::AmountOutOfRange))
            },
        }
    }
}

/// What a withdrawal does: reject a reused identifier or a missing
/// amount; when the available funds suffice, debit the account and
/// store the record; when they do not, drop the event and leave both
/// the balances and the store untouched.
pub open spec fn withdrawal_step(
    a: Account,
    t: Transaction,
    txs: Map<TransactionID, Transaction>,
) -> (Account, Map<TransactionID, Transaction>, Outcome) {
    if txs.contains_key(t.transaction_id) {
        (a, txs, Outcome::Rejected(RejectReason::DuplicateTransaction))
    } else {
        match t.amount {
            None => (a, txs, Outcome::Rejected(RejectReason::MissingAmount)),
            Some(x) => if x <= a.available {
                (a.debited(x), txs.insert(t.transaction_id, t), Outcome::Applied)
            } else {
                (a, txs, Outcome::Rejected(RejectReason::InsufficientFunds))
            },
        }
    }
}

/// What a dispute does: against a stored, not-yet-disputed record of the
/// same client it holds the record's amount and marks the record in
/// dispute; against anything else it is a no-op on the account.
pub open spec fn dispute_step(
    a: Account,
    t: Transaction,
    txs: Map<TransactionID, Transaction>,
) -> (Account, Map<TransactionID, Transaction>, Outcome) {
    if !txs.contains_key(t.transaction_id) {
        (a, txs, Outcome::Rejected(RejectReason::UnknownTransaction))
    } else {
        let p = txs[t.transaction_id];
        if p.in_dispute {
            (a, txs, Outcome::Rejected(RejectReason::AlreadyInDispute))
        } else if p.client_id != t.client_id {
            (a, txs, Outcome::Rejected(RejectReason::ClientMismatch))
        } else {
            match p.amount {
                None => (a, txs, Outcome::Rejected(RejectReason::MissingAmount)),
                Some(x) => if a.can_hold(x) {
                    (
                        a.with_hold(x),
                        txs.insert(t.transaction_id, Transaction { in_dispute: true, ..p }),
                        Outcome::Applied,
                    )
                } else {
                    (a, txs, Outcome::Rejected(RejectReason::AmountOutOfRange))
                },
            }
        }
    }
}

/// What a resolve does: against a stored record of the same client that
/// is currently in dispute it releases the held amount and clears the
/// dispute mark; against anything else it is a no-op on the account.
pub open spec fn resolve_step(
    a: Account,
    t: Transaction,
    txs: Map<TransactionID, Transaction>,
) -> (Account, Map<TransactionID, Transaction>, Outcome) {
    if !txs.contains_key(t.transaction_id) {
        (a, txs, Outcome::Rejected(RejectReason::UnknownTransaction))
    } else {
        let p = txs[t.transaction_id];
        if !p.in_dispute {
            (a, txs, Outcome::Rejected(RejectReason::NotInDispute))
        } else if p.client_id != t.client_id {
            (a, txs, Outcome::Rejected(RejectReason::ClientMismatch))
        } else {
            match p.amount {
                None => (a, txs, Outcome::Rejected(RejectReason::MissingAmount)),
                Some(x) => if a.can_release(x) {
                    (
                        a.with_release(x),
                        txs.insert(t.transaction_id, Transaction { in_dispute: false, ..p }),
                        Outcome::Applied,
                    )
                } else {
                    (a, txs, Outcome::Rejected(RejectReason::AmountOutOfRange))
                },
            }
        }
    }
}

/// What a chargeback does: against a stored record of the same client
/// that is currently in dispute it removes the held amount, locks the
/// account and clears the dispute mark; against anything else it is a
/// no-op on the account. The record is not marked terminally charged
/// back, so a later dispute of the same record is accepted again even
/// though the account is locked; this mirrors the engine's deliberate
/// policy.
pub open spec fn chargeback_step(
    a: Account,
    t: Transaction,
    txs: Map<TransactionID, Transaction>,
) -> (Account, Map<TransactionID, Transaction>, Outcome) {
    if !txs.contains_key(t.transaction_id) {
        (a, txs, Outcome::Rejected(RejectReason::UnknownTransaction))
    } else {
        let p = txs[t.transaction_id];
        if !p.in_dispute {
            (a, txs, Outcome::Rejected(RejectReason::NotInDispute))
        } else if p.client_id != t.client_id {
            (a, txs, Outcome::Rejected(RejectReason::ClientMismatch))
        } else {
            match p.amount {
                None => (a, txs, Outcome::Rejected(RejectReason::MissingAmount)),
                Some(x) => if a.can_chargeback(x) {
                    (
                        a.charged_back(x),
                        txs.insert(t.transaction_id, Transaction { in_dispute: false, ..p }),
                        Outcome::Applied,
                    )
                } else {
                    (a, txs, Outcome::Rejected(RejectReason::AmountOutOfRange))
                },
            }
        }
    }
}

/// The full dispatch for one event: resolve or create the client's
/// account, branch on the event kind, and write the touched account
/// back. This is the single transition the whole engine takes per
/// event.
pub open spec fn process_step(
    t: Transaction,
    accs: Map<ClientID, Account>,
    txs: Map<TransactionID, Transaction>,
) -> (Map<ClientID, Account>, Map<TransactionID, Transaction>, Outcome) {
    let accs1 = with_account(accs, t.client_id);
    let a = accs1[t.client_id];
    let step = match t.transaction_type {
        TransactionType::Deposit => deposit_step(a, t, txs),
        TransactionType::Withdrawal => withdrawal_step(a, t, txs),
        TransactionType::Dispute => dispute_step(a, t, txs),
        TransactionType::Resolve => resolve_step(a, t, txs),
        TransactionType::Chargeback => chargeback_step(a, t, txs),
    };
    (accs1.insert(t.client_id, step.0), step.1, step.2)
}

/// The engine state after replaying a whole sequence of events in
/// arrival order, one `process_step` at a time.
pub open spec fn replay(
    events: Seq<Transaction>,
    accs: Map<ClientID, Account>,
    txs: Map<TransactionID, Transaction>,
) -> (Map<ClientID, Account>, Map<TransactionID, Transaction>)
    decreases events.len(),
{
    if events.len() == 0 {
        (accs, txs)
    } else {
        let step = process_step(events[0], accs, txs);
        replay(events.skip(1), step.0, step.1)
    }
}

/// Applies a deposit: credits the account and stores the record, or
/// rejects a duplicate identifier, a missing amount, or an amount the
/// balances cannot absorb.
fn process_deposit_transcation(
    account: &mut Account,
    transaction: Transaction,
    transactions: &mut TransactionsMap,
) -> (r: Outcome)
    requires
        old(account).wf(),
        transaction.valid_input(),
        transactions_wf(old(transactions)@),
    ensures
        ({
            let step = deposit_step(*old(account), transaction, old(transactions)@);
            &&& *final(account) == step.0
            &&& final(transactions)@ == step.1
            &&& r == step.2
        }),
        final(account).wf(),
        final(account).client_id == old(account).client_id,
        transactions_wf(final(transactions)@),
{
    if transactions.contains_key(&transaction.transaction_id) {
        return Outcome::Rejected(RejectReason::DuplicateTransaction);
    }
    match transaction.amount {
        None => Outcome::Rejected(RejectReason::MissingAmount),
        Some(amount) => {
            if account.available.checked_add(amount).is_some()
                && account.total.checked_add(amount).is_some() {
                account.add(amount);
                transactions.insert(transaction.transaction_id, transaction);
                Outcome::Applied
            } else {
                Outcome::Rejected(RejectReason::AmountOutOfRange)
            }
        },
    }
}

/// Applies a withdrawal: when the available funds suffice, debits the
/// account and stores the record; on insufficient funds the event is
/// dropped and nothing is stored. Rejects a duplicate identifier or a
/// missing amount.
fn process_withdraw_transaction(
    account: &mut Account,
    transaction: Transaction,
    transactions: &mut TransactionsMap,
) -> (r: Outcome)
    requires
        old(account).wf(),
        transaction.valid_input(),
        transactions_wf(old(transactions)@),
    ensures
        ({
            let step = withdrawal_step(*old(account), transaction, old(transactions)@);
            &&& *final(account) == step.0
            &&& final(transactions)@ == step.1
            &&& r == step.2
        }),
        final(account).wf(),
        final(account).client_id == old(account).client_id,
        transactions_wf(final(transactions)@),
{
    if transactions.contains_key(&transaction.transaction_id) {
        return Outcome::Rejected(RejectReason::DuplicateTransaction);
    }
    match transaction.amount {
        None => Outcome::Rejected(RejectReason::MissingAmount),
        Some(amount) => {
            if amount <= account.available {
                account.subtract(amount);
                transactions.insert(transaction.transaction_id, transaction);
                Outcome::Applied
            } else {
                Outcome::Rejected(RejectReason::InsufficientFunds)
            }
        },
    }
}

/// Applies a dispute: holds the referenced record's amount and marks
/// the record in dispute, or drops the event when the record is
/// unknown, already disputed, of another client, or cannot be held
/// within the machine range.
fn process_dispute_transaction(
    account: &mut Account,
    transaction: Transaction,
    transactions: &mut TransactionsMap,
) -> (r: Outcome)
    requires
        old(account).wf(),
        transactions_wf(old(transactions)@),
    ensures
        ({
            let step = dispute_step(*old(account), transaction, old(transactions)@);
            &&& *final(account) == step.0
            &&& final(transactions)@ == step.1
            &&& r == step.2
        }),
        final(account).wf(),
        final(account).client_id == old(account).client_id,
        transactions_wf(final(transactions)@),
{
    let prev = match transactions.get(&transaction.transaction_id) {
        None => {
            return Outcome::Rejected(RejectReason::UnknownTransaction);
        },
        Some(p) => *p,
    };
    if prev.in_dispute {
        return Outcome::Rejected(RejectReason::AlreadyInDispute);
    }
    if prev.client_id != transaction.client_id {
        return Outcome::Rejected(RejectReason::ClientMismatch);
    }
    match prev.amount {
        None => Outcome::Rejected(RejectReason::MissingAmount),
        Some(amount) => {
            if account.available.checked_sub(amount).is_some()
                && account.held.checked_add(amount).is_some() {
                account.hold(amount);
                let mut marked = prev;
                marked.set_dispute(true);
                transactions.insert(transaction.transaction_id, marked);
                Outcome::Applied
            } else {
                Outcome::Rejected(RejectReason::AmountOutOfRange)
            }
        },
    }
}

/// Applies a resolve: releases the referenced record's held amount and
/// clears its dispute mark, or drops the event when the record is
/// unknown, not in dispute, of another client, or cannot be released
/// within the machine range.
fn process_resolve_transaction(
    account: &mut Account,
    transaction: Transaction,
    transactions: &mut TransactionsMap,
) -> (r: Outcome)
    requires
        old(account).wf(),
        transactions_wf(old(transactions)@),
    ensures
        ({
            let step = resolve_step(*old(account), transaction, old(transactions)@);
            &&& *final(account) == step.0
            &&& final(transactions)@ == step.1
            &&& r == step.2
        }),
        final(account).wf(),
        final(account).client_id == old(account).client_id,
        transactions_wf(final(transactions)@),
{
    let prev = match transactions.get(&transaction.transaction_id) {
        None => {
            return Outcome::Rejected(RejectReason::UnknownTransaction);
        },
        Some(p) => *p,
    };
    if !prev.in_dispute {
        return Outcome::Rejected(RejectReason::NotInDispute);
    }
    if prev.client_id != transaction.client_id {
        return Outcome::Rejected(RejectReason::ClientMismatch);
    }
    match prev.amount {
        None => Outcome::Rejected(RejectReason::MissingAmount),
        Some(amount) => {
            if account.held.checked_sub(amount).is_some()
                && account.available.checked_add(amount).is_some() {
                account.release(amount);
                let mut cleared = prev;
                cleared.set_dispute(false);
                transactions.insert(transaction.transaction_id, cleared);
                Outcome::Applied
            } else {
                Outcome::Rejected(RejectReason::AmountOutOfRange)
            }
        },
    }
}

/// Applies a chargeback: removes the referenced record's held amount,
/// locks the account and clears the record's dispute mark, or drops
/// the event when the record is unknown, not in dispute, of another
/// client, or cannot be settled within the machine range.
fn process_chargeback_transaction(
    account: &mut Account,
    transaction: Transaction,
    transactions: &mut TransactionsMap,
) -> (r: Outcome)
    requires
        old(account).wf(),
        transactions_wf(old(transactions)@),
    ensures
        ({
            let step = chargeback_step(*old(account), transaction, old(transactions)@);
            &&& *final(account) == step.0
            &&& final(transactions)@ == step.1
            &&& r == step.2
        }),
        final(account).wf(),
        final(account).client_id == old(account).client_id,
        transactions_wf(final(transactions)@),
{
    let prev = match transactions.get(&transaction.transaction_id) {
        None => {
            return Outcome::Rejected(RejectReason::UnknownTransaction);
        },
        Some(p) => *p,
    };
    if !prev.in_dispute {
        return Outcome::Rejected(RejectReason::NotInDispute);
    }
    if prev.client_id != transaction.client_id {
        return Outcome::Rejected(RejectReason::ClientMismatch);
    }
    match prev.amount {
        None => Outcome::Rejected(RejectReason::MissingAmount),
        Some(amount) => {
            if account.held.checked_sub(amount).is_some()
                && account.total.checked_sub(amount).is_some() {
                account.chargeback(amount);
                let mut cleared = prev;
                cleared.set_dispute(false);
                transactions.insert(transaction.transaction_id, cleared);
                Outcome::Applied
            } else {
                Outcome::Rejected(RejectReason::AmountOutOfRange)
            }
        },
    }
}

/// Applies one event to the ledger: resolves or creates the account of
/// the event's client, dispatches on the event kind, and reports what
/// was done. The result is exactly `process_step` of the incoming
/// state, so every rejection listed there, and nothing else, is a
/// dropped event; the maps stay well-formed, and in particular every
/// account's total stays equal to `available + held`.
pub fn process_transaction(
    transaction: Transaction,
    accounts: &mut AccountsMap,
    transactions: &mut TransactionsMap,
) -> (r: Outcome)
    requires
        transaction.valid_input(),
        accounts_wf(old(accounts)@),
        transactions_wf(old(transactions)@),
    ensures
        ({
            let step = process_step(transaction, old(accounts)@, old(transactions)@);
            &&& final(accounts)@ == step.0
            &&& final(transactions)@ == step.1
            &&& r == step.2
        }),
        accounts_wf(final(accounts)@),
        transactions_wf(final(transactions)@),
{
    let client = transaction.client_id;
    if !accounts.contains_key(&client) {
        accounts.insert(client, Account::new(client));
    }
    let mut account = *accounts.get(&client).unwrap();
    let r = match transaction.transaction_type() {
        TransactionType::Deposit => process_deposit_transcation(
            &mut account,
            transaction,
            transactions,
        ),
        TransactionType::Withdrawal => process_withdraw_transaction(
            &mut account,
            transaction,
            transactions,
        ),
        TransactionType::Dispute => process_dispute_transaction(
            &mut account,
            transaction,
            transactions,
        ),
        TransactionType::Resolve => process_resolve_transaction(
            &mut account,
            transaction,
            transactions,
        ),
        TransactionType::Chargeback => process_chargeback_transaction(
            &mut account,
            transaction,
            transactions,
        ),
    };
    accounts.insert(client, account);
    r
}

} // verus!
