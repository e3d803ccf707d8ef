use vstd::prelude::*;

use crate::account::Account;
use crate::id::ClientID;
use crate::id::TransactionID;
use crate::transaction::Transaction;
use crate::transaction::TransactionType;
use crate::transaction_processor::Outcome;
use crate::transaction_processor::RejectReason;
use crate::transaction_processor::accounts_wf;
use crate::transaction_processor::process_step;
use crate::transaction_processor::replay;
use crate::transaction_processor::transactions_wf;
use crate::transaction_processor::with_account;

verus! {

/// Applying any one valid event to well-formed state leaves the state
/// well-formed: every account still satisfies `total == available +
/// held` and sits under its own client identifier, and every stored
/// record still carries a non-negative amount. By induction, the
/// invariants hold at every point of a replayed stream.
pub proof fn lemma_process_step_preserves_wf(
    t: Transaction,
    accs: Map<ClientID, Account>,
    txs: Map<TransactionID, Transaction>,
)
    requires
        t.valid_input(),
        accounts_wf(accs),
        transactions_wf(txs),
    ensures
        accounts_wf(process_step(t, accs, txs).0),
        transactions_wf(process_step(t, accs, txs).1),
{
}

/// Replaying any stream of valid events from well-formed state keeps
/// the state well-formed. Together with
/// `lemma_process_step_preserves_wf` applied to each prefix, every
/// account satisfies `total == available + held` at every point of a
/// run, not only at its end.
pub proof fn lemma_replay_preserves_wf(
    events: Seq<Transaction>,
    accs: Map<ClientID, Account>,
    txs: Map<TransactionID, Transaction>,
)
    requires
        accounts_wf(accs),
        transactions_wf(txs),
        forall|i: int| 0 <= i < events.len() ==> (#[trigger] events[i]).valid_input(),
    ensures
        accounts_wf(replay(events, accs, txs).0),
        transactions_wf(replay(events, accs, txs).1),
    decreases events.len(),
{
    if events.len() > 0 {
        lemma_process_step_preserves_wf(events[0], accs, txs);
        let step = process_step(events[0], accs, txs);
        assert forall|i: int| 0 <= i < events.skip(1).len() implies (#[trigger] events.skip(
            1,
        )[i]).valid_input() by {
            assert(events.skip(1)[i] == events[i + 1]);
        }
        lemma_replay_preserves_wf(events.skip(1), step.0, step.1);
    }
}

/// Once an account is locked, no stream of later events, however long,
/// ever unlocks it.
pub proof fn lemma_locked_is_forever_over_stream(
    events: Seq<Transaction>,
    accs: Map<ClientID, Account>,
    txs: Map<TransactionID, Transaction>,
    client: ClientID,
)
    requires
        accs.contains_key(client),
        accs[client].locked,
    ensures
        replay(events, accs, txs).0.contains_key(client),
        replay(events, accs, txs).0[client].locked,
    decreases events.len(),
{
    if events.len() > 0 {
        lemma_locked_is_forever(events[0], accs, txs, client);
        let step = process_step(events[0], accs, txs);
        lemma_locked_is_forever_over_stream(events.skip(1), step.0, step.1, client);
    }
}

/// A withdrawal never reduces `available` below zero: after the event,
/// the client's available funds are either untouched (the event was
/// dropped, or the funds were insufficient) or non-negative.
pub proof fn lemma_withdrawal_never_below_zero(
    t: Transaction,
    accs: Map<ClientID, Account>,
    txs: Map<TransactionID, Transaction>,
)
    requires
        t.transaction_type == TransactionType::Withdrawal,
        t.valid_input(),
    ensures
        ({
            let before = with_account(accs, t.client_id)[t.client_id];
            let after = process_step(t, accs, txs).0[t.client_id];
            after.available == before.available || after.available >= 0
        }),
{
}

/// A withdrawal that asks for more than the available funds is dropped
/// whole: the account keeps its balances and the store keeps its
/// records — a withdrawal's record is stored only on success (only the
/// client's empty account may come into existence).
pub proof fn lemma_insufficient_withdrawal_is_noop(
    t: Transaction,
    accs: Map<ClientID, Account>,
    txs: Map<TransactionID, Transaction>,
)
    requires
        t.transaction_type == TransactionType::Withdrawal,
        !txs.contains_key(t.transaction_id),
        t.amount matches Some(x) && x > with_account(accs, t.client_id)[t.client_id].available,
    ensures
        process_step(t, accs, txs).0 == with_account(accs, t.client_id),
        process_step(t, accs, txs).1 == txs,
        process_step(t, accs, txs).2 == Outcome::Rejected(RejectReason::InsufficientFunds),
{
    let accs1 = with_account(accs, t.client_id);
    assert(accs1.insert(t.client_id, accs1[t.client_id]) =~= accs1);
}

/// A dispute referencing a transaction never seen, or one already in
/// dispute, or one belonging to a different client, or one whose
/// stored record carries no amount, is dropped: no account balance and
/// no stored record changes (only the client's empty account may come
/// into existence).
pub proof fn lemma_inapplicable_dispute_is_noop(
    t: Transaction,
    accs: Map<ClientID, Account>,
    txs: Map<TransactionID, Transaction>,
)
    requires
        t.transaction_type == TransactionType::Dispute,
        !txs.contains_key(t.transaction_id) || txs[t.transaction_id].in_dispute
            || txs[t.transaction_id].client_id != t.client_id
            || txs[t.transaction_id].amount is None,
    ensures
        process_step(t, accs, txs).0 == with_account(accs, t.client_id),
        process_step(t, accs, txs).1 == txs,
        process_step(t, accs, txs).2 != Outcome::Applied,
{
    let accs1 = with_account(accs, t.client_id);
    assert(accs1.insert(t.client_id, accs1[t.client_id]) =~= accs1);
}

/// A resolve or chargeback referencing a transaction not currently in
/// dispute — never seen, not disputed, of a different client, or with
/// an amount-less stored record — is dropped: no account balance
/// changes (in particular an unlocked account stays unlocked) and no
/// stored record changes (only the client's empty account may come
/// into existence).
pub proof fn lemma_undisputed_settlement_is_noop(
    t: Transaction,
    accs: Map<ClientID, Account>,
    txs: Map<TransactionID, Transaction>,
)
    requires
        t.transaction_type == TransactionType::Resolve || t.transaction_type
            == TransactionType::Chargeback,
        !txs.contains_key(t.transaction_id) || !txs[t.transaction_id].in_dispute
            || txs[t.transaction_id].client_id != t.client_id
            || txs[t.transaction_id].amount is None,
    ensures
        process_step(t, accs, txs).0 == with_account(accs, t.client_id),
        process_step(t, accs, txs).1 == txs,
        process_step(t, accs, txs).2 != Outcome::Applied,
{
    let accs1 = with_account(accs, t.client_id);
    assert(accs1.insert(t.client_id, accs1[t.client_id]) =~= accs1);
}

/// Once an account is locked it stays locked: no event of any kind,
/// for any client, ever clears the flag.
pub proof fn lemma_locked_is_forever(
    t: Transaction,
    accs: Map<ClientID, Account>,
    txs: Map<TransactionID, Transaction>,
    client: ClientID,
)
    requires
        accs.contains_key(client),
        accs[client].locked,
    ensures
        process_step(t, accs, txs).0.contains_key(client),
        process_step(t, accs, txs).0[client].locked,
{
}

/// A deposit or withdrawal reusing the identifier of a stored record,
/// or arriving without an amount, is dropped: no account balance
/// changes, and no stored record changes — in particular the record
/// already stored under a reused identifier is not overwritten (only
/// the client's empty account may come into existence).
pub proof fn lemma_duplicate_or_amountless_is_noop(
    t: Transaction,
    accs: Map<ClientID, Account>,
    txs: Map<TransactionID, Transaction>,
)
    requires
        t.transaction_type == TransactionType::Deposit || t.transaction_type
            == TransactionType::Withdrawal,
        txs.contains_key(t.transaction_id) || t.amount is None,
    ensures
        process_step(t, accs, txs).0 == with_account(accs, t.client_id),
        process_step(t, accs, txs).1 == txs,
        txs.contains_key(t.transaction_id) ==> process_step(t, accs, txs).2 == Outcome::Rejected(
            RejectReason::DuplicateTransaction,
        ),
        !txs.contains_key(t.transaction_id) ==> process_step(t, accs, txs).2 == Outcome::Rejected(
            RejectReason::MissingAmount,
        ),
{
    let accs1 = with_account(accs, t.client_id);
    assert(accs1.insert(t.client_id, accs1[t.client_id]) =~= accs1);
}

} // verus!
