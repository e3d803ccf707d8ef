use vstd::prelude::*;

use crate::id::ClientID;
use crate::id::TransactionID;

verus! {

/// The five kinds of ledger event.
#[derive(Clone, Copy, Debug, PartialEq, Eq, Structural)]
pub enum TransactionType {
    Deposit,
    Withdrawal,
    Dispute,
    Resolve,
    Chargeback,
}

/// One ledger event, and also the stored record of a funds-moving event.
///
/// `amount` is a fixed-point integer counting 1/10_000 of one currency
/// unit; it is present for deposits and withdrawals and absent for the
/// three dispute-lifecycle kinds, which reference an earlier record by
/// `transaction_id` instead of owning one. `in_dispute` matters only on
/// stored records: a dispute sets it and a resolve or chargeback clears
/// it.
#[derive(Clone, Copy, Debug)]
pub struct Transaction {
    pub transaction_type: TransactionType,
    pub client_id: ClientID,
    pub transaction_id: TransactionID,
    pub amount: Option<i64>,
    pub in_dispute: bool,
}

impl Transaction {
    /// An incoming event as constructed or parsed: any amount it carries
    /// is non-negative (validation is the producer's responsibility) and
    /// the dispute flag starts clear.
    pub open spec fn valid_input(self) -> bool {
        &&& match self.amount {
            Some(x) => x >= 0,
            None => true,
        }
        &&& !self.in_dispute
    }

    /// A stored funds-moving record always carries a non-negative amount.
    pub open spec fn valid_record(self) -> bool {
        match self.amount {
            Some(x) => x >= 0,
            None => false,
        }
    }

    pub fn new(
        transaction_type: TransactionType,
        client_id: ClientID,
        transaction_id: TransactionID,
        amount: Option<i64>,
    ) -> (t: Transaction)
        requires
            match amount {
                Some(x) => x >= 0,
                None => true,
            },
        ensures
            t == (Transaction { transaction_type, client_id, transaction_id, amount, in_dispute: false }),
            t.valid_input(),
    {
        Transaction { transaction_type, client_id, transaction_id, amount, in_dispute: false }
    }

    pub fn transaction_type(&self) -> (r: TransactionType)
        ensures
            r == self.transaction_type,
    {
        self.transaction_type
    }

    pub fn client_id(&self) -> (r: ClientID)
        ensures
            r == self.client_id,
    {
        self.client_id
    }

    pub fn transaction_id(&self) -> (r: TransactionID)
        ensures
            r == self.transaction_id,
    {
        self.transaction_id
    }

    pub fn amount(&self) -> (r: Option<i64>)
        ensures
            r == self.amount,
    {
        self.amount
    }

    pub fn in_dispute(&self) -> (r: bool)
        ensures
            r == self.in_dispute,
    {
        self.in_dispute
    }

    pub fn set_dispute(&mut self, in_dispute: bool)
        ensures
            *final(self) == (Transaction { in_dispute, ..*old(self) }),
    {
        self.in_dispute = in_dispute;
    }
}

} // verus!
