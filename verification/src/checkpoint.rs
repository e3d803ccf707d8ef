use vstd::prelude::*;

use crate::transaction_processor::AccountsMap;
use crate::transaction_processor::TransactionsMap;

verus! {

/// A snapshot of the whole engine state after `line` input records,
/// taken periodically so a run can be recovered after a crash. Writing
/// it to durable storage is the surrounding program's concern, best
/// effort only, and never part of the engine's consistency model.
pub struct Checkpoint {
    pub line: u32,
    pub accounts: AccountsMap,
    pub transactions: TransactionsMap,
}

} // verus!
