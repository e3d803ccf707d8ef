use vstd::prelude::*;

verus! {

/// Identifier of a client account, assigned on first reference and never
/// reused.
pub type ClientID = u16;

/// Identifier of a funds-moving transaction; unique key for stored
/// deposit and withdrawal records.
pub type TransactionID = u32;

} // verus!
