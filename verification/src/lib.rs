//! A single-pass ledger replay engine: applies an ordered stream of
//! financial events (deposit, withdrawal, dispute, resolve, chargeback)
//! to per-client accounts and proves the balance and dispute-lifecycle
//! rules that govern every transition.
//!
//! Money is held as fixed-point integers counting 1/10_000 of one
//! currency unit, so balances are exact and the arithmetic is verified
//! free of overflow: an amount the balances cannot absorb is rejected
//! like any other inapplicable event, never wrapped or truncated.

pub mod account;
pub mod checkpoint;
pub mod id;
pub mod lemmas;
pub mod transaction;
pub mod transaction_processor;
