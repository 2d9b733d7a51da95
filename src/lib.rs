//! Accounting core of a fungible-token ledger: balances, allowances, fees,
//! an outbox of audit records, and snapshots across a restart.
//!
//! Amounts are `u128`. An operation whose result would not fit is refused
//! with `TxError::Other` before anything changes.

pub mod account;
pub mod entries;
pub mod store;
pub mod types;
pub mod outbox;
pub mod ledger;
pub mod queries;
pub mod admin;
pub mod snapshot;
pub mod laws;
