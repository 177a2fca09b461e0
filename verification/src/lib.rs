//! A single-account bank ledger: money types, an append-only log of
//! timestamped deposits and withdrawals, and a fixed-width statement.

pub mod amount;
pub mod balance;
pub mod bank_account;
pub mod ledger;
mod numeric;
pub mod text;
pub mod timestamp;
pub mod transaction;
