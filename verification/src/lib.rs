//! Rollback snapshots for failed transactions.
//!
//! When a transaction fails during execution, the runtime must still commit
//! a minimal set of account mutations: the fee debit on the fee payer and,
//! when a durable nonce was used, the advanced nonce value. This crate
//! captures that minimal snapshot at load time and exposes it to the
//! write-back and cost-accounting paths.

pub mod account;
pub mod nonce_info;
pub mod rollback;
