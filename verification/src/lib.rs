//! The rules of an asset-and-work economy game: price escalation, risk
//! accrual, the life cycle of an owned asset, work streaks and levels, a
//! business catalog, and a constant-product market between two currencies.
//!
//! Every function here is a pure transition over record snapshots and plain
//! values. The caller loads the records, supplies the clock reading and the
//! balances it has read from the ledger, and afterwards moves the tokens,
//! stores the records and publishes the returned notification.

pub mod amm;
pub mod errors;
pub mod events;
pub mod identity;
pub mod instructions;
pub mod math;
pub mod state;
