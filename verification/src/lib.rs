//! A ledger of completed micro-tasks: a running count of completions and the
//! most recent completion, kept either in memory or as the two values of a
//! Soroban contract's persistent storage.

pub mod contract;
pub mod host;
pub mod ledger;
