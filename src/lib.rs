//! Custody rules of a token treasury program: derived account addresses,
//! fixed-layout account records, linear vesting, and the per-instruction
//! validation that decides what a transaction may change.

pub mod account;
pub mod address;
pub mod derivation;
pub mod error;
pub mod instruction;
pub mod name;
pub mod processor;
pub mod snapshot;
pub mod token;
