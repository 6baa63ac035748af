//! A single-node blockchain ledger simulation: an append-only block chain
//! with a pluggable consensus gate, an account-balance state machine with
//! atomic transfers, a Merkle commitment over transaction hashes, a
//! gas-metered stack virtual machine for contract calls, and a bounded
//! security-event log.

pub mod block;
pub mod chain;
pub mod clock;
pub mod contract;
pub mod digest;
pub mod ledger;
pub mod merkle;
pub mod monitor;
pub mod text;
pub mod transaction;
pub mod vm;
