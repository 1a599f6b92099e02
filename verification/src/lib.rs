//! Core decision logic of a proof-of-stake ledger: a registry of staked
//! validators, a weighted selection rule, a pool of pending transfers, and a
//! hash-chained block assembler.

pub mod block;
pub mod bytes;
pub mod crypto;
pub mod errors;
pub mod ledger;
pub mod registry;
pub mod select;
pub mod tx;
