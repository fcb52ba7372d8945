//! Issuance, confirmation and audit of a payment between two custodial wallets.
//!
//! The library holds the decisions of the pipeline: which wallet to create,
//! when mined funds count as matured, how a payment request is formed, where a
//! transaction stands, and how a confirmed transaction is read back into a
//! ten-field audit record. Talking to the node is left to the caller.

pub mod amount;
pub mod audit;
pub mod chain;
pub mod config;
pub mod confirmation;
pub mod error;
pub mod maturation;
pub mod payment;
pub mod record;
pub mod script;
pub mod text;
pub mod wallet;
