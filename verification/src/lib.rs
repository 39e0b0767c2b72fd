//! Token-management operations for a ledger network, as a verified core.
//!
//! The crate builds the instructions of each operation, names the signers
//! they need, assembles and compiles them into an unsigned transaction and
//! decides, step by step, what a command does next. Talking to the node,
//! signing and printing are left to the caller.

pub mod address;
pub mod amount;
pub mod commands;
pub mod handlers;
pub mod instruction;
pub mod keys;
pub mod solana_client;
pub mod table;
pub mod transactions;
