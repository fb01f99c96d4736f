//! Durable-nonce transaction lifecycle: a file-backed registry that maps an
//! identity to its nonce account, the decoding of a nonce account's state,
//! the provisioning of a new nonce account, and the assembly of transactions
//! that carry the nonce value in place of a recent blockhash.

pub mod error;
pub mod json;
pub mod store;
pub mod registry;
pub mod address;
pub mod instruction;
pub mod signing;
pub mod message;
pub mod transaction;
pub mod query;
pub mod builder;
pub mod provision;
