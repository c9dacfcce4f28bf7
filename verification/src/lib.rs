//! Verification protocol of a cross-chain message relay: a replica that
//! mirrors the committed message history of a remote network and admits
//! messages for delivery once they are proven to belong to that history.

pub mod types;
pub mod encoding;
pub mod crypto;
pub mod merkle;
pub mod replica;
pub mod laws;
pub mod ledger;
pub mod calls;
