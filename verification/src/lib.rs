//! Wire-protocol codec for a blockchain full node's peer-to-peer state-sync
//! exchange.
//!
//! The crate maps in-process domain values (contract state diffs, transaction
//! receipts) to and from their wire-schema message shapes, enforces structural
//! validity on every inbound message, and states the ordering discipline of the
//! paginated streaming response. Every conversion is a pure function: encoding
//! is total, decoding rejects malformed input with a structured error and never
//! panics.

pub mod client;
pub mod common;
pub mod error;
pub mod felt;
pub mod proto;
pub mod receipt;
pub mod rpc;
pub mod state;
pub mod stream;
