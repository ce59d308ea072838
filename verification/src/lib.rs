//! ZKThunder L2 batch settlement types for Mintlayer and the decision logic of the
//! WebSocket event relay that broadcasts mempool and chainstate events.
//!
//! - [`scale`]: the SCALE primitives (little-endian integers, compact lengths) that the
//!   consensus encoding is built from, with their byte-level specifications.
//! - [`zk`]: `ProofType`, `ZkVerificationKey`, `ZkBatchSettlementData` and their encoding.
//! - [`hex`]: lower-case hex rendering of identifiers and raw transactions.
//! - [`event_relay`]: the events sent to WebSocket clients and the relay's decisions.
//! - [`config`]: the event relay's configuration file and its merge with run options.

pub mod scale;
pub mod zk;
pub mod hex;
pub mod event_relay;
pub mod config;
