//! A minimal ledger-style crowdfunding contract, split into three layers:
//!
//! - [`identifier`]: fixed-width byte-array value types (a 16-byte account
//!   identifier and a 32-byte content hash) with validated construction,
//!   byte-wise equality, ordering and hashing, a stable binary encoding, and
//!   an all-zero "clear" sentinel for the hash type.
//! - [`env`]: the environment configuration abstraction that binds the
//!   concrete identifier, balance, hash, timestamp and block-number types a
//!   deployment uses, together with the maximum number of indexed event
//!   topics.
//! - [`registry`]: the crowdfunding campaign registry and its single message
//!   handler, which records campaigns, reacts to the outcome of the host's
//!   value-transfer primitive, and produces the event to emit.
//!
//! The hosting runtime (the node that executes the deployed contract and
//! supplies the caller identity, block data, transfer primitive and event
//! sink) is an external collaborator; it interacts with this library through
//! plain values only.

pub mod env;
pub mod identifier;
pub mod registry;
