//! Core of a secure-element driver that fronts a remote Parsec service.
//!
//! The host's PSA Crypto implementation drives a fixed table of callbacks;
//! each callback is adapted here into a request on a shared Parsec client.
//! This crate holds the verified dispatch and translation layer: the
//! status-code translation table, the slot-to-key-name mapping, the
//! provider selection run at initialization, and the per-operation
//! adapters for key management and asymmetric sign/verify. The unverified
//! ABI shim (raw pointers, the global client handle) lives outside it.

pub mod asym;
pub mod buffer;
pub mod client;
pub mod init;
pub mod key_mgmt;
pub mod name;
pub mod provider;
pub mod status;
