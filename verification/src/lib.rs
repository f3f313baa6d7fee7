//! Attestation-gated submission of module output.
//!
//! A host runs a measured compute module and admits the module's output into
//! an aggregation pipeline only after a hardware quote over the platform
//! state, bound to a single-use challenge nonce, has been verified against a
//! registry of authorized module measurements.

pub mod bytes;
pub mod decision;
pub mod nonce;
pub mod protocol;
pub mod quote;
pub mod registry;
pub mod report;
pub mod session;
