//! Conformance-harness core for checking a blockchain state-transition
//! function executed inside a zero-knowledge virtual machine guest.
//!
//! The crate holds the host/guest execution protocol: the wire envelope that
//! carries a pre-state snapshot and one operation into the guest, the closed
//! model of state-transition operations with its binary codec and dispatch
//! rules, the guest pipeline's decode stages, the digest text format the
//! guest emits, and the host's verification policy over a batch of test
//! cases. The state-transition function itself, the structural state codec
//! and the commitment function are external capabilities: the harness only
//! carries their inputs and compares their outputs.

pub mod cli;
pub mod digest;
pub mod envelope;
pub mod input;
pub mod pipeline;
pub mod policy;
pub mod snappy;
