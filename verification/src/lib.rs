//! Harness and guest logic for driving single consensus state-transition
//! operations against recorded fixtures inside a deterministic execution
//! environment.
//!
//! The library holds the decision logic of both sides of that pipeline: the
//! operation input protocol and its wire framing, the fixture-directory
//! resolution conventions, the guest dispatcher's routing decisions, and the
//! dual-oracle root comparison. The per-operation state-transition algorithms
//! themselves, the protocol's canonical codec, and the execution environment
//! are external collaborators reached from the surrounding binary.

pub mod dispatch;
pub mod envelope;
pub mod fixture;
pub mod input;
pub mod operation;
pub mod oracle;
