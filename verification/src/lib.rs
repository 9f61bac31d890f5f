//! Coordination core for proof-carrying processes that run one-per-ledger.
//!
//! A process lives on its own single-writer ledger. Every advance of its
//! state must be justified by an externally checked proof, and may require
//! bookkeeping before (confirm a spawned child, consume a queued message)
//! and after (spawn a child, send a message) the proof-checked step.
//!
//! The crate verifies the bookkeeping: the single-slot pending-spawn record,
//! the FIFO message queue, and the transition state machine that sequences
//! pre-action validation, the opaque program step, and post-action dispatch.
//! The program-step oracle and the chain-lifecycle gateway are outside
//! collaborators; a driver performs their calls and feeds the results back
//! in as plain values.

pub mod actions;
pub mod coordinator;
pub mod errors;
pub mod ids;
pub mod ledger;
pub mod paired;
pub mod state;
