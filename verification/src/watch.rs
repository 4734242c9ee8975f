//! The incremental rebuild orchestrator.
//!
//! File-system notifications pass through the event filter and the debouncer;
//! what is left starts one run of the build pipeline. The control loop that
//! ties them together is a state machine: its owner performs the actions it
//! asks for and feeds back what happened.

pub mod debounce;
pub mod filter;
pub mod orchestrator;
pub mod pipeline;
