//! Talking to ChimeraX: where it is, and what it is asked to do.

pub mod detect;
pub mod executor;
