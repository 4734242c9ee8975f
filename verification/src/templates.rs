//! Project templates.

pub mod bundle;
