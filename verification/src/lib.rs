//! Development workflow automation for ChimeraX bundles.

pub mod chimerax;
pub mod commands;
pub mod config;
pub mod document;
pub mod error;
pub mod paths;
pub mod templates;
pub mod text;
pub mod unicode;
pub mod venv;
pub mod watch;
pub mod workspace;
