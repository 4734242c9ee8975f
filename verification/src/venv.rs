//! A minimal virtual environment that points at the Python of ChimeraX, so
//! that editors and type checkers find the `chimerax` modules.

pub mod builder;
