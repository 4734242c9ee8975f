//! The install command: which wheel is installed, and how.

use vstd::prelude::*;
use crate::chimerax::executor::Verbosity;
use crate::error::{EchidnaError, ErrorModel};
use crate::text::{glue, glue3};

verus! {

/// Arguments for the install command.
#[derive(Clone, Debug)]
pub struct InstallArgs {
    /// Project directory.
    pub path: String,
    /// The wheel to install; the newest in `dist/` if none is given.
    pub wheel: Option<String>,
    /// Install for the user only.
    pub user: bool,
    /// Path to the ChimeraX executable.
    pub chimerax: String,
    pub verbosity: Verbosity,
}

/// The error for a wheel that was asked for and does not exist.
pub fn missing_wheel(wheel: &str) -> (e: EchidnaError)
    ensures
        e@ == ErrorModel::Io("Wheel not found: "@ + wheel@),
{
    EchidnaError::Io(glue("Wheel not found: ", wheel))
}

/// The lines that announce the installation.
pub fn installing_lines(wheel: &str, user: bool) -> (lines: Vec<String>)
    ensures
        lines@.len() == (if user {
            2int
        } else {
            1int
        }),
        lines@[0]@ == "Installing "@ + wheel@ + "..."@,
        user ==> lines@[1]@ == "Installing as user bundle"@,
{
    let mut lines: Vec<String> = Vec::new();
    lines.push(glue3("Installing ", wheel, "..."));
    if user {
        lines.push("Installing as user bundle".to_owned());
    }
    lines
}

} // verus!
