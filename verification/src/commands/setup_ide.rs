//! The setup-ide command: an environment for editors and type checkers.

use vstd::prelude::*;
use crate::chimerax::executor::{PythonInfo, PythonModel, Verbosity};
use crate::commands::python::{first_line, leading_line};
use crate::paths::{join, joined};
use crate::text::{glue, glue3, same_text, texts};

verus! {

/// Arguments for the setup-ide command.
#[derive(Clone, Debug)]
pub struct SetupIdeArgs {
    /// Project directory.
    pub path: String,
    /// Directory of the virtual environment.
    pub output: String,
    /// Replace an existing environment.
    pub force: bool,
    /// Write no configuration files.
    pub no_config: bool,
    /// The configuration files to write; the usual ones if none is named.
    pub configs: Vec<String>,
    /// Path to the ChimeraX executable.
    pub chimerax: String,
    pub verbosity: Verbosity,
}

/// The directory of the environment: the output directory as it is if it is
/// absolute, below the project directory otherwise.
pub fn venv_path(project_root: &str, output: &str) -> (path: String)
    ensures
        path@ == joined(project_root@, output@),
{
    join(project_root, output)
}

/// Whether a name is that of a configuration type: `ty`, `ruff`, `pyright`
/// or `vscode`.
pub fn is_config_type(name: &str) -> (known: bool)
    ensures
        known == (name@ == "ty"@ || name@ == "ruff"@ || name@ == "pyright"@ || name@
            == "vscode"@),
{
    same_text(name, "ty") || same_text(name, "ruff") || same_text(name, "pyright") || same_text(
        name,
        "vscode",
    )
}

/// The warning for a configuration type that is not known.
pub fn unknown_config(name: &str) -> (line: String)
    ensures
        line@ == "Warning: Unknown config type '"@ + name@
            + "', skipping. Valid types: ty, ruff, pyright, vscode"@,
{
    glue3(
        "Warning: Unknown config type '",
        name,
        "', skipping. Valid types: ty, ruff, pyright, vscode",
    )
}

/// The lines that sum the setup up.
pub open spec fn summary(info: PythonModel, venv: Seq<char>) -> Seq<Seq<char>> {
    seq![
        ""@,
        "IDE setup complete!"@,
        ""@,
        "Python executable: "@ + info.executable,
        "Python version:    "@ + first_line(info.version),
    ] + (match info.chimerax_version {
        Some(v) => seq!["ChimeraX version:  "@ + v],
        None => Seq::empty(),
    }) + seq![
        "Venv path:         "@ + venv,
        ""@,
        "Next steps:"@,
        "  1. Select '"@ + venv + "' as your Python interpreter in your IDE"@,
        "  2. Your IDE should now recognize 'chimerax' imports"@,
        ""@,
        "Type checking:"@,
        "  ty check         # Using ty"@,
        "  ruff check .     # Using ruff"@,
    ]
}

/// The lines that sum the setup up.
pub fn summary_lines(info: &PythonInfo, venv: &str) -> (lines: Vec<String>)
    ensures
        texts(lines@) == summary(info@, venv@),
{
    let mut lines: Vec<String> = Vec::new();
    lines.push("".to_owned());
    lines.push("IDE setup complete!".to_owned());
    lines.push("".to_owned());
    lines.push(glue("Python executable: ", info.executable.as_str()));
    let version = leading_line(info.version.as_str());
    lines.push(glue("Python version:    ", version.as_str()));
    match &info.chimerax_version {
        Some(v) => {
            lines.push(glue("ChimeraX version:  ", v.as_str()));
        },
        None => {},
    }
    lines.push(glue("Venv path:         ", venv));
    lines.push("".to_owned());
    lines.push("Next steps:".to_owned());
    lines.push(glue3("  1. Select '", venv, "' as your Python interpreter in your IDE"));
    lines.push("  2. Your IDE should now recognize 'chimerax' imports".to_owned());
    lines.push("".to_owned());
    lines.push("Type checking:".to_owned());
    lines.push("  ty check         # Using ty".to_owned());
    lines.push("  ruff check .     # Using ruff".to_owned());
    assert(texts(lines@) =~= summary(info@, venv@));
    lines
}

} // verus!
