//! The debug command: launching ChimeraX in debug mode.

use vstd::prelude::*;
use crate::chimerax::executor::Verbosity;
use crate::text::{glue3, signed_decimal, push_signed_decimal, push_str, string_of, texts};

verus! {

/// Arguments for the debug command.
#[derive(Clone, Debug)]
pub struct DebugArgs {
    /// Project directory.
    pub path: String,
    /// Enable the Python debugger.
    pub pdb: bool,
    /// Enable profiling.
    pub profile: bool,
    /// Skip the build.
    pub no_build: bool,
    /// Skip the install.
    pub no_install: bool,
    /// Path to the ChimeraX executable.
    pub chimerax: String,
    pub verbosity: Verbosity,
}

/// The ChimeraX command that makes Python open the debugger after an
/// exception.
pub open spec fn pdb_command() -> Seq<char> {
    "runscript python -c \"import sys; import pdb; sys.excepthook = lambda *args: (pdb.post_mortem(args[2]) if args[2] else None)\""@
}

/// The arguments of ChimeraX in debug mode.
pub open spec fn debug_args(pdb: bool) -> Seq<Seq<char>> {
    if pdb {
        seq!["--debug"@, "--cmd"@, pdb_command()]
    } else {
        seq!["--debug"@]
    }
}

/// The arguments of ChimeraX in debug mode.
pub fn launch_args(pdb: bool) -> (args: Vec<String>)
    ensures
        texts(args@) == debug_args(pdb),
{
    let mut args: Vec<String> = Vec::new();
    args.push("--debug".to_owned());
    if pdb {
        args.push("--cmd".to_owned());
        args.push(
            "runscript python -c \"import sys; import pdb; sys.excepthook = lambda *args: (pdb.post_mortem(args[2]) if args[2] else None)\"".to_owned(),
        );
    }
    assert(texts(args@) =~= debug_args(pdb));
    args
}

/// One line if the condition holds, none otherwise.
pub open spec fn line_if(condition: bool, line: Seq<char>) -> Seq<Seq<char>> {
    if condition {
        seq![line]
    } else {
        Seq::empty()
    }
}

/// The lines that announce the launch and tell what debug mode offers.
pub open spec fn announcement(pdb: bool, profile: bool) -> Seq<Seq<char>> {
    seq!["=== Launching ChimeraX in Debug Mode ==="@] + line_if(
        pdb,
        "  Python debugger (pdb) enabled"@,
    ) + line_if(profile, "  Profiling enabled"@) + seq![
        ""@,
        "Debug mode features:"@,
        "  - Verbose logging enabled"@,
        "  - Stack traces on errors"@,
    ] + line_if(pdb, "  - Post-mortem debugging on exceptions"@) + line_if(
        profile,
        "  - Performance profiling active"@,
    ) + seq![""@]
}

/// The lines that announce the launch.
pub fn announce(pdb: bool, profile: bool) -> (lines: Vec<String>)
    ensures
        texts(lines@) == announcement(pdb, profile),
{
    let mut lines: Vec<String> = Vec::new();
    lines.push("=== Launching ChimeraX in Debug Mode ===".to_owned());
    if pdb {
        lines.push("  Python debugger (pdb) enabled".to_owned());
    }
    if profile {
        lines.push("  Profiling enabled".to_owned());
    }
    lines.push("".to_owned());
    lines.push("Debug mode features:".to_owned());
    lines.push("  - Verbose logging enabled".to_owned());
    lines.push("  - Stack traces on errors".to_owned());
    if pdb {
        lines.push("  - Post-mortem debugging on exceptions".to_owned());
    }
    if profile {
        lines.push("  - Performance profiling active".to_owned());
    }
    lines.push("".to_owned());
    assert(texts(lines@) =~= announcement(pdb, profile));
    lines
}

/// The line that shows the call of ChimeraX. It shows the debug flag only,
/// whatever else is handed over.
pub fn running_line(executable: &str) -> (line: String)
    ensures
        line@ == "Running: "@ + executable@ + " --debug"@,
{
    glue3("Running: ", executable, " --debug")
}

/// The line that reports how ChimeraX ended, if it did not succeed. A
/// process that was killed counts as exit code -1.
pub fn exit_line(success: bool, code: Option<i32>) -> (line: Option<String>)
    ensures
        match line {
            Some(l) => !success && l@ == "ChimeraX exited with code: "@ + signed_decimal(
                match code {
                    Some(c) => c as int,
                    None => -1,
                },
            ),
            None => success,
        },
{
    if success {
        return None;
    }
    let shown: i64 = match code {
        Some(c) => c as i64,
        None => -1,
    };
    let mut out: Vec<char> = Vec::new();
    push_str(&mut out, "ChimeraX exited with code: ");
    push_signed_decimal(&mut out, shown);
    Some(string_of(&out))
}

} // verus!
