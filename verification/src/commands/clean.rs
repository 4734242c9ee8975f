//! The clean command: which build artifacts go.

use vstd::prelude::*;
use crate::text::{
    chars_of, decimal, ends_with, glue, has_suffix, push_decimal, push_str, same_text, string_of,
};

verus! {

/// Arguments for the clean command.
#[derive(Clone, Debug)]
pub struct CleanArgs {
    /// Project directory.
    pub path: String,
    /// Also remove the virtual environment.
    pub all: bool,
    /// Only show what would be deleted.
    pub dry_run: bool,
}

/// The directory of the virtual environment, which goes only on request.
pub const VENV_DIR: &'static str = ".venv";

/// The directories that always go, below the project directory.
pub fn clean_dirs() -> (dirs: Vec<String>)
    ensures
        dirs@.len() == 2,
        dirs@[0]@ == "build"@,
        dirs@[1]@ == "dist"@,
{
    let mut dirs: Vec<String> = Vec::new();
    dirs.push("build".to_owned());
    dirs.push("dist".to_owned());
    dirs
}

/// Whether an entry of the project directory holds the metadata of an
/// installed package: its name ends with `.egg-info`.
pub fn is_egg_info(name: &str) -> (b: bool)
    ensures
        b == ends_with(name@, ".egg-info"@),
{
    let chars = chars_of(name);
    let suffix = chars_of(".egg-info");
    has_suffix(&chars, &suffix)
}

/// What the search for bytecode caches does with a directory.
#[derive(Clone, Copy, Debug, PartialEq, Eq, Structural)]
pub enum WalkStep {
    /// The directory is a cache: it goes.
    Remove,
    /// The directory is searched in turn.
    Descend,
    /// The directory is left alone.
    Skip,
}

/// What the search for bytecode caches does with a directory of the given
/// name: a cache goes; an environment, a repository and installed node
/// modules are left alone; any other directory is searched.
pub open spec fn walk_step(name: Seq<char>) -> WalkStep {
    if name == "__pycache__"@ {
        WalkStep::Remove
    } else if name == ".venv"@ || name == ".git"@ || name == "node_modules"@ {
        WalkStep::Skip
    } else {
        WalkStep::Descend
    }
}

/// What the search for bytecode caches does with a directory.
pub fn pycache_step(name: &str) -> (step: WalkStep)
    ensures
        step == walk_step(name@),
{
    if same_text(name, "__pycache__") {
        WalkStep::Remove
    } else if same_text(name, ".venv") || same_text(name, ".git") || same_text(
        name,
        "node_modules",
    ) {
        WalkStep::Skip
    } else {
        WalkStep::Descend
    }
}

/// The line that opens the report.
pub fn header_line(dry_run: bool) -> (line: &'static str)
    ensures
        line@ == (if dry_run {
            "Dry run: showing what would be deleted..."@
        } else {
            "Cleaning build artifacts..."@
        }),
{
    if dry_run {
        "Dry run: showing what would be deleted..."
    } else {
        "Cleaning build artifacts..."
    }
}

/// The line that names a path that goes.
pub fn path_line(path: &str, dry_run: bool) -> (line: String)
    ensures
        line@ == (if dry_run {
            "  Would delete: "@
        } else {
            "  Deleting: "@
        }) + path@,
{
    if dry_run {
        glue("  Would delete: ", path)
    } else {
        glue("  Deleting: ", path)
    }
}

/// The line that closes the report, for the number of paths that went.
pub open spec fn summary_text(count: nat, dry_run: bool) -> Seq<char> {
    if count == 0 {
        "Nothing to clean."@
    } else if dry_run {
        "Would delete "@ + decimal(count)
            + " item(s). Run without --dry-run to actually delete."@
    } else {
        "Cleaned "@ + decimal(count) + " item(s)."@
    }
}

/// The line that closes the report.
pub fn summary_line(count: u64, dry_run: bool) -> (line: String)
    ensures
        line@ == summary_text(count as nat, dry_run),
{
    if count == 0 {
        return "Nothing to clean.".to_owned();
    }
    let mut out: Vec<char> = Vec::new();
    if dry_run {
        push_str(&mut out, "Would delete ");
        push_decimal(&mut out, count);
        push_str(&mut out, " item(s). Run without --dry-run to actually delete.");
    } else {
        push_str(&mut out, "Cleaned ");
        push_decimal(&mut out, count);
        push_str(&mut out, " item(s).");
    }
    assert(out@ =~= summary_text(count as nat, dry_run));
    string_of(&out)
}

} // verus!
