//! The workspace commands: creating a workspace and listing its members.

use vstd::prelude::*;
use crate::error::{unit_outcome, EchidnaError, ErrorModel};
use crate::text::{decimal, glue, glue3, push_decimal, push_str, string_of, texts};

verus! {

/// Arguments for the workspace init command.
#[derive(Clone, Debug)]
pub struct WorkspaceInitArgs {
    /// Directory to make a workspace of.
    pub path: String,
    /// Replace an existing workspace file.
    pub force: bool,
}

/// Arguments for the workspace list command.
#[derive(Clone, Debug)]
pub struct WorkspaceListArgs {
    /// Directory to search the workspace from.
    pub path: String,
}

/// Whether a workspace may be created where the workspace file exists or
/// not: an existing file is replaced on request only.
pub open spec fn workspace_file_check(workspace_file: Seq<char>, exists: bool, force: bool) -> Result<
    (),
    ErrorModel,
> {
    if exists && !force {
        Err(
            ErrorModel::ConfigError(
                "Workspace already exists at '"@ + workspace_file
                    + "'. Use --force to overwrite."@,
            ),
        )
    } else {
        Ok(())
    }
}

/// Whether a workspace may be created where the workspace file exists or
/// not.
pub fn check_workspace_file(workspace_file: &str, exists: bool, force: bool) -> (r: Result<
    (),
    EchidnaError,
>)
    ensures
        unit_outcome(r) == workspace_file_check(workspace_file@, exists, force),
{
    if exists && !force {
        Err(
            EchidnaError::ConfigError(
                glue3(
                    "Workspace already exists at '",
                    workspace_file,
                    "'. Use --force to overwrite.",
                ),
            ),
        )
    } else {
        Ok(())
    }
}

/// Each member as an item of a list.
pub open spec fn listed(members: Seq<Seq<char>>) -> Seq<Seq<char>> {
    Seq::new(members.len(), |i: int| "  - "@ + members[i])
}

/// The lines that tell which bundles were found in a directory.
pub open spec fn discovery(dir: Seq<char>, members: Seq<Seq<char>>) -> Seq<Seq<char>> {
    if members.len() == 0 {
        seq![
            "No bundle directories found in '"@ + dir + "'."@,
            "Creating empty workspace. Add members manually to workspace.toml."@,
        ]
    } else {
        seq![
            "Found "@ + decimal(members.len()) + (if members.len() == 1 {
                " bundle"@
            } else {
                " bundles"@
            }) + ":"@,
        ] + listed(members)
    }
}

/// The lines that tell which bundles were found in a directory.
pub fn discovery_lines(dir: &str, members: &Vec<String>) -> (lines: Vec<String>)
    ensures
        texts(lines@) == discovery(dir@, texts(members@)),
{
    let mut lines: Vec<String> = Vec::new();
    if members.len() == 0 {
        lines.push(glue3("No bundle directories found in '", dir, "'."));
        lines.push("Creating empty workspace. Add members manually to workspace.toml.".to_owned());
        assert(texts(lines@) =~= discovery(dir@, texts(members@)));
        return lines;
    }
    let mut head: Vec<char> = Vec::new();
    push_str(&mut head, "Found ");
    push_decimal(&mut head, members.len() as u64);
    if members.len() == 1 {
        push_str(&mut head, " bundle");
    } else {
        push_str(&mut head, " bundles");
    }
    push_str(&mut head, ":");
    lines.push(string_of(&head));
    let ghost start = texts(lines@);
    assert(start =~= seq![
        "Found "@ + decimal(members@.len()) + (if members@.len() == 1 {
            " bundle"@
        } else {
            " bundles"@
        }) + ":"@,
    ]);
    let mut i: usize = 0;
    assert(texts(lines@) =~= start + listed(texts(members@)).take(0));
    while i < members.len()
        invariant
            i <= members.len(),
            texts(lines@) == start + listed(texts(members@)).take(i as int),
        decreases members.len() - i,
    {
        let ghost before = texts(lines@);
        lines.push(glue("  - ", members[i].as_str()));
        assert(texts(lines@) =~= before.push("  - "@ + members@[i as int]@));
        assert(listed(texts(members@)).take(i + 1) =~= listed(texts(members@)).take(
            i as int,
        ).push("  - "@ + members@[i as int]@));
        assert(texts(lines@) =~= start + listed(texts(members@)).take(i + 1));
        i += 1;
    }
    assert(listed(texts(members@)).take(members.len() as int) =~= listed(texts(members@)));
    lines
}

/// The line of a member in the list of a workspace, marked where the
/// member has no manifest.
pub fn member_line(member: &str, has_manifest: bool) -> (line: String)
    ensures
        line@ == "  - "@ + member@ + (if has_manifest {
            ""@
        } else {
            " (not found)"@
        }),
{
    if has_manifest {
        glue3("  - ", member, "")
    } else {
        glue3("  - ", member, " (not found)")
    }
}

/// The line that heads the list of members.
pub fn members_heading(count: usize) -> (line: String)
    ensures
        line@ == "Members ("@ + decimal(count as nat) + "):"@,
{
    let mut out: Vec<char> = Vec::new();
    push_str(&mut out, "Members (");
    push_decimal(&mut out, count as u64);
    push_str(&mut out, "):");
    string_of(&out)
}

} // verus!
