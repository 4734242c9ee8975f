//! Workspaces: several bundles below one root.

use vstd::prelude::*;
use crate::paths::{ancestors, ancestors_of, join, joined};
use crate::text::texts;

verus! {

/// The name of the file that marks the root of a workspace.
pub const WORKSPACE_FILE: &'static str = "workspace.toml";

/// The settings of a workspace.
#[derive(Clone, Debug, PartialEq, Eq)]
pub struct WorkspaceSettings {
    /// The paths of the member bundles, relative to the workspace root.
    pub members: Vec<String>,
}

/// A workspace.
#[derive(Clone, Debug, PartialEq, Eq)]
pub struct Workspace {
    /// Workspace settings.
    pub workspace: WorkspaceSettings,
}

/// Each of the paths below the base.
pub open spec fn all_joined(base: Seq<char>, children: Seq<Seq<char>>) -> Seq<Seq<char>> {
    Seq::new(children.len(), |i: int| joined(base, children[i]))
}

/// The first directory that holds what is looked for, going by what was
/// found in each: `found[i]` tells of `dirs[i]`.
pub open spec fn first_found(dirs: Seq<Seq<char>>, found: Seq<bool>, from: int) -> Option<
    Seq<char>,
>
    decreases dirs.len() - from,
{
    if from < 0 || from >= dirs.len() || from >= found.len() {
        None
    } else if found[from] {
        Some(dirs[from])
    } else {
        first_found(dirs, found, from + 1)
    }
}

impl Workspace {
    /// The members of the workspace.
    pub open spec fn members(&self) -> Seq<Seq<char>> {
        texts(self.workspace.members@)
    }

    /// Creates a workspace with the given members.
    pub fn new(members: Vec<String>) -> (ws: Workspace)
        ensures
            ws.workspace.members == members,
    {
        Workspace { workspace: WorkspaceSettings { members } }
    }

    /// The paths of all members, resolved against the workspace root.
    pub fn member_paths(&self, workspace_root: &str) -> (paths: Vec<String>)
        ensures
            texts(paths@) == all_joined(workspace_root@, self.members()),
    {
        let mut paths: Vec<String> = Vec::new();
        let mut i: usize = 0;
        while i < self.workspace.members.len()
            invariant
                i <= self.workspace.members.len(),
                paths@.len() == i,
                forall|j: int|
                    0 <= j < i ==> (#[trigger] paths@[j])@ == joined(
                        workspace_root@,
                        self.workspace.members@[j]@,
                    ),
            decreases self.workspace.members.len() - i,
        {
            paths.push(join(workspace_root, self.workspace.members[i].as_str()));
            i += 1;
        }
        assert(texts(paths@) =~= all_joined(workspace_root@, self.members()));
        paths
    }

    /// The files whose existence tells where the workspace root is: the
    /// workspace file in `start` and in each directory above it, from
    /// `start` upwards.
    pub fn candidate_files(start: &str) -> (files: Vec<String>)
        ensures
            texts(files@) == all_joined_file(ancestors_of(start@)),
    {
        let dirs = ancestors(start);
        let mut files: Vec<String> = Vec::new();
        let mut i: usize = 0;
        while i < dirs.len()
            invariant
                i <= dirs.len(),
                files@.len() == i,
                forall|j: int|
                    0 <= j < i ==> (#[trigger] files@[j])@ == joined(dirs@[j]@, WORKSPACE_FILE@),
            decreases dirs.len() - i,
        {
            files.push(join(dirs[i].as_str(), WORKSPACE_FILE));
            i += 1;
        }
        assert(texts(files@) =~= all_joined_file(texts(dirs@)));
        files
    }

    /// Finds the workspace root above `start`: the first of `start` and the
    /// directories above it that holds a workspace file. `found` tells, in
    /// the order of [`Workspace::candidate_files`], which of these files
    /// exist.
    pub fn find_root(start: &str, found: &Vec<bool>) -> (root: Option<String>)
        ensures
            (match root {
                Some(r) => Some(r@),
                None => None,
            }) == first_found(ancestors_of(start@), found@, 0),
    {
        let dirs = ancestors(start);
        let ghost wanted = first_found(texts(dirs@), found@, 0);
        let mut i: usize = 0;
        while i < dirs.len() && i < found.len()
            invariant
                i <= dirs.len(),
                i <= found.len(),
                texts(dirs@) == ancestors_of(start@),
                wanted == first_found(texts(dirs@), found@, 0),
                wanted == first_found(texts(dirs@), found@, i as int),
            decreases dirs.len() - i,
        {
            if found[i] {
                assert(texts(dirs@)[i as int] == dirs@[i as int]@);
                return Some(dirs[i].clone());
            }
            i += 1;
        }
        None
    }
}

/// The workspace file in each of the directories.
pub open spec fn all_joined_file(dirs: Seq<Seq<char>>) -> Seq<Seq<char>> {
    Seq::new(dirs.len(), |i: int| joined(dirs[i], WORKSPACE_FILE@))
}

} // verus!
