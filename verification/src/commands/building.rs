//! The build command: building the wheel and finding it afterwards.

use vstd::prelude::*;
use crate::chimerax::executor::Verbosity;
use crate::error::{EchidnaError, ErrorModel};
use crate::paths::{extension_chars, extension_of};
use crate::text::{chars_of, glue, glue3, same_chars};

verus! {

/// Arguments for the build command.
#[derive(Clone, Debug)]
pub struct BuildArgs {
    /// Project directory.
    pub path: String,
    /// Remove `build/` and `dist/` before building.
    pub clean: bool,
    /// Path to the ChimeraX executable.
    pub chimerax: String,
    pub verbosity: Verbosity,
}

/// An entry of a directory: its path and, if the file system tells, when it
/// was last modified, in any unit that grows with time.
#[derive(Clone, Debug, PartialEq, Eq)]
pub struct FileInfo {
    pub path: String,
    pub modified: Option<u64>,
}

/// The mathematical content of a [`FileInfo`].
pub struct FileModel {
    pub path: Seq<char>,
    pub modified: Option<nat>,
}

impl View for FileInfo {
    type V = FileModel;

    open spec fn view(&self) -> FileModel {
        FileModel {
            path: self.path@,
            modified: match self.modified {
                Some(t) => Some(t as nat),
                None => None,
            },
        }
    }
}

/// The models of a sequence of entries, in order.
pub open spec fn file_models(v: Seq<FileInfo>) -> Seq<FileModel> {
    Seq::new(v.len(), |i: int| v[i]@)
}

/// Whether the entry is a wheel: a file with the extension `whl`.
pub open spec fn is_wheel(entry: FileModel) -> bool {
    extension_of(entry.path) == Some("whl"@)
}

/// The age rank of an entry: its modification time, below all of which
/// stands an entry without one.
pub open spec fn recency(entry: FileModel) -> int {
    match entry.modified {
        Some(t) => t as int,
        None => -1,
    }
}

/// Whether the entry at `i` is the newest wheel: no wheel is more recent,
/// and of the wheels as recent as it, it comes first.
pub open spec fn is_newest_wheel(entries: Seq<FileModel>, i: int) -> bool {
    &&& 0 <= i < entries.len()
    &&& is_wheel(entries[i])
    &&& forall|j: int|
        0 <= j < entries.len() && is_wheel(#[trigger] entries[j]) ==> recency(entries[j])
            <= recency(entries[i])
    &&& forall|j: int|
        0 <= j < i && is_wheel(#[trigger] entries[j]) ==> recency(entries[j]) < recency(entries[i])
}

/// Whether no entry is a wheel.
pub open spec fn no_wheel(entries: Seq<FileModel>) -> bool {
    forall|j: int| 0 <= j < entries.len() ==> !is_wheel(#[trigger] entries[j])
}

/// Whether the entry is a wheel.
pub fn entry_is_wheel(entry: &FileInfo) -> (b: bool)
    ensures
        b == is_wheel(entry@),
{
    let path = chars_of(entry.path.as_str());
    match extension_chars(&path) {
        None => false,
        Some(ext) => {
            let whl = chars_of("whl");
            same_chars(&ext, &whl)
        },
    }
}

/// The age rank of an entry, shifted by one so that it is never negative.
fn rank(entry: &FileInfo) -> (r: u128)
    ensures
        r == recency(entry@) + 1,
{
    match entry.modified {
        Some(t) => t as u128 + 1,
        None => 0,
    }
}

/// The index of the newest wheel among the entries of a directory.
pub fn newest_wheel_index(entries: &Vec<FileInfo>) -> (found: Option<usize>)
    ensures
        match found {
            Some(i) => is_newest_wheel(file_models(entries@), i as int),
            None => no_wheel(file_models(entries@)),
        },
{
    let mut best: Option<usize> = None;
    let mut i: usize = 0;
    while i < entries.len()
        invariant
            i <= entries.len(),
            match best {
                Some(b) => b < i && is_newest_wheel(
                    file_models(entries@).take(i as int),
                    b as int,
                ),
                None => no_wheel(file_models(entries@).take(i as int)),
            },
        decreases entries.len() - i,
    {
        let ghost before = file_models(entries@).take(i as int);
        let ghost after = file_models(entries@).take(i + 1);
        assert(forall|j: int| 0 <= j < i ==> after[j] == before[j]);
        assert(after[i as int] == entries@[i as int]@);
        if entry_is_wheel(&entries[i]) {
            match best {
                None => {
                    best = Some(i);
                },
                Some(b) => {
                    assert(before[b as int] == entries@[b as int]@);
                    if rank(&entries[i]) > rank(&entries[b]) {
                        best = Some(i);
                    }
                },
            }
        }
        i += 1;
    }
    assert(file_models(entries@).take(entries.len() as int) =~= file_models(entries@));
    best
}

/// The path of the newest wheel among the entries of `dist/`.
pub fn find_newest_wheel(entries: &Vec<FileInfo>) -> (r: Result<String, EchidnaError>)
    ensures
        match r {
            Ok(path) => exists|i: int|
                is_newest_wheel(file_models(entries@), i) && path@ == file_models(entries@)[i].path,
            Err(e) => no_wheel(file_models(entries@)) && e@ == ErrorModel::NoWheelFound,
        },
{
    match newest_wheel_index(entries) {
        Some(i) => {
            assert(is_newest_wheel(file_models(entries@), i as int));
            Ok(entries[i].path.clone())
        },
        None => Err(EchidnaError::NoWheelFound),
    }
}

/// The directories that a clean build removes first, below the project
/// directory.
pub fn build_output_dirs() -> (dirs: Vec<String>)
    ensures
        dirs@.len() == 2,
        dirs@[0]@ == "build"@,
        dirs@[1]@ == "dist"@,
{
    let mut dirs: Vec<String> = Vec::new();
    dirs.push("build".to_owned());
    dirs.push("dist".to_owned());
    dirs
}

/// The line that tells that an output directory was removed.
pub fn removed_line(dir: &str) -> (line: String)
    ensures
        line@ == "Removed "@ + dir@ + "/"@,
{
    glue3("Removed ", dir, "/")
}

/// The line that announces the build.
pub fn building_line(project_dir: &str) -> (line: String)
    ensures
        line@ == "Building bundle in "@ + project_dir@ + "..."@,
{
    glue3("Building bundle in ", project_dir, "...")
}

/// The line that names the wheel that was built.
pub fn wheel_line(wheel: &str) -> (line: String)
    ensures
        line@ == "Wheel: "@ + wheel@,
{
    glue("Wheel: ", wheel)
}

} // verus!
