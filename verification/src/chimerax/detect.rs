//! Finding the ChimeraX executable.
//!
//! The places to look at are computed here. Looking at them is left to the
//! caller, who reports what it found; the choice among the finds is made
//! here again.

use vstd::prelude::*;
use crate::paths::{extension, extension_of, join, joined};
use crate::text::{same_text, texts};
use crate::unicode::lowercase_text;

verus! {

/// The operating systems that ChimeraX is installed on.
#[derive(Clone, Copy, Debug, PartialEq, Eq, Structural)]
pub enum Platform {
    MacOs,
    Windows,
    Linux,
    /// Any other system: nothing is known of where ChimeraX would be.
    Other,
}

/// `dirs::home_dir` returns the home directory of the current user, if the
/// system knows one. It depends on the environment of the process, so
/// nothing is stated of it.
#[verifier::external_body]
fn home_dir() -> Option<String> {
    dirs::home_dir().map(|p| p.to_string_lossy().into_owned())
}

/// The paths below the home directory at which ChimeraX is installed by
/// default, relative to it.
pub open spec fn home_relative_paths(platform: Platform) -> Seq<Seq<char>> {
    match platform {
        Platform::MacOs => seq!["Applications/ChimeraX.app/Contents/MacOS/ChimeraX"@],
        Platform::Linux => seq!["ChimeraX/bin/chimerax"@, ".local/bin/chimerax"@],
        Platform::Windows => Seq::empty(),
        Platform::Other => Seq::empty(),
    }
}

/// The paths at which ChimeraX is installed by default for all users.
pub open spec fn system_paths(platform: Platform) -> Seq<Seq<char>> {
    match platform {
        Platform::MacOs => seq!["/Applications/ChimeraX.app/Contents/MacOS/ChimeraX"@],
        Platform::Windows => seq![
            "C:\\Program Files\\ChimeraX\\bin\\ChimeraX-console.exe"@,
            "C:\\Program Files\\ChimeraX\\bin\\chimerax.exe"@,
        ],
        Platform::Linux => seq![
            "/usr/bin/chimerax"@,
            "/usr/local/bin/chimerax"@,
            "/opt/UCSF/ChimeraX/bin/chimerax"@,
        ],
        Platform::Other => Seq::empty(),
    }
}

/// The default installation paths: those for all users, then those below
/// the home directory, if there is one.
pub open spec fn default_path_list(platform: Platform, home: Option<Seq<char>>) -> Seq<Seq<char>> {
    match home {
        None => system_paths(platform),
        Some(h) => system_paths(platform) + Seq::new(
            home_relative_paths(platform).len(),
            |i: int| joined(h, home_relative_paths(platform)[i]),
        ),
    }
}

/// The default installation paths of a platform, for the given home
/// directory.
pub fn default_paths_with_home(platform: Platform, home: Option<&str>) -> (paths: Vec<String>)
    ensures
        texts(paths@) == default_path_list(
            platform,
            match home {
                Some(h) => Some(h@),
                None => None,
            },
        ),
{
    let mut paths: Vec<String> = Vec::new();
    match platform {
        Platform::MacOs => {
            paths.push("/Applications/ChimeraX.app/Contents/MacOS/ChimeraX".to_owned());
        },
        Platform::Windows => {
            paths.push("C:\\Program Files\\ChimeraX\\bin\\ChimeraX-console.exe".to_owned());
            paths.push("C:\\Program Files\\ChimeraX\\bin\\chimerax.exe".to_owned());
        },
        Platform::Linux => {
            paths.push("/usr/bin/chimerax".to_owned());
            paths.push("/usr/local/bin/chimerax".to_owned());
            paths.push("/opt/UCSF/ChimeraX/bin/chimerax".to_owned());
        },
        Platform::Other => {},
    }
    assert(texts(paths@) =~= system_paths(platform));
    match home {
        None => {},
        Some(h) => {
            match platform {
                Platform::MacOs => {
                    paths.push(join(h, "Applications/ChimeraX.app/Contents/MacOS/ChimeraX"));
                },
                Platform::Linux => {
                    paths.push(join(h, "ChimeraX/bin/chimerax"));
                    paths.push(join(h, ".local/bin/chimerax"));
                },
                Platform::Windows => {},
                Platform::Other => {},
            }
            assert(texts(paths@) =~= default_path_list(platform, Some(h@)));
        },
    }
    paths
}

/// The default installation paths of a platform for the current user:
/// those for all users first.
pub fn default_paths(platform: Platform) -> (paths: Vec<String>)
    ensures
        exists|home: Option<Seq<char>>| texts(paths@) == default_path_list(platform, home),
{
    let home = home_dir();
    match home {
        Some(h) => {
            let paths = default_paths_with_home(platform, Some(h.as_str()));
            assert(texts(paths@) == default_path_list(platform, Some(h@)));
            paths
        },
        None => {
            let paths = default_paths_with_home(platform, None);
            assert(texts(paths@) == default_path_list(platform, None));
            paths
        },
    }
}

/// Whether a lowercase extension is that of a program on Windows.
pub open spec fn is_program_extension(lower: Seq<char>) -> bool {
    lower == "exe"@ || lower == "bat"@ || lower == "cmd"@
}

/// Whether a lowercase extension is that of a program on Windows.
pub fn program_extension(lower: &str) -> (b: bool)
    ensures
        b == is_program_extension(lower@),
{
    same_text(lower, "exe") || same_text(lower, "bat") || same_text(lower, "cmd")
}

/// Whether the name of a file says that Windows can execute it: its
/// extension is `exe`, `bat` or `cmd`, in any case of the letters.
pub fn has_executable_extension(path: &str) -> (b: bool)
    ensures
        b == (match extension_of(path@) {
            Some(ext) => is_program_extension(lowercase_text(ext)),
            None => false,
        }),
{
    match extension(path) {
        None => false,
        Some(ext) => {
            let lower = ext.as_str().to_lowercase();
            program_extension(lower.as_str())
        },
    }
}

/// A place where ChimeraX may be, and whether an executable was found there.
#[derive(Clone, Debug, PartialEq, Eq)]
pub struct Candidate {
    pub path: String,
    /// Whether the path exists and can be executed.
    pub usable: bool,
}

/// The mathematical content of a [`Candidate`].
pub struct CandidateModel {
    pub path: Seq<char>,
    pub usable: bool,
}

impl View for Candidate {
    type V = CandidateModel;

    open spec fn view(&self) -> CandidateModel {
        CandidateModel { path: self.path@, usable: self.usable }
    }
}

/// The models of a sequence of candidates, in order.
pub open spec fn candidate_models(v: Seq<Candidate>) -> Seq<CandidateModel> {
    Seq::new(v.len(), |i: int| v[i]@)
}

/// The first usable candidate from `from` on.
pub open spec fn first_usable(candidates: Seq<CandidateModel>, from: int) -> Option<Seq<char>>
    decreases candidates.len() - from,
{
    if from < 0 || from >= candidates.len() {
        None
    } else if candidates[from].usable {
        Some(candidates[from].path)
    } else {
        first_usable(candidates, from + 1)
    }
}

/// The executable that detection settles on: the one that the environment
/// names, if it is usable; else the one found on the search path; else the
/// first usable default installation.
pub open spec fn selected(
    from_environment: Option<CandidateModel>,
    on_search_path: Option<Seq<char>>,
    defaults: Seq<CandidateModel>,
) -> Option<Seq<char>> {
    if from_environment.is_some() && from_environment.unwrap().usable {
        Some(from_environment.unwrap().path)
    } else if on_search_path.is_some() {
        on_search_path
    } else {
        first_usable(defaults, 0)
    }
}

/// Chooses the ChimeraX executable among what was found.
pub fn select_chimerax(
    from_environment: Option<&Candidate>,
    on_search_path: Option<&str>,
    defaults: &Vec<Candidate>,
) -> (chosen: Option<String>)
    ensures
        (match chosen {
            Some(path) => Some(path@),
            None => None,
        }) == selected(
            match from_environment {
                Some(c) => Some(c@),
                None => None,
            },
            match on_search_path {
                Some(p) => Some(p@),
                None => None,
            },
            candidate_models(defaults@),
        ),
{
    match from_environment {
        Some(c) => {
            if c.usable {
                return Some(c.path.clone());
            }
        },
        None => {},
    }
    match on_search_path {
        Some(p) => {
            return Some(p.to_owned());
        },
        None => {},
    }
    let ghost wanted = first_usable(candidate_models(defaults@), 0);
    let mut i: usize = 0;
    while i < defaults.len()
        invariant
            i <= defaults.len(),
            wanted == selected(
                match from_environment {
                    Some(c) => Some(c@),
                    None => None,
                },
                match on_search_path {
                    Some(p) => Some(p@),
                    None => None,
                },
                candidate_models(defaults@),
            ),
            wanted == first_usable(candidate_models(defaults@), i as int),
        decreases defaults.len() - i,
    {
        assert(candidate_models(defaults@)[i as int] == defaults@[i as int]@);
        if defaults[i].usable {
            return Some(defaults[i].path.clone());
        }
        i += 1;
    }
    None
}

} // verus!
