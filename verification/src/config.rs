//! The configuration of the tool, as `echidna.toml` gives it.

use vstd::prelude::*;
use crate::paths::{ancestors, ancestors_of, join, joined};
use crate::text::texts;

verus! {

/// The name of the configuration file.
pub const CONFIG_FILE_NAME: &'static str = "echidna.toml";

/// Configuration from `echidna.toml`.
#[derive(Clone, Debug, PartialEq, Eq)]
pub struct Config {
    /// Bundle name, such as `ChimeraX-Example`.
    pub bundle_name: Option<String>,
    /// Python package name, such as `chimerax.example`.
    pub package_name: Option<String>,
    /// Path to the ChimeraX executable.
    pub chimerax_path: Option<String>,
    /// The script that the run command runs by default.
    pub default_script: Option<String>,
    /// Whether bundles are installed for the user by default.
    pub user_install: bool,
}

impl Default for Config {
    fn default() -> (config: Config)
        ensures
            config.bundle_name.is_none(),
            config.package_name.is_none(),
            config.chimerax_path.is_none(),
            config.default_script.is_none(),
            !config.user_install,
    {
        Config {
            bundle_name: None,
            package_name: None,
            chimerax_path: None,
            default_script: None,
            user_install: false,
        }
    }
}

/// The configuration file in each of the directories.
pub open spec fn config_files(dirs: Seq<Seq<char>>) -> Seq<Seq<char>> {
    Seq::new(dirs.len(), |i: int| joined(dirs[i], CONFIG_FILE_NAME@))
}

/// The first of two optional texts that is given.
pub open spec fn first_given(a: Option<Seq<char>>, b: Option<Seq<char>>) -> Option<Seq<char>> {
    match a {
        Some(x) => Some(x),
        None => b,
    }
}

/// The content of an optional string.
pub open spec fn optional_text(s: Option<String>) -> Option<Seq<char>> {
    match s {
        Some(x) => Some(x@),
        None => None,
    }
}

impl Config {
    /// The files that may hold the configuration for work in `start`: the
    /// configuration file in `start` and in each directory above it, from
    /// `start` upwards. The first that exists counts.
    pub fn candidate_files(start: &str) -> (files: Vec<String>)
        ensures
            texts(files@) == config_files(ancestors_of(start@)),
    {
        let dirs = ancestors(start);
        let mut files: Vec<String> = Vec::new();
        let mut i: usize = 0;
        while i < dirs.len()
            invariant
                i <= dirs.len(),
                files@.len() == i,
                forall|j: int|
                    0 <= j < i ==> (#[trigger] files@[j])@ == joined(dirs@[j]@, CONFIG_FILE_NAME@),
            decreases dirs.len() - i,
        {
            files.push(join(dirs[i].as_str(), CONFIG_FILE_NAME));
            i += 1;
        }
        assert(texts(files@) =~= config_files(texts(dirs@)));
        files
    }

    /// The ChimeraX executable that is asked for: the one of the command
    /// line before the one of the configuration. `None` leaves the choice
    /// to detection.
    pub fn chimerax_choice(&self, command_line: Option<&str>) -> (path: Option<String>)
        ensures
            optional_text(path) == first_given(
                match command_line {
                    Some(p) => Some(p@),
                    None => None,
                },
                optional_text(self.chimerax_path),
            ),
    {
        match command_line {
            Some(p) => Some(p.to_owned()),
            None => match &self.chimerax_path {
                Some(p) => Some(p.clone()),
                None => None,
            },
        }
    }

    /// The script to run: the one of the command line before the default of
    /// the configuration.
    pub fn script_choice(&self, command_line: Option<&str>) -> (path: Option<String>)
        ensures
            optional_text(path) == first_given(
                match command_line {
                    Some(p) => Some(p@),
                    None => None,
                },
                optional_text(self.default_script),
            ),
    {
        match command_line {
            Some(p) => Some(p.to_owned()),
            None => match &self.default_script {
                Some(p) => Some(p.clone()),
                None => None,
            },
        }
    }

    /// Whether a bundle is installed for the user: if the command line or
    /// the configuration says so.
    pub fn user_install_choice(&self, command_line: bool) -> (user: bool)
        ensures
            user == (command_line || self.user_install),
    {
        command_line || self.user_install
    }
}

} // verus!
