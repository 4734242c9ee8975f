//! The watch command: rebuilding a bundle whenever its sources change.
//!
//! The decisions of a watch session are those of the orchestrator. Here is
//! what belongs to the command: the choice of the pipeline mode, the
//! arguments of the stages, and the lines of the report.

use vstd::prelude::*;
use crate::chimerax::executor::Verbosity;
use crate::commands::building::BuildArgs;
use crate::commands::install::InstallArgs;
use crate::commands::run::RunArgs;
use crate::commands::testing::TestArgs;
use crate::paths::{join, joined, relative_to, strip_base};
use crate::text::{glue, glue3, texts};
use crate::watch::filter::{ChangeEvent, WatchScope};
use crate::watch::pipeline::{err_line, out_line, LineModel, PipelineMode, ReportLine};

verus! {

/// Arguments for the watch command.
#[derive(Clone, Debug)]
pub struct WatchArgs {
    /// Project directory.
    pub path: String,
    /// Launch ChimeraX after each build.
    pub run: bool,
    /// Run the tests after each build.
    pub test: bool,
    /// Path to the ChimeraX executable.
    pub chimerax: String,
    pub verbosity: Verbosity,
}

/// The pipeline mode that the flags select. The flags exclude each other;
/// should both be set, launching comes first.
pub open spec fn selected_mode(run: bool, test: bool) -> PipelineMode {
    if run {
        PipelineMode::BuildInstallRun
    } else if test {
        PipelineMode::BuildInstallTest
    } else {
        PipelineMode::BuildInstall
    }
}

/// How a mode is named to the user.
pub open spec fn mode_text(mode: PipelineMode) -> Seq<char> {
    match mode {
        PipelineMode::BuildInstall => "Mode: build + install"@,
        PipelineMode::BuildInstallRun => "Mode: build + install + run ChimeraX"@,
        PipelineMode::BuildInstallTest => "Mode: build + install + test"@,
    }
}

/// The lines that open a watch session, down to the heading of the first
/// build.
pub open spec fn opening(project_dir: Seq<char>, mode: PipelineMode) -> Seq<Seq<char>> {
    seq![
        "Watching for changes in: "@ + project_dir,
        "Press Ctrl+C to stop"@,
        ""@,
        mode_text(mode),
        ""@,
        "=== Initial Build ==="@,
    ]
}

/// The lines that name the changed paths that lie below the project
/// directory, each relative to it.
pub open spec fn changed(paths: Seq<Seq<char>>, project_dir: Seq<char>) -> Seq<Seq<char>>
    decreases paths.len(),
{
    if paths.len() == 0 {
        Seq::empty()
    } else {
        match relative_to(paths.last(), project_dir) {
            Some(rest) => changed(paths.drop_last(), project_dir).push("  Changed: "@ + rest),
            None => changed(paths.drop_last(), project_dir),
        }
    }
}

/// The lines that announce a change.
pub open spec fn announcement(paths: Seq<Seq<char>>, project_dir: Seq<char>) -> Seq<Seq<char>> {
    seq![""@, "=== Change Detected ==="@] + changed(paths, project_dir)
}

/// The paths to watch: each watched entry below the root.
pub open spec fn targets(root: Seq<char>, entries: Seq<Seq<char>>) -> Seq<Seq<char>> {
    Seq::new(entries.len(), |i: int| joined(root, entries[i]))
}

/// The line that reports the registration of a watch: a warning if it
/// failed, with the reason.
pub open spec fn registration(path: Seq<char>, failure: Option<Seq<char>>) -> LineModel {
    match failure {
        Some(reason) => err_line("Warning: Failed to watch "@ + path + ": "@ + reason),
        None => out_line("Watching: "@ + path),
    }
}

impl WatchArgs {
    /// The pipeline mode that the flags select.
    pub fn mode(&self) -> (mode: PipelineMode)
        ensures
            mode == selected_mode(self.run, self.test),
    {
        if self.run {
            PipelineMode::BuildInstallRun
        } else if self.test {
            PipelineMode::BuildInstallTest
        } else {
            PipelineMode::BuildInstall
        }
    }

    /// The arguments of the build stage: no cleaning first.
    pub fn build_args(&self, project_dir: &str) -> (args: BuildArgs)
        ensures
            args.path@ == project_dir@,
            !args.clean,
            args.chimerax@ == self.chimerax@,
            args.verbosity == self.verbosity,
    {
        BuildArgs {
            path: project_dir.to_owned(),
            clean: false,
            chimerax: self.chimerax.clone(),
            verbosity: self.verbosity,
        }
    }

    /// The arguments of the install stage: the newest wheel, for all users.
    pub fn install_args(&self, project_dir: &str) -> (args: InstallArgs)
        ensures
            args.path@ == project_dir@,
            args.wheel.is_none(),
            !args.user,
            args.chimerax@ == self.chimerax@,
            args.verbosity == self.verbosity,
    {
        InstallArgs {
            path: project_dir.to_owned(),
            wheel: None,
            user: false,
            chimerax: self.chimerax.clone(),
            verbosity: self.verbosity,
        }
    }

    /// The arguments of the run stage: what was built and installed is
    /// launched with its window, without a script of its own.
    pub fn run_args(&self, project_dir: &str) -> (args: RunArgs)
        ensures
            args.path@ == project_dir@,
            args.script.is_none(),
            args.no_build,
            args.no_install,
            !args.nogui,
            args.chimerax@ == self.chimerax@,
            args.verbosity == self.verbosity,
    {
        RunArgs {
            path: project_dir.to_owned(),
            script: None,
            no_build: true,
            no_install: true,
            nogui: false,
            chimerax: self.chimerax.clone(),
            verbosity: self.verbosity,
        }
    }

    /// The arguments of the test stage: all tests of what was built and
    /// installed, without coverage.
    pub fn test_args(&self, project_dir: &str) -> (args: TestArgs)
        ensures
            args.path@ == project_dir@,
            args.filter.is_none(),
            !args.verbose,
            args.no_build,
            args.no_install,
            !args.coverage,
            args.pytest_args@.len() == 0,
            args.chimerax@ == self.chimerax@,
            args.verbosity == self.verbosity,
    {
        TestArgs {
            path: project_dir.to_owned(),
            filter: None,
            verbose: false,
            no_build: true,
            no_install: true,
            coverage: false,
            pytest_args: Vec::new(),
            chimerax: self.chimerax.clone(),
            verbosity: self.verbosity,
        }
    }
}

/// How a mode is named to the user.
pub fn mode_line(mode: PipelineMode) -> (line: &'static str)
    ensures
        line@ == mode_text(mode),
{
    match mode {
        PipelineMode::BuildInstall => "Mode: build + install",
        PipelineMode::BuildInstallRun => "Mode: build + install + run ChimeraX",
        PipelineMode::BuildInstallTest => "Mode: build + install + test",
    }
}

/// The lines that open a watch session.
pub fn opening_lines(project_dir: &str, mode: PipelineMode) -> (lines: Vec<String>)
    ensures
        texts(lines@) == opening(project_dir@, mode),
{
    let mut lines: Vec<String> = Vec::new();
    lines.push(glue("Watching for changes in: ", project_dir));
    lines.push("Press Ctrl+C to stop".to_owned());
    lines.push("".to_owned());
    lines.push(mode_line(mode).to_owned());
    lines.push("".to_owned());
    lines.push("=== Initial Build ===".to_owned());
    assert(texts(lines@) =~= opening(project_dir@, mode));
    lines
}

/// The lines that announce the change that an event reports.
pub fn change_lines(event: &ChangeEvent, project_dir: &str) -> (lines: Vec<String>)
    ensures
        texts(lines@) == announcement(event@.paths, project_dir@),
{
    let mut lines: Vec<String> = Vec::new();
    lines.push("".to_owned());
    lines.push("=== Change Detected ===".to_owned());
    let ghost head = texts(lines@);
    assert(head =~= seq![""@, "=== Change Detected ==="@]);
    let mut i: usize = 0;
    assert(event@.paths.take(0) =~= Seq::<Seq<char>>::empty());
    assert(texts(lines@) =~= head + changed(event@.paths.take(0), project_dir@));
    while i < event.paths.len()
        invariant
            i <= event.paths.len(),
            texts(lines@) == head + changed(event@.paths.take(i as int), project_dir@),
        decreases event.paths.len() - i,
    {
        let ghost before = texts(lines@);
        let ghost upto = event@.paths.take(i + 1);
        assert(upto.drop_last() =~= event@.paths.take(i as int));
        assert(upto.last() == event.paths@[i as int]@);
        match strip_base(event.paths[i].as_str(), project_dir) {
            Some(rest) => {
                lines.push(glue("  Changed: ", rest.as_str()));
                assert(texts(lines@) =~= before.push("  Changed: "@ + rest@));
                assert(texts(lines@) =~= head + changed(upto, project_dir@));
            },
            None => {},
        }
        i += 1;
    }
    assert(event@.paths.take(event.paths.len() as int) =~= event@.paths);
    lines
}

/// The paths to watch, in watch order: each watched entry of the scope
/// below its root.
pub fn watch_targets(scope: &WatchScope) -> (paths: Vec<String>)
    ensures
        texts(paths@) == targets(scope@.root, scope@.watched_entries),
{
    let mut paths: Vec<String> = Vec::new();
    let mut i: usize = 0;
    while i < scope.watched_entries.len()
        invariant
            i <= scope.watched_entries.len(),
            paths@.len() == i,
            forall|j: int|
                0 <= j < i ==> (#[trigger] paths@[j])@ == joined(
                    scope.root@,
                    scope.watched_entries@[j]@,
                ),
        decreases scope.watched_entries.len() - i,
    {
        paths.push(join(scope.root.as_str(), scope.watched_entries[i].as_str()));
        i += 1;
    }
    assert(texts(paths@) =~= targets(scope@.root, scope@.watched_entries));
    paths
}

/// Whether a path is watched with all that lies below it: a directory is, a
/// file is not.
pub fn watched_recursively(is_dir: bool) -> (recursive: bool)
    ensures
        recursive == is_dir,
{
    is_dir
}

/// The line that reports the registration of a watch. A failure is a
/// warning: the other paths are watched all the same.
pub fn registration_line(path: &str, failure: Option<&str>) -> (line: ReportLine)
    ensures
        line@ == registration(
            path@,
            match failure {
                Some(r) => Some(r@),
                None => None,
            },
        ),
{
    match failure {
        Some(reason) => {
            let head = glue3("Warning: Failed to watch ", path, ": ");
            let text = glue(head.as_str(), reason);
            assert(text@ =~= "Warning: Failed to watch "@ + path@ + ": "@ + reason@);
            ReportLine { error: true, text }
        },
        None => ReportLine { error: false, text: glue("Watching: ", path) },
    }
}

/// The line that reports a failure of the event source, which ends the
/// session.
pub fn watch_error_line(reason: &str) -> (line: ReportLine)
    ensures
        line@ == err_line("Watch error: "@ + reason@),
{
    ReportLine { error: true, text: glue("Watch error: ", reason) }
}

/// The lines that tell that the session waits for the next change.
pub fn waiting_lines() -> (lines: Vec<String>)
    ensures
        texts(lines@) == seq![""@, "Waiting for changes..."@],
{
    let mut lines: Vec<String> = Vec::new();
    lines.push("".to_owned());
    lines.push("Waiting for changes...".to_owned());
    assert(texts(lines@) =~= seq![""@, "Waiting for changes..."@]);
    lines
}

} // verus!
