//! The run command: build, install, and start ChimeraX.

use vstd::prelude::*;
use crate::chimerax::executor::Verbosity;
use crate::paths::{join, joined};

verus! {

/// Arguments for the run command.
#[derive(Clone, Debug)]
pub struct RunArgs {
    /// Project directory.
    pub path: String,
    /// The script to run after the start.
    pub script: Option<String>,
    /// Skip the build.
    pub no_build: bool,
    /// Skip the install.
    pub no_install: bool,
    /// Run without the window.
    pub nogui: bool,
    /// Path to the ChimeraX executable.
    pub chimerax: String,
    pub verbosity: Verbosity,
}

/// The mathematical content of a [`RunArgs`], as far as the steps of the
/// command go.
pub struct RunRequest {
    pub script: Option<Seq<char>>,
    pub no_build: bool,
    pub no_install: bool,
    pub nogui: bool,
}

impl View for RunArgs {
    type V = RunRequest;

    open spec fn view(&self) -> RunRequest {
        RunRequest {
            script: match self.script {
                Some(s) => Some(s@),
                None => None,
            },
            no_build: self.no_build,
            no_install: self.no_install,
            nogui: self.nogui,
        }
    }
}

/// The script that is run where none is given, below the project
/// directory.
pub const DEFAULT_SCRIPT: &'static str = "scripts/smoke.cxc";

/// One step of the run command.
#[derive(Clone, Debug, PartialEq, Eq)]
pub enum RunStep {
    /// Build the wheel.
    Build,
    /// Install the wheel.
    Install,
    /// Run a script without the window, and wait for it.
    RunScript(String),
    /// Run a command without the window, and wait for it.
    RunCommand(String),
    /// Open the window, with a script if there is one, and do not wait.
    Launch(Option<String>),
}

/// The mathematical content of a [`RunStep`].
pub enum StepModel {
    Build,
    Install,
    RunScript(Seq<char>),
    RunCommand(Seq<char>),
    Launch(Option<Seq<char>>),
}

impl View for RunStep {
    type V = StepModel;

    open spec fn view(&self) -> StepModel {
        match self {
            RunStep::Build => StepModel::Build,
            RunStep::Install => StepModel::Install,
            RunStep::RunScript(s) => StepModel::RunScript(s@),
            RunStep::RunCommand(c) => StepModel::RunCommand(c@),
            RunStep::Launch(s) => StepModel::Launch(
                match s {
                    Some(x) => Some(x@),
                    None => None,
                },
            ),
        }
    }
}

/// The models of a sequence of steps, in order.
pub open spec fn step_models(v: Seq<RunStep>) -> Seq<StepModel> {
    Seq::new(v.len(), |i: int| v[i]@)
}

/// The script that is run: the given one, else the default script of the
/// project if it exists.
pub open spec fn chosen_script(
    script: Option<Seq<char>>,
    project_dir: Seq<char>,
    default_exists: bool,
) -> Option<Seq<char>> {
    match script {
        Some(s) => Some(s),
        None => if default_exists {
            Some(joined(project_dir, DEFAULT_SCRIPT@))
        } else {
            None
        },
    }
}

/// How ChimeraX is started: without its window it runs the script, or
/// exits at once where there is none; with its window it is launched.
pub open spec fn start_step(nogui: bool, script: Option<Seq<char>>) -> StepModel {
    if nogui {
        match script {
            Some(s) => StepModel::RunScript(s),
            None => StepModel::RunCommand("exit"@),
        }
    } else {
        StepModel::Launch(script)
    }
}

/// The steps of the run command, in order. Each step is taken only if all
/// before it succeeded.
pub open spec fn run_steps(args: RunRequest, project_dir: Seq<char>, default_exists: bool) -> Seq<
    StepModel,
> {
    (if args.no_build {
        Seq::empty()
    } else {
        seq![StepModel::Build]
    }) + (if args.no_install {
        Seq::empty()
    } else {
        seq![StepModel::Install]
    }) + seq![
        start_step(
            args.nogui,
            chosen_script(args.script, project_dir, default_exists),
        ),
    ]
}

/// The steps of the run command for the project in `project_dir`.
/// `default_exists` tells whether the default script of the project exists.
pub fn plan_run(args: &RunArgs, project_dir: &str, default_exists: bool) -> (steps: Vec<RunStep>)
    ensures
        step_models(steps@) == run_steps(args@, project_dir@, default_exists),
{
    let mut steps: Vec<RunStep> = Vec::new();
    if !args.no_build {
        steps.push(RunStep::Build);
    }
    if !args.no_install {
        steps.push(RunStep::Install);
    }
    let script: Option<String> = match &args.script {
        Some(s) => Some(s.clone()),
        None => if default_exists {
            Some(join(project_dir, DEFAULT_SCRIPT))
        } else {
            None
        },
    };
    if args.nogui {
        match script {
            Some(s) => {
                steps.push(RunStep::RunScript(s));
            },
            None => {
                steps.push(RunStep::RunCommand("exit".to_owned()));
            },
        }
    } else {
        steps.push(RunStep::Launch(script));
    }
    assert(step_models(steps@) =~= run_steps(args@, project_dir@, default_exists));
    steps
}

} // verus!
