//! The pipeline runner: build, install, then run or test.
//!
//! Each stage is one blocking call into a collaborator outside this library.
//! A [`PipelineRun`] decides which stage comes next and collects what each
//! reported; its owner performs the stage and records the result.

use vstd::prelude::*;
use crate::text::{push_str, string_of};

verus! {

/// Which stages a pipeline run has.
#[derive(Clone, Copy, Debug, PartialEq, Eq, Structural)]
pub enum PipelineMode {
    /// Build and install.
    BuildInstall,
    /// Build, install and launch the host application.
    BuildInstallRun,
    /// Build, install and run the test suite.
    BuildInstallTest,
}

/// One step of the pipeline.
#[derive(Clone, Copy, Debug, PartialEq, Eq, Structural)]
pub enum Stage {
    Build,
    Install,
    Run,
    Test,
}

/// How a stage ended.
#[derive(Clone, Debug, PartialEq, Eq)]
pub enum StageStatus {
    /// The collaborator reported success.
    Success,
    /// The collaborator reported a failure, with its reason.
    Failed(String),
}

/// What one stage of one pipeline run reported.
#[derive(Clone, Debug, PartialEq, Eq)]
pub struct StageOutcome {
    pub stage: Stage,
    pub status: StageStatus,
}

/// The mathematical content of a [`StageStatus`].
pub enum StatusModel {
    Success,
    Failed(Seq<char>),
}

/// The mathematical content of a [`StageOutcome`].
pub struct OutcomeModel {
    pub stage: Stage,
    pub status: StatusModel,
}

impl View for StageStatus {
    type V = StatusModel;

    open spec fn view(&self) -> StatusModel {
        match self {
            StageStatus::Success => StatusModel::Success,
            StageStatus::Failed(reason) => StatusModel::Failed(reason@),
        }
    }
}

impl View for StageOutcome {
    type V = OutcomeModel;

    open spec fn view(&self) -> OutcomeModel {
        OutcomeModel { stage: self.stage, status: self.status@ }
    }
}

/// The models of a sequence of outcomes, in order.
pub open spec fn outcome_models(v: Seq<StageOutcome>) -> Seq<OutcomeModel> {
    Seq::new(v.len(), |i: int| v[i]@)
}

/// The stage that follows a successful install.
pub open spec fn final_stage(mode: PipelineMode) -> Option<Stage> {
    match mode {
        PipelineMode::BuildInstall => None,
        PipelineMode::BuildInstallRun => Some(Stage::Run),
        PipelineMode::BuildInstallTest => Some(Stage::Test),
    }
}

/// The stage that follows `stage`, if any: a failed build or install ends
/// the run, and nothing follows a launch or a test run.
pub open spec fn stage_after(mode: PipelineMode, stage: Stage, succeeded: bool) -> Option<Stage> {
    match stage {
        Stage::Build => if succeeded {
            Some(Stage::Install)
        } else {
            None
        },
        Stage::Install => if succeeded {
            final_stage(mode)
        } else {
            None
        },
        Stage::Run => None,
        Stage::Test => None,
    }
}

/// The stage to perform after the outcomes so far; `None` when the run is
/// over.
pub open spec fn next_stage_of(mode: PipelineMode, outcomes: Seq<OutcomeModel>) -> Option<Stage> {
    if outcomes.len() == 0 {
        Some(Stage::Build)
    } else {
        stage_after(mode, outcomes.last().stage, outcomes.last().status is Success)
    }
}

/// Whether each outcome belongs to the stage that was due when it was
/// recorded.
pub open spec fn orderly(mode: PipelineMode, outcomes: Seq<OutcomeModel>) -> bool {
    forall|i: int|
        0 <= i < outcomes.len() ==> next_stage_of(mode, outcomes.take(i)) == Some(
            (#[trigger] outcomes[i]).stage,
        )
}

/// Whether a failure of the stage fails the run. A failed launch and a
/// failed test run are reported and nothing more.
pub open spec fn is_gating(stage: Stage) -> bool {
    stage == Stage::Build || stage == Stage::Install
}

/// The stage and the reason of the last outcome, if it is a failure.
pub open spec fn last_failure(outcomes: Seq<OutcomeModel>) -> Option<(Stage, Seq<char>)> {
    if outcomes.len() > 0 {
        match outcomes.last().status {
            StatusModel::Failed(reason) => Some((outcomes.last().stage, reason)),
            StatusModel::Success => None,
        }
    } else {
        None
    }
}

/// The reason for which the run failed, if it did: that of its last outcome,
/// if that is the failure of a gating stage.
pub open spec fn run_failure(outcomes: Seq<OutcomeModel>) -> Option<Seq<char>> {
    match last_failure(outcomes) {
        Some((stage, reason)) => if is_gating(stage) {
            Some(reason)
        } else {
            None
        },
        None => None,
    }
}

/// What stands before the reason of a failure of the stage.
pub open spec fn failure_heading(stage: Stage, initial: bool) -> Seq<char> {
    match stage {
        Stage::Run => "Launch failed: "@,
        Stage::Test => "Tests failed: "@,
        _ => if initial {
            "Initial build failed: "@
        } else {
            "Build failed: "@
        },
    }
}

/// A line of a report, for the standard output or for the standard error.
#[derive(Clone, Debug, PartialEq, Eq)]
pub struct ReportLine {
    /// Whether the line belongs on the standard error.
    pub error: bool,
    pub text: String,
}

/// The mathematical content of a [`ReportLine`].
pub struct LineModel {
    pub error: bool,
    pub text: Seq<char>,
}

impl View for ReportLine {
    type V = LineModel;

    open spec fn view(&self) -> LineModel {
        LineModel { error: self.error, text: self.text@ }
    }
}

/// The models of a sequence of report lines, in order.
pub open spec fn line_models(v: Seq<ReportLine>) -> Seq<LineModel> {
    Seq::new(v.len(), |i: int| v[i]@)
}

/// A line for the standard output.
pub open spec fn out_line(text: Seq<char>) -> LineModel {
    LineModel { error: false, text }
}

/// A line for the standard error.
pub open spec fn err_line(text: Seq<char>) -> LineModel {
    LineModel { error: true, text }
}

/// What is printed before a stage starts.
pub open spec fn stage_banner(stage: Stage) -> Seq<LineModel> {
    match stage {
        Stage::Build => Seq::empty(),
        Stage::Install => Seq::empty(),
        Stage::Run => seq![out_line(""@), out_line("=== Launching ChimeraX ==="@)],
        Stage::Test => seq![out_line(""@), out_line("=== Running Tests ==="@)],
    }
}

/// What is printed when a run is over. A failure is named with its reason;
/// a run that did not fail is complete, whatever its launch or its tests
/// came to.
pub open spec fn completion_report(outcomes: Seq<OutcomeModel>, initial: bool) -> Seq<LineModel> {
    match last_failure(outcomes) {
        Some((stage, reason)) => if is_gating(stage) {
            seq![err_line(failure_heading(stage, initial) + reason)]
        } else {
            seq![
                err_line(failure_heading(stage, initial) + reason),
                out_line(""@),
                out_line("Build complete!"@),
            ]
        },
        None => seq![out_line(""@), out_line("Build complete!"@)],
    }
}

/// The mathematical content of a [`PipelineRun`].
pub struct RunModel {
    pub mode: PipelineMode,
    pub outcomes: Seq<OutcomeModel>,
}

/// One invocation of the pipeline.
#[derive(Debug)]
pub struct PipelineRun {
    mode: PipelineMode,
    outcomes: Vec<StageOutcome>,
}

impl View for PipelineRun {
    type V = RunModel;

    closed spec fn view(&self) -> RunModel {
        RunModel { mode: self.mode, outcomes: outcome_models(self.outcomes@) }
    }
}

impl PipelineRun {
    /// Whether every outcome was recorded for the stage that was due.
    pub open spec fn well_formed(&self) -> bool {
        orderly(self@.mode, self@.outcomes)
    }

    /// A run of which no stage has been performed yet.
    pub fn start(mode: PipelineMode) -> (run: PipelineRun)
        ensures
            run@ == (RunModel { mode, outcomes: Seq::empty() }),
            run.well_formed(),
    {
        let run = PipelineRun { mode, outcomes: Vec::new() };
        assert(outcome_models(run.outcomes@) =~= Seq::empty());
        run
    }

    /// The mode of the run.
    pub fn mode(&self) -> (mode: PipelineMode)
        ensures
            mode == self@.mode,
    {
        self.mode
    }

    /// The stage to perform now; `None` when the run is over.
    pub fn next_stage(&self) -> (stage: Option<Stage>)
        ensures
            stage == next_stage_of(self@.mode, self@.outcomes),
    {
        let n = self.outcomes.len();
        if n == 0 {
            return Some(Stage::Build);
        }
        let last = &self.outcomes[n - 1];
        assert(self@.outcomes.last() == last@);
        let succeeded = match last.status {
            StageStatus::Success => true,
            StageStatus::Failed(_) => false,
        };
        match last.stage {
            Stage::Build => if succeeded {
                Some(Stage::Install)
            } else {
                None
            },
            Stage::Install => if succeeded {
                match self.mode {
                    PipelineMode::BuildInstall => None,
                    PipelineMode::BuildInstallRun => Some(Stage::Run),
                    PipelineMode::BuildInstallTest => Some(Stage::Test),
                }
            } else {
                None
            },
            Stage::Run => None,
            Stage::Test => None,
        }
    }

    /// Whether the run is over.
    pub fn is_finished(&self) -> (finished: bool)
        ensures
            finished == next_stage_of(self@.mode, self@.outcomes).is_none(),
    {
        self.next_stage().is_none()
    }

    /// Records how the stage that was due ended. Nothing is recorded once
    /// the run is over.
    pub fn record(&mut self, status: StageStatus)
        requires
            old(self).well_formed(),
        ensures
            final(self).well_formed(),
            final(self)@.mode == old(self)@.mode,
            final(self)@.outcomes == (match next_stage_of(old(self)@.mode, old(self)@.outcomes) {
                Some(stage) => old(self)@.outcomes.push(OutcomeModel { stage, status: status@ }),
                None => old(self)@.outcomes,
            }),
    {
        match self.next_stage() {
            None => {},
            Some(stage) => {
                let ghost before = self@.outcomes;
                let ghost added = OutcomeModel { stage, status: status@ };
                self.outcomes.push(StageOutcome { stage, status });
                proof {
                    assert(self@.outcomes =~= before.push(added));
                    assert forall|i: int| 0 <= i < self@.outcomes.len() implies next_stage_of(
                        self@.mode,
                        self@.outcomes.take(i),
                    ) == Some((#[trigger] self@.outcomes[i]).stage) by {
                        if i < before.len() {
                            assert(self@.outcomes.take(i) =~= before.take(i));
                            assert(self@.outcomes[i] == before[i]);
                        } else {
                            assert(self@.outcomes.take(i) =~= before);
                        }
                    }
                }
            },
        }
    }

    /// What the stages reported so far, in the order they were performed.
    pub fn outcomes(&self) -> (outcomes: &Vec<StageOutcome>)
        ensures
            outcome_models(outcomes@) == self@.outcomes,
    {
        &self.outcomes
    }

    /// What the stages reported, in the order they were performed.
    pub fn into_outcomes(self) -> (outcomes: Vec<StageOutcome>)
        ensures
            outcome_models(outcomes@) == self@.outcomes,
    {
        self.outcomes
    }

    /// The reason for which the run failed, if it did.
    pub fn failure(&self) -> (reason: Option<String>)
        ensures
            match reason {
                Some(r) => run_failure(self@.outcomes) == Some(r@),
                None => run_failure(self@.outcomes).is_none(),
            },
    {
        match last_failed(&self.outcomes) {
            Some((stage, reason)) => {
                match stage {
                    Stage::Build => Some(reason),
                    Stage::Install => Some(reason),
                    _ => None,
                }
            },
            None => None,
        }
    }

    /// What is printed when the run is over.
    pub fn report(&self, initial: bool) -> (lines: Vec<ReportLine>)
        ensures
            line_models(lines@) == completion_report(self@.outcomes, initial),
    {
        report_of(&self.outcomes, initial)
    }
}

/// The stage and the reason of the last outcome, if it is a failure.
fn last_failed(outcomes: &Vec<StageOutcome>) -> (failure: Option<(Stage, String)>)
    ensures
        match failure {
            Some((stage, reason)) => last_failure(outcome_models(outcomes@)) == Some(
                (stage, reason@),
            ),
            None => last_failure(outcome_models(outcomes@)).is_none(),
        },
{
    let n = outcomes.len();
    if n == 0 {
        return None;
    }
    let last = &outcomes[n - 1];
    assert(outcome_models(outcomes@).last() == last@);
    match &last.status {
        StageStatus::Success => None,
        StageStatus::Failed(reason) => Some((last.stage, reason.clone())),
    }
}

/// A line for the standard output.
fn out(text: &str) -> (line: ReportLine)
    ensures
        line@ == out_line(text@),
{
    ReportLine { error: false, text: text.to_owned() }
}

/// A line for the standard error made of a heading and a reason.
fn failure_line(heading: &str, reason: &String) -> (line: ReportLine)
    ensures
        line@ == err_line(heading@ + reason@),
{
    let mut text: Vec<char> = Vec::new();
    push_str(&mut text, heading);
    push_str(&mut text, reason.as_str());
    assert(text@ =~= heading@ + reason@);
    ReportLine { error: true, text: string_of(&text) }
}

/// What is printed before a stage starts.
pub fn banner(stage: Stage) -> (lines: Vec<ReportLine>)
    ensures
        line_models(lines@) == stage_banner(stage),
{
    let mut lines: Vec<ReportLine> = Vec::new();
    match stage {
        Stage::Build => {},
        Stage::Install => {},
        Stage::Run => {
            lines.push(out(""));
            lines.push(out("=== Launching ChimeraX ==="));
        },
        Stage::Test => {
            lines.push(out(""));
            lines.push(out("=== Running Tests ==="));
        },
    }
    assert(line_models(lines@) =~= stage_banner(stage));
    lines
}

/// What is printed when a run with these outcomes is over.
pub fn report_of(outcomes: &Vec<StageOutcome>, initial: bool) -> (lines: Vec<ReportLine>)
    ensures
        line_models(lines@) == completion_report(outcome_models(outcomes@), initial),
{
    let mut lines: Vec<ReportLine> = Vec::new();
    match last_failed(outcomes) {
        Some((stage, reason)) => {
            match stage {
                Stage::Run => {
                    lines.push(failure_line("Launch failed: ", &reason));
                    lines.push(out(""));
                    lines.push(out("Build complete!"));
                },
                Stage::Test => {
                    lines.push(failure_line("Tests failed: ", &reason));
                    lines.push(out(""));
                    lines.push(out("Build complete!"));
                },
                _ => {
                    if initial {
                        lines.push(failure_line("Initial build failed: ", &reason));
                    } else {
                        lines.push(failure_line("Build failed: ", &reason));
                    }
                },
            }
        },
        None => {
            lines.push(out(""));
            lines.push(out("Build complete!"));
        },
    }
    assert(line_models(lines@) =~= completion_report(outcome_models(outcomes@), initial));
    lines
}

/// The stages of an orderly run come in the fixed order: build, install,
/// then the stage that the mode adds.
pub proof fn lemma_stage_order(mode: PipelineMode, outcomes: Seq<OutcomeModel>)
    requires
        orderly(mode, outcomes),
    ensures
        outcomes.len() <= 3,
        outcomes.len() > 0 ==> outcomes[0].stage == Stage::Build,
        outcomes.len() > 1 ==> outcomes[1].stage == Stage::Install,
        outcomes.len() > 2 ==> final_stage(mode) == Some(outcomes[2].stage),
{
    if outcomes.len() > 0 {
        assert(outcomes.take(0) =~= Seq::empty());
        assert(outcomes[0].stage == Stage::Build);
    }
    if outcomes.len() > 1 {
        assert(outcomes.take(1).last() == outcomes[0]);
        assert(outcomes[1].stage == Stage::Install);
    }
    if outcomes.len() > 2 {
        assert(outcomes.take(2).last() == outcomes[1]);
        assert(final_stage(mode) == Some(outcomes[2].stage));
    }
    if outcomes.len() > 3 {
        assert(outcomes.take(3).last() == outcomes[2]);
        assert(next_stage_of(mode, outcomes.take(3)) == Some(outcomes[3].stage));
        assert(false);
    }
}

/// Nothing follows a failed stage: in an orderly run a failure is the last
/// outcome, and no stage is due after it.
pub proof fn lemma_failure_ends_run(mode: PipelineMode, outcomes: Seq<OutcomeModel>, i: int)
    requires
        orderly(mode, outcomes),
        0 <= i < outcomes.len(),
        outcomes[i].status is Failed,
    ensures
        i == outcomes.len() - 1,
        next_stage_of(mode, outcomes).is_none(),
{
    if i + 1 < outcomes.len() {
        assert(outcomes.take(i + 1).last() == outcomes[i]);
        assert(next_stage_of(mode, outcomes.take(i + 1)) == Some(outcomes[i + 1].stage));
        assert(false);
    }
}

/// When the build fails, the build is the only stage performed: neither
/// install nor launch nor tests are asked for.
pub proof fn lemma_failed_build_stops_run(mode: PipelineMode, outcomes: Seq<OutcomeModel>)
    requires
        orderly(mode, outcomes),
        outcomes.len() > 0,
        outcomes[0].status is Failed,
    ensures
        outcomes.len() == 1,
        outcomes[0].stage == Stage::Build,
        next_stage_of(mode, outcomes).is_none(),
{
    lemma_failure_ends_run(mode, outcomes, 0);
    lemma_stage_order(mode, outcomes);
}

/// When the install fails, neither launch nor tests are asked for.
pub proof fn lemma_failed_install_stops_run(mode: PipelineMode, outcomes: Seq<OutcomeModel>)
    requires
        orderly(mode, outcomes),
        outcomes.len() > 1,
        outcomes[1].status is Failed,
    ensures
        outcomes.len() == 2,
        outcomes[1].stage == Stage::Install,
        next_stage_of(mode, outcomes).is_none(),
{
    lemma_failure_ends_run(mode, outcomes, 1);
    lemma_stage_order(mode, outcomes);
}

/// A run in which every stage succeeds performs build and install, and then
/// the stage that the mode adds.
pub proof fn lemma_successful_run_is_complete(mode: PipelineMode, outcomes: Seq<OutcomeModel>)
    requires
        orderly(mode, outcomes),
        next_stage_of(mode, outcomes).is_none(),
        forall|i: int| 0 <= i < outcomes.len() ==> (#[trigger] outcomes[i]).status is Success,
    ensures
        outcomes.len() == (if final_stage(mode).is_some() {
            3int
        } else {
            2int
        }),
{
    lemma_stage_order(mode, outcomes);
    if outcomes.len() > 0 {
        assert(outcomes.last() == outcomes[outcomes.len() - 1]);
        assert(outcomes.last().status is Success);
    }
}

/// What each collaborator reports when it is asked.
pub struct Collaborators {
    pub build: StatusModel,
    pub install: StatusModel,
    pub run: StatusModel,
    pub test: StatusModel,
}

impl Collaborators {
    /// What the collaborator of a stage reports.
    pub open spec fn report(self, stage: Stage) -> StatusModel {
        match stage {
            Stage::Build => self.build,
            Stage::Install => self.install,
            Stage::Run => self.run,
            Stage::Test => self.test,
        }
    }

    /// The outcome of a stage.
    pub open spec fn outcome(self, stage: Stage) -> OutcomeModel {
        OutcomeModel { stage, status: self.report(stage) }
    }
}

/// The outcomes of one pipeline run, in order: the build; the install if
/// the build succeeded; and, if the install succeeded too, the stage that
/// the mode adds.
pub open spec fn run_outcomes(mode: PipelineMode, c: Collaborators) -> Seq<OutcomeModel> {
    if !(c.build is Success) {
        seq![c.outcome(Stage::Build)]
    } else if !(c.install is Success) {
        seq![c.outcome(Stage::Build), c.outcome(Stage::Install)]
    } else {
        match final_stage(mode) {
            Some(last) => seq![
                c.outcome(Stage::Build),
                c.outcome(Stage::Install),
                c.outcome(last),
            ],
            None => seq![c.outcome(Stage::Build), c.outcome(Stage::Install)],
        }
    }
}

/// A run that is over holds exactly the outcomes of one pipeline run, when
/// each recorded status is what the collaborator of the stage reported.
pub proof fn lemma_finished_run(mode: PipelineMode, outcomes: Seq<OutcomeModel>, c: Collaborators)
    requires
        orderly(mode, outcomes),
        next_stage_of(mode, outcomes).is_none(),
        forall|i: int|
            0 <= i < outcomes.len() ==> (#[trigger] outcomes[i]).status == c.report(
                outcomes[i].stage,
            ),
    ensures
        outcomes == run_outcomes(mode, c),
{
    lemma_stage_order(mode, outcomes);
    assert(outcomes.len() > 0);
    assert(outcomes[0] == c.outcome(Stage::Build));
    if !(c.build is Success) {
        lemma_failure_ends_run(mode, outcomes, 0);
        assert(outcomes =~= run_outcomes(mode, c));
    } else {
        assert(outcomes.len() > 1) by {
            if outcomes.len() == 1 {
                assert(outcomes.last() == outcomes[0]);
            }
        }
        assert(outcomes[1] == c.outcome(Stage::Install));
        if !(c.install is Success) {
            lemma_failure_ends_run(mode, outcomes, 1);
            assert(outcomes =~= run_outcomes(mode, c));
        } else {
            match final_stage(mode) {
                Some(last) => {
                    assert(outcomes.len() > 2) by {
                        if outcomes.len() == 2 {
                            assert(outcomes.last() == outcomes[1]);
                        }
                    }
                    assert(outcomes[2] == c.outcome(last));
                    assert(outcomes =~= run_outcomes(mode, c));
                },
                None => {
                    assert(outcomes.len() == 2);
                    assert(outcomes =~= run_outcomes(mode, c));
                },
            }
        }
    }
}

} // verus!
