use echidna::commands::watch::{change_lines, opening_lines};
use echidna::watch::debounce::{DebounceState, DEBOUNCE_WINDOW_MILLIS};
use echidna::watch::filter::{ChangeEvent, ChangeKind, WatchScope};
use echidna::watch::orchestrator::{LoopAction, LoopState, Orchestrator};
use echidna::watch::pipeline::{
    banner, report_of, PipelineMode, PipelineRun, ReportLine, Stage, StageOutcome, StageStatus,
};

fn event(kind: ChangeKind, path: &str, at: u64) -> ChangeEvent {
    ChangeEvent { kind, paths: vec![path.to_string()], timestamp: at }
}

fn failed(reason: &str) -> StageStatus {
    StageStatus::Failed(reason.to_string())
}

fn out(text: &str) -> ReportLine {
    ReportLine { error: false, text: text.to_string() }
}

fn err(text: &str) -> ReportLine {
    ReportLine { error: true, text: text.to_string() }
}

/// Runs the pipeline with the given result for each stage; returns the run and the stages that
/// were invoked.
fn drive(mode: PipelineMode, results: &dyn Fn(Stage) -> StageStatus) -> (PipelineRun, Vec<Stage>) {
    let mut run = PipelineRun::start(mode);
    let mut invoked = Vec::new();
    while let Some(stage) = run.next_stage() {
        invoked.push(stage);
        run.record(results(stage));
    }
    (run, invoked)
}

/// A watch session with a clock: feeds events, runs each triggered pipeline for `build_millis`.
struct Session {
    loop_: Orchestrator,
    printed: Vec<String>,
    invocations: usize,
    build_millis: u64,
    results: fn(Stage) -> StageStatus,
}

impl Session {
    fn new(mode: PipelineMode, build_millis: u64, results: fn(Stage) -> StageStatus) -> Session {
        let scope = WatchScope::for_project("/project");
        let mut session = Session {
            loop_: Orchestrator::start(scope, mode, DEBOUNCE_WINDOW_MILLIS),
            printed: opening_lines("/project", mode),
            invocations: 0,
            build_millis,
            results,
        };
        assert_eq!(session.loop_.next_action(), LoopAction::RunPipeline);
        session.run_pipeline(0);
        session
    }

    fn run_pipeline(&mut self, now: u64) {
        assert_eq!(self.loop_.state(), LoopState::Running);
        self.invocations += 1;
        let initial = self.loop_.is_initial_run();
        let (run, _) = drive(self.loop_.mode(), &self.results);
        for line in run.report(initial) {
            self.printed.push(line.text);
        }
        self.loop_.pipeline_finished(now + self.build_millis, run.failure().is_some());
        assert_eq!(self.loop_.next_action(), LoopAction::AwaitEvent);
    }

    fn deliver(&mut self, event: &ChangeEvent) -> bool {
        let now = event.timestamp;
        if !self.loop_.on_event(event, now) {
            assert_eq!(self.loop_.state(), LoopState::Idle);
            return false;
        }
        assert_eq!(self.loop_.next_action(), LoopAction::AnnounceChange);
        self.printed.extend(change_lines(event, "/project"));
        self.loop_.announced();
        assert_eq!(self.loop_.next_action(), LoopAction::RunPipeline);
        self.run_pipeline(now);
        true
    }

    fn count(&self, line: &str) -> usize {
        self.printed.iter().filter(|l| l.as_str() == line).count()
    }
}

fn all_succeed(_: Stage) -> StageStatus {
    StageStatus::Success
}

fn build_fails(stage: Stage) -> StageStatus {
    match stage {
        Stage::Build => StageStatus::Failed("compiler said no".to_string()),
        _ => StageStatus::Success,
    }
}

fn tests_fail(stage: Stage) -> StageStatus {
    match stage {
        Stage::Test => StageStatus::Failed("Tests failed with exit code 1".to_string()),
        _ => StageStatus::Success,
    }
}

#[test]
fn debouncer_suppresses_inside_the_window() {
    let state = DebounceState::new(500, 1000);
    assert!(!state.should_trigger(1000));
    assert!(!state.should_trigger(1499));
    assert!(state.should_trigger(1500));
    assert!(state.should_trigger(9000));
    // An instant before the reference is inside the window.
    assert!(!state.should_trigger(999));
    assert!(!DebounceState::new(0, 1000).should_trigger(999));
    assert!(DebounceState::new(0, 1000).should_trigger(1000));
}

#[test]
fn debouncer_restarts_at_completion() {
    let mut state = DebounceState::new(500, 0);
    assert!(state.should_trigger(600));
    state.mark_completed(700);
    assert_eq!(state, DebounceState { window: 500, reference_instant: 700 });
    assert!(!state.should_trigger(1199));
    assert!(state.should_trigger(1200));
}

#[test]
fn debounce_window_is_half_a_second() {
    assert_eq!(DEBOUNCE_WINDOW_MILLIS, 500);
}

#[test]
fn stages_run_in_fixed_order() {
    let (run, invoked) = drive(PipelineMode::BuildInstall, &all_succeed);
    assert_eq!(invoked, vec![Stage::Build, Stage::Install]);
    assert!(run.is_finished());
    let (_, invoked) = drive(PipelineMode::BuildInstallRun, &all_succeed);
    assert_eq!(invoked, vec![Stage::Build, Stage::Install, Stage::Run]);
    let (run, invoked) = drive(PipelineMode::BuildInstallTest, &all_succeed);
    assert_eq!(invoked, vec![Stage::Build, Stage::Install, Stage::Test]);
    assert_eq!(
        run.into_outcomes(),
        vec![
            StageOutcome { stage: Stage::Build, status: StageStatus::Success },
            StageOutcome { stage: Stage::Install, status: StageStatus::Success },
            StageOutcome { stage: Stage::Test, status: StageStatus::Success },
        ]
    );
}

#[test]
fn failed_build_stops_the_pipeline() {
    for mode in [
        PipelineMode::BuildInstall,
        PipelineMode::BuildInstallRun,
        PipelineMode::BuildInstallTest,
    ] {
        let (run, invoked) = drive(mode, &build_fails);
        assert_eq!(invoked, vec![Stage::Build]);
        assert_eq!(
            run.outcomes(),
            &vec![StageOutcome { stage: Stage::Build, status: failed("compiler said no") }]
        );
        assert_eq!(run.failure(), Some("compiler said no".to_string()));
        assert_eq!(run.mode(), mode);
    }
}

#[test]
fn failed_install_stops_the_pipeline() {
    let results = |stage: Stage| match stage {
        Stage::Install => failed("no wheel"),
        _ => StageStatus::Success,
    };
    let (run, invoked) = drive(PipelineMode::BuildInstallTest, &results);
    assert_eq!(invoked, vec![Stage::Build, Stage::Install]);
    assert_eq!(run.failure(), Some("no wheel".to_string()));
    assert_eq!(run.report(false), vec![err("Build failed: no wheel")]);
    assert_eq!(run.report(true), vec![err("Initial build failed: no wheel")]);
}

#[test]
fn failed_launch_is_reported_and_the_run_completes() {
    let results = |stage: Stage| match stage {
        Stage::Run => failed("cannot spawn"),
        _ => StageStatus::Success,
    };
    let (run, invoked) = drive(PipelineMode::BuildInstallRun, &results);
    assert_eq!(invoked, vec![Stage::Build, Stage::Install, Stage::Run]);
    assert_eq!(run.failure(), None);
    assert_eq!(
        run.report(true),
        vec![err("Launch failed: cannot spawn"), out(""), out("Build complete!")]
    );
}

#[test]
fn failed_tests_are_reported_and_the_run_completes() {
    let (run, invoked) = drive(PipelineMode::BuildInstallTest, &tests_fail);
    assert_eq!(invoked, vec![Stage::Build, Stage::Install, Stage::Test]);
    assert_eq!(run.failure(), None);
    assert_eq!(
        run.report(false),
        vec![
            err("Tests failed: Tests failed with exit code 1"),
            out(""),
            out("Build complete!"),
        ]
    );
}

#[test]
fn successful_run_is_complete() {
    let (run, _) = drive(PipelineMode::BuildInstallRun, &all_succeed);
    assert_eq!(run.report(false), vec![out(""), out("Build complete!")]);
    assert_eq!(report_of(&vec![], true), vec![out(""), out("Build complete!")]);
}

#[test]
fn nothing_is_recorded_after_the_end() {
    let (mut run, _) = drive(PipelineMode::BuildInstall, &all_succeed);
    run.record(failed("late"));
    assert_eq!(run.outcomes().len(), 2);
    assert_eq!(run.failure(), None);
}

#[test]
fn banners_precede_launch_and_tests() {
    assert!(banner(Stage::Build).is_empty());
    assert!(banner(Stage::Install).is_empty());
    assert_eq!(banner(Stage::Run), vec![out(""), out("=== Launching ChimeraX ===")]);
    assert_eq!(banner(Stage::Test), vec![out(""), out("=== Running Tests ===")]);
}

#[test]
fn initial_run_is_unconditional() {
    let scope = WatchScope::for_project("/project");
    let mut o = Orchestrator::start(scope, PipelineMode::BuildInstall, 500);
    assert_eq!(o.state(), LoopState::Running);
    assert_eq!(o.next_action(), LoopAction::RunPipeline);
    assert!(o.is_initial_run());
    // No event is looked at before the first run is over.
    assert!(!o.on_event(&event(ChangeKind::Modified, "/project/src/a.py", 10_000), 10_000));
    assert_eq!(o.state(), LoopState::Running);
    o.pipeline_finished(100, true);
    assert_eq!(o.state(), LoopState::Idle);
    assert!(!o.is_initial_run());
    assert_eq!(o.scope().root, "/project");
}

#[test]
fn inputs_that_do_not_fit_the_state_change_nothing() {
    let scope = WatchScope::for_project("/project");
    let mut o = Orchestrator::start(scope, PipelineMode::BuildInstall, 500);
    o.announced();
    assert_eq!(o.state(), LoopState::Running);
    o.pipeline_finished(0, false);
    o.pipeline_finished(5_000, false);
    assert_eq!(o.state(), LoopState::Idle);
    // The second completion did not move the reference instant.
    assert!(o.on_event(&event(ChangeKind::Modified, "src/a.py", 500), 500));
    assert_eq!(o.state(), LoopState::Triggering);
    o.pipeline_finished(600, false);
    assert_eq!(o.state(), LoopState::Triggering);
    assert!(!o.on_event(&event(ChangeKind::Modified, "src/a.py", 9_000), 9_000));
    o.announced();
    assert_eq!(o.state(), LoopState::Running);
}

#[test]
fn closed_channel_stops_the_loop_for_good() {
    let scope = WatchScope::for_project("/project");
    let mut o = Orchestrator::start(scope, PipelineMode::BuildInstall, 500);
    o.pipeline_finished(0, false);
    o.channel_closed();
    assert_eq!(o.state(), LoopState::Stopped);
    assert_eq!(o.next_action(), LoopAction::Exit);
    assert!(!o.on_event(&event(ChangeKind::Modified, "src/a.py", 9_000), 9_000));
    o.announced();
    o.pipeline_finished(9_000, false);
    assert_eq!(o.state(), LoopState::Stopped);
}

#[test]
fn irrelevant_and_early_events_are_dropped() {
    let mut s = Session::new(PipelineMode::BuildInstall, 0, all_succeed);
    assert!(!s.deliver(&event(ChangeKind::Modified, "/project/notes.txt", 10_000)));
    assert!(!s.deliver(&event(ChangeKind::Other, "/project/src/a.py", 10_000)));
    assert!(!s.deliver(&event(ChangeKind::Modified, "/project/src/a.py", 499)));
    assert!(s.deliver(&event(ChangeKind::Modified, "/project/src/a.py", 500)));
    assert_eq!(s.invocations, 2);
}

#[test]
fn two_modifications_two_millis_apart_run_once() {
    let mut s = Session::new(PipelineMode::BuildInstall, 100, all_succeed);
    let before = s.invocations;
    s.deliver(&event(ChangeKind::Modified, "/project/src/cmd.py", 2_000));
    s.deliver(&event(ChangeKind::Modified, "/project/src/cmd.py", 2_002));
    assert_eq!(s.invocations - before, 1);

    // The same with a pipeline that takes no time at all.
    let mut s = Session::new(PipelineMode::BuildInstall, 0, all_succeed);
    let before = s.invocations;
    s.deliver(&event(ChangeKind::Modified, "/project/src/cmd.py", 2_000));
    s.deliver(&event(ChangeKind::Modified, "/project/src/cmd.py", 2_002));
    assert_eq!(s.invocations - before, 1);
}

#[test]
fn burst_of_five_creations_rebuilds_once() {
    let mut s = Session::new(PipelineMode::BuildInstall, 3, all_succeed);
    let before = s.invocations;
    let mut triggered = Vec::new();
    for (i, at) in [1_000u64, 1_002, 1_005, 1_007, 1_010].iter().enumerate() {
        let path = format!("/project/src/file{}.py", i);
        triggered.push(s.deliver(&event(ChangeKind::Created, &path, *at)));
    }
    assert_eq!(triggered, vec![true, false, false, false, false]);
    assert_eq!(s.invocations - before, 1);
    // Once the window has passed since the run completed, the next event rebuilds.
    assert!(!s.deliver(&event(ChangeKind::Created, "/project/src/late.py", 1_502)));
    assert!(s.deliver(&event(ChangeKind::Created, "/project/src/late.py", 1_503)));
}

#[test]
fn events_during_the_quiet_period_after_a_long_build_are_dropped() {
    let mut s = Session::new(PipelineMode::BuildInstall, 2_000, all_succeed);
    // The initial run completed at 2000.
    assert!(!s.deliver(&event(ChangeKind::Modified, "/project/src/a.py", 2_400)));
    assert!(s.deliver(&event(ChangeKind::Modified, "/project/src/a.py", 2_500)));
    // That run completed at 4500.
    assert!(!s.deliver(&event(ChangeKind::Modified, "/project/src/a.py", 4_999)));
    assert!(s.deliver(&event(ChangeKind::Modified, "/project/src/a.py", 5_000)));
}

#[test]
fn failed_build_never_invokes_later_stages_in_a_session() {
    let mut s = Session::new(PipelineMode::BuildInstallTest, 0, build_fails);
    assert_eq!(s.count("Initial build failed: compiler said no"), 1);
    assert!(s.deliver(&event(ChangeKind::Modified, "/project/src/a.py", 1_000)));
    assert_eq!(s.count("Build failed: compiler said no"), 1);
    assert_eq!(s.count("Build complete!"), 0);
    assert_eq!(s.loop_.state(), LoopState::Idle);
}

#[test]
fn failing_tests_leave_the_loop_live() {
    let mut s = Session::new(PipelineMode::BuildInstallTest, 10, tests_fail);
    assert_eq!(s.loop_.state(), LoopState::Idle);
    assert!(s.deliver(&event(ChangeKind::Modified, "/project/tests/test_a.py", 1_000)));
    assert_eq!(s.loop_.state(), LoopState::Idle);
    assert!(s.deliver(&event(ChangeKind::Modified, "/project/tests/test_a.py", 2_000)));
    assert_eq!(s.invocations, 3);
    assert_eq!(s.count("Tests failed: Tests failed with exit code 1"), 3);
    assert_eq!(s.count("Build complete!"), 3);
}

#[test]
fn end_to_end_single_touch() {
    let mut s = Session::new(PipelineMode::BuildInstall, 50, all_succeed);
    assert_eq!(
        s.printed,
        vec![
            "Watching for changes in: /project",
            "Press Ctrl+C to stop",
            "",
            "Mode: build + install",
            "",
            "=== Initial Build ===",
            "",
            "Build complete!",
        ]
    );
    let shown = s.printed.len();
    assert!(s.deliver(&event(ChangeKind::Modified, "/project/src/cmd.py", 5_000)));
    assert_eq!(
        s.printed[shown..].to_vec(),
        vec!["", "=== Change Detected ===", "  Changed: src/cmd.py", "", "Build complete!"]
    );
    assert_eq!(s.count("=== Change Detected ==="), 1);
    assert_eq!(s.count("Build complete!"), 2);
    assert_eq!(s.invocations, 2);
}
