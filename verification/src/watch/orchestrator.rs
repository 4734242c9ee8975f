//! The control loop of the watch session.
//!
//! The loop is a state machine. Its owner blocks on the event source while
//! the loop is idle, announces an accepted change, runs the pipeline, and
//! tells the loop what happened; the loop decides what comes next. One run
//! of the pipeline is in flight at most, because a run starts only from the
//! state that a finished run leads back to.

use vstd::prelude::*;
use crate::watch::debounce::{window_elapsed, DebounceState};
use crate::watch::filter::{event_relevant, is_relevant, ChangeEvent, EventModel, ScopeModel, WatchScope};
use crate::watch::pipeline::PipelineMode;

verus! {

/// Where the loop stands.
#[derive(Clone, Copy, Debug, PartialEq, Eq, Structural)]
pub enum LoopState {
    /// Waiting for the next event.
    Idle,
    /// An event was accepted; the change is being announced.
    Triggering,
    /// The pipeline is running.
    Running,
    /// The event source is gone. Nothing leads out of this state.
    Stopped,
}

/// What the owner of the loop does next.
#[derive(Clone, Copy, Debug, PartialEq, Eq, Structural)]
pub enum LoopAction {
    /// Block on the event source.
    AwaitEvent,
    /// Tell the user that a change was detected.
    AnnounceChange,
    /// Run the pipeline, from its first stage to its last.
    RunPipeline,
    /// Leave the loop.
    Exit,
}

/// What can happen to the loop.
pub enum InputModel {
    /// The event source delivered an event at the instant `now`.
    Event { event: EventModel, now: int },
    /// The accepted change was announced.
    Announced,
    /// The pipeline run completed at the instant `now`.
    PipelineFinished { now: int, failed: bool },
    /// The event source closed or failed for good.
    ChannelClosed,
}

/// The mathematical content of an [`Orchestrator`].
pub struct LoopModel {
    pub state: LoopState,
    pub mode: PipelineMode,
    pub scope: ScopeModel,
    /// The length of the quiet period.
    pub window: int,
    /// When the last pipeline run completed.
    pub reference_instant: int,
    /// Whether no pipeline run has completed yet.
    pub initial: bool,
}

/// The loop as it starts: the first pipeline run is already due.
pub open spec fn initial_loop(scope: ScopeModel, mode: PipelineMode, window: int) -> LoopModel {
    LoopModel {
        state: LoopState::Running,
        mode,
        scope,
        window,
        reference_instant: 0,
        initial: true,
    }
}

/// Whether the loop lets an event start a pipeline run: the loop is idle,
/// the event is relevant, and the quiet period is over.
pub open spec fn accepts(m: LoopModel, event: EventModel, now: int) -> bool {
    m.state == LoopState::Idle && event_relevant(event, m.scope) && window_elapsed(
        m.reference_instant,
        m.window,
        now,
    )
}

/// The loop after an input. An input that does not fit the state changes
/// nothing.
pub open spec fn transition(m: LoopModel, input: InputModel) -> LoopModel {
    match input {
        InputModel::Event { event, now } => if accepts(m, event, now) {
            LoopModel { state: LoopState::Triggering, ..m }
        } else {
            m
        },
        InputModel::Announced => if m.state == LoopState::Triggering {
            LoopModel { state: LoopState::Running, ..m }
        } else {
            m
        },
        InputModel::PipelineFinished { now, failed } => if m.state == LoopState::Running {
            LoopModel { state: LoopState::Idle, reference_instant: now, initial: false, ..m }
        } else {
            m
        },
        InputModel::ChannelClosed => LoopModel { state: LoopState::Stopped, ..m },
    }
}

/// What the owner of a loop in the given state does next.
pub open spec fn action_in(state: LoopState) -> LoopAction {
    match state {
        LoopState::Idle => LoopAction::AwaitEvent,
        LoopState::Triggering => LoopAction::AnnounceChange,
        LoopState::Running => LoopAction::RunPipeline,
        LoopState::Stopped => LoopAction::Exit,
    }
}

/// The control loop of a watch session.
#[derive(Debug)]
pub struct Orchestrator {
    state: LoopState,
    mode: PipelineMode,
    scope: WatchScope,
    debounce: DebounceState,
    initial: bool,
}

impl View for Orchestrator {
    type V = LoopModel;

    closed spec fn view(&self) -> LoopModel {
        LoopModel {
            state: self.state,
            mode: self.mode,
            scope: self.scope@,
            window: self.debounce.window as int,
            reference_instant: self.debounce.reference_instant as int,
            initial: self.initial,
        }
    }
}

impl Orchestrator {
    /// A loop at its start. The first pipeline run is due at once, before
    /// any event is looked at.
    pub fn start(scope: WatchScope, mode: PipelineMode, window: u64) -> (o: Orchestrator)
        ensures
            o@ == initial_loop(scope@, mode, window as int),
    {
        Orchestrator {
            state: LoopState::Running,
            mode,
            scope,
            debounce: DebounceState::new(window, 0),
            initial: true,
        }
    }

    /// Where the loop stands.
    pub fn state(&self) -> (state: LoopState)
        ensures
            state == self@.state,
    {
        self.state
    }

    /// The stages that each pipeline run has.
    pub fn mode(&self) -> (mode: PipelineMode)
        ensures
            mode == self@.mode,
    {
        self.mode
    }

    /// What is watched.
    pub fn scope(&self) -> (scope: &WatchScope)
        ensures
            scope@ == self@.scope,
    {
        &self.scope
    }

    /// Whether no pipeline run has completed yet.
    pub fn is_initial_run(&self) -> (initial: bool)
        ensures
            initial == self@.initial,
    {
        self.initial
    }

    /// What the owner of the loop does next.
    pub fn next_action(&self) -> (action: LoopAction)
        ensures
            action == action_in(self@.state),
    {
        match self.state {
            LoopState::Idle => LoopAction::AwaitEvent,
            LoopState::Triggering => LoopAction::AnnounceChange,
            LoopState::Running => LoopAction::RunPipeline,
            LoopState::Stopped => LoopAction::Exit,
        }
    }

    /// Takes an event that the event source delivered at `now`. Returns
    /// whether the event starts a pipeline run; if not, the event is dropped.
    pub fn on_event(&mut self, event: &ChangeEvent, now: u64) -> (accepted: bool)
        ensures
            accepted == accepts(old(self)@, event@, now as int),
            final(self)@ == transition(
                old(self)@,
                InputModel::Event { event: event@, now: now as int },
            ),
    {
        let idle = match self.state {
            LoopState::Idle => true,
            _ => false,
        };
        if idle && is_relevant(event, &self.scope) && self.debounce.should_trigger(now) {
            self.state = LoopState::Triggering;
            true
        } else {
            false
        }
    }

    /// Takes note that the accepted change was announced: the pipeline run
    /// is due.
    pub fn announced(&mut self)
        ensures
            final(self)@ == transition(old(self)@, InputModel::Announced),
    {
        match self.state {
            LoopState::Triggering => {
                self.state = LoopState::Running;
            },
            _ => {},
        }
    }

    /// Takes note that the pipeline run completed at `now`, whether it
    /// failed or not: the quiet period starts, and the loop is idle again.
    pub fn pipeline_finished(&mut self, now: u64, failed: bool)
        ensures
            final(self)@ == transition(
                old(self)@,
                InputModel::PipelineFinished { now: now as int, failed },
            ),
    {
        match self.state {
            LoopState::Running => {
                self.state = LoopState::Idle;
                self.debounce.mark_completed(now);
                self.initial = false;
            },
            _ => {},
        }
    }

    /// Takes note that the event source is gone: the loop ends.
    pub fn channel_closed(&mut self)
        ensures
            final(self)@ == transition(old(self)@, InputModel::ChannelClosed),
    {
        self.state = LoopState::Stopped;
    }
}

/// One event of a timeline, with what follows if it starts a pipeline run:
/// when the run completes, and whether it fails.
pub struct Delivery {
    pub event: EventModel,
    pub at: int,
    pub done: int,
    pub failed: bool,
}

/// The loop after an event was delivered and, if it started a pipeline run,
/// after that run was announced, performed and completed.
pub open spec fn after_delivery(m: LoopModel, d: Delivery) -> LoopModel {
    let triggered = transition(m, InputModel::Event { event: d.event, now: d.at });
    if triggered.state == LoopState::Triggering {
        transition(
            transition(triggered, InputModel::Announced),
            InputModel::PipelineFinished { now: d.done, failed: d.failed },
        )
    } else {
        triggered
    }
}

/// The number of pipeline runs that a timeline of events starts.
pub open spec fn runs_triggered(m: LoopModel, timeline: Seq<Delivery>) -> nat
    decreases timeline.len(),
{
    if timeline.len() == 0 {
        0
    } else {
        (if accepts(m, timeline[0].event, timeline[0].at) {
            1nat
        } else {
            0nat
        }) + runs_triggered(after_delivery(m, timeline[0]), timeline.drop_first())
    }
}

/// The first pipeline run is unconditional: the loop starts with the run
/// due, and no event is accepted before that run has completed.
pub proof fn lemma_initial_run_is_unconditional(
    scope: ScopeModel,
    mode: PipelineMode,
    window: int,
    event: EventModel,
    now: int,
)
    ensures
        action_in(initial_loop(scope, mode, window).state) == LoopAction::RunPipeline,
        !accepts(initial_loop(scope, mode, window), event, now),
        transition(initial_loop(scope, mode, window), InputModel::Event { event, now })
            == initial_loop(scope, mode, window),
{
}

/// At most one pipeline run is in flight: while a run is due or running,
/// no event is accepted and the state does not move on an event.
pub proof fn lemma_single_flight(m: LoopModel, event: EventModel, now: int)
    requires
        m.state == LoopState::Running || m.state == LoopState::Triggering,
    ensures
        !accepts(m, event, now),
        transition(m, InputModel::Event { event, now }) == m,
{
}

/// A pipeline run is due only after an accepted event was announced: the
/// running state is entered from the triggering state and from no other.
pub proof fn lemma_run_follows_trigger(m: LoopModel, input: InputModel)
    requires
        m.state != LoopState::Running,
        transition(m, input).state == LoopState::Running,
    ensures
        m.state == LoopState::Triggering,
        input is Announced,
{
}

/// The reference instant moves when a pipeline run completes, and at no
/// other moment: not when an event is accepted, and not when the change is
/// announced.
pub proof fn lemma_reference_moves_at_completion_only(m: LoopModel, input: InputModel)
    ensures
        transition(m, input).window == m.window,
        transition(m, input).reference_instant != m.reference_instant ==> m.state
            == LoopState::Running && input is PipelineFinished,
        m.state == LoopState::Running && input is PipelineFinished ==> transition(
            m,
            input,
        ).reference_instant == input->PipelineFinished_now,
{
}

/// Nothing leads out of the stopped state.
pub proof fn lemma_stopped_is_terminal(m: LoopModel, input: InputModel)
    requires
        m.state == LoopState::Stopped,
    ensures
        transition(m, input).state == LoopState::Stopped,
{
}

/// A completed run leaves the loop live, whether the run failed or not: the
/// loop is idle again, and the next relevant event that arrives a full
/// window after the completion starts a run.
pub proof fn lemma_loop_survives_failure(
    m: LoopModel,
    done: int,
    failed: bool,
    event: EventModel,
    now: int,
)
    requires
        m.state == LoopState::Running,
        event_relevant(event, m.scope),
        now - done >= m.window,
    ensures
        transition(m, InputModel::PipelineFinished { now: done, failed }).state == LoopState::Idle,
        accepts(transition(m, InputModel::PipelineFinished { now: done, failed }), event, now),
        transition(
            transition(m, InputModel::PipelineFinished { now: done, failed }),
            InputModel::Event { event, now },
        ).state == LoopState::Triggering,
{
}

/// A delivery leaves an idle loop idle, and changes nothing but the
/// reference instant, which moves to the completion of the run it started.
pub proof fn lemma_delivery_keeps_idle(m: LoopModel, d: Delivery)
    requires
        m.state == LoopState::Idle,
    ensures
        after_delivery(m, d) == (if accepts(m, d.event, d.at) {
            LoopModel { reference_instant: d.done, initial: false, ..m }
        } else {
            m
        }),
{
}

/// Events that all arrive within the quiet period start no run.
pub proof fn lemma_quiet_timeline(m: LoopModel, timeline: Seq<Delivery>)
    requires
        m.state == LoopState::Idle,
        forall|i: int|
            0 <= i < timeline.len() ==> (#[trigger] timeline[i]).at - m.reference_instant
                < m.window,
    ensures
        runs_triggered(m, timeline) == 0,
    decreases timeline.len(),
{
    if timeline.len() > 0 {
        let rest = timeline.drop_first();
        assert(timeline[0].at - m.reference_instant < m.window);
        lemma_delivery_keeps_idle(m, timeline[0]);
        assert forall|i: int| 0 <= i < rest.len() implies (#[trigger] rest[i]).at
            - m.reference_instant < m.window by {
            assert(rest[i] == timeline[i + 1]);
        }
        lemma_quiet_timeline(m, rest);
    }
}

/// Events that arrive no earlier than `start` and less than one window
/// after it start at most one pipeline run, whatever the events are and
/// however long the run takes.
pub proof fn lemma_burst_triggers_at_most_once(m: LoopModel, start: int, timeline: Seq<Delivery>)
    requires
        m.state == LoopState::Idle,
        forall|i: int|
            0 <= i < timeline.len() ==> start <= (#[trigger] timeline[i]).at < start + m.window
                && timeline[i].at <= timeline[i].done,
    ensures
        runs_triggered(m, timeline) <= 1,
    decreases timeline.len(),
{
    if timeline.len() > 0 {
        let rest = timeline.drop_first();
        let next = after_delivery(m, timeline[0]);
        assert(start <= timeline[0].at <= timeline[0].done);
        lemma_delivery_keeps_idle(m, timeline[0]);
        assert forall|i: int| 0 <= i < rest.len() implies start <= (#[trigger] rest[i]).at < start
            + m.window && rest[i].at <= rest[i].done by {
            assert(rest[i] == timeline[i + 1]);
        }
        if accepts(m, timeline[0].event, timeline[0].at) {
            assert forall|i: int| 0 <= i < rest.len() implies (#[trigger] rest[i]).at
                - next.reference_instant < next.window by {
                assert(rest[i] == timeline[i + 1]);
            }
            lemma_quiet_timeline(next, rest);
        } else {
            lemma_burst_triggers_at_most_once(m, start, rest);
        }
    }
}

/// A burst of events, all less than one window after the first, starts
/// exactly one pipeline run when the first event is accepted.
pub proof fn lemma_burst_triggers_exactly_once(m: LoopModel, timeline: Seq<Delivery>)
    requires
        timeline.len() > 0,
        accepts(m, timeline[0].event, timeline[0].at),
        forall|i: int|
            0 <= i < timeline.len() ==> timeline[0].at <= (#[trigger] timeline[i]).at
                < timeline[0].at + m.window && timeline[i].at <= timeline[i].done,
    ensures
        runs_triggered(m, timeline) == 1,
{
    let rest = timeline.drop_first();
    let next = after_delivery(m, timeline[0]);
    assert(timeline[0].at <= timeline[0].done);
    lemma_delivery_keeps_idle(m, timeline[0]);
    assert forall|i: int| 0 <= i < rest.len() implies (#[trigger] rest[i]).at
        - next.reference_instant < next.window by {
        assert(rest[i] == timeline[i + 1]);
    }
    lemma_quiet_timeline(next, rest);
}

} // verus!
