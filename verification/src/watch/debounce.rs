//! The debouncer: a quiet period after each pipeline run.
//!
//! Instants are counted in milliseconds on a clock that never goes back.
//! The reference instant is the moment the last pipeline run completed; an
//! event may start a run only once a full window has passed since then.

use vstd::prelude::*;

verus! {

/// The quiet period after a pipeline run, in milliseconds.
pub const DEBOUNCE_WINDOW_MILLIS: u64 = 500;

/// Whether a full window lies between `reference` and `now`.
pub open spec fn window_elapsed(reference: int, window: int, now: int) -> bool {
    now - reference >= window
}

/// The state of the debouncer.
#[derive(Clone, Copy, Debug, PartialEq, Eq, Structural)]
pub struct DebounceState {
    /// The length of the quiet period, in milliseconds.
    pub window: u64,
    /// When the last pipeline run completed, in milliseconds.
    pub reference_instant: u64,
}

impl DebounceState {
    /// Whether an event at `now` may start a pipeline run.
    pub open spec fn allows(self, now: int) -> bool {
        window_elapsed(self.reference_instant as int, self.window as int, now)
    }

    /// A debouncer whose quiet period starts at `now`.
    pub fn new(window: u64, now: u64) -> (state: DebounceState)
        ensures
            state.window == window,
            state.reference_instant == now,
    {
        DebounceState { window, reference_instant: now }
    }

    /// Whether an event at `now` may start a pipeline run: `false` while
    /// less than a window has passed since the reference instant.
    pub fn should_trigger(&self, now: u64) -> (go: bool)
        ensures
            go == self.allows(now as int),
            go == !(now - self.reference_instant < self.window),
    {
        now >= self.reference_instant && now - self.reference_instant >= self.window
    }

    /// Restarts the quiet period at `now`, the moment a pipeline run
    /// completed.
    pub fn mark_completed(&mut self, now: u64)
        ensures
            final(self).window == old(self).window,
            final(self).reference_instant == now,
    {
        self.reference_instant = now;
    }
}

/// One event of a burst: when it arrives and, should it start a pipeline
/// run, when that run completes.
pub struct Arrival {
    pub at: int,
    pub done: int,
}

/// The number of pipeline runs that a sequence of relevant events starts,
/// where each run restarts the quiet period when it completes.
pub open spec fn runs_started(reference: int, window: int, arrivals: Seq<Arrival>) -> nat
    decreases arrivals.len(),
{
    if arrivals.len() == 0 {
        0
    } else if window_elapsed(reference, window, arrivals[0].at) {
        1 + runs_started(arrivals[0].done, window, arrivals.drop_first())
    } else {
        runs_started(reference, window, arrivals.drop_first())
    }
}

/// Events that all arrive within the quiet period start no run.
pub proof fn lemma_quiet_period_starts_nothing(reference: int, window: int, arrivals: Seq<Arrival>)
    requires
        forall|i: int| 0 <= i < arrivals.len() ==> (#[trigger] arrivals[i]).at - reference < window,
    ensures
        runs_started(reference, window, arrivals) == 0,
    decreases arrivals.len(),
{
    if arrivals.len() > 0 {
        assert(arrivals[0].at - reference < window);
        assert forall|i: int| 0 <= i < arrivals.drop_first().len() implies (
        #[trigger] arrivals.drop_first()[i]).at - reference < window by {
            assert(arrivals.drop_first()[i] == arrivals[i + 1]);
        }
        lemma_quiet_period_starts_nothing(reference, window, arrivals.drop_first());
    }
}

/// Events that arrive no earlier than `start` and within less than one
/// window after it start at most one run, whenever each run completes no
/// earlier than the event that started it.
pub proof fn lemma_span_starts_at_most_one(
    reference: int,
    window: int,
    start: int,
    arrivals: Seq<Arrival>,
)
    requires
        forall|i: int|
            0 <= i < arrivals.len() ==> start <= (#[trigger] arrivals[i]).at < start + window
                && arrivals[i].at <= arrivals[i].done,
    ensures
        runs_started(reference, window, arrivals) <= 1,
    decreases arrivals.len(),
{
    if arrivals.len() > 0 {
        let rest = arrivals.drop_first();
        assert(start <= arrivals[0].at <= arrivals[0].done);
        assert forall|i: int| 0 <= i < rest.len() implies start <= (#[trigger] rest[i]).at < start
            + window && rest[i].at <= rest[i].done by {
            assert(rest[i] == arrivals[i + 1]);
        }
        if window_elapsed(reference, window, arrivals[0].at) {
            assert forall|i: int| 0 <= i < rest.len() implies (#[trigger] rest[i]).at
                - arrivals[0].done < window by {
                assert(rest[i] == arrivals[i + 1]);
            }
            lemma_quiet_period_starts_nothing(arrivals[0].done, window, rest);
        } else {
            lemma_span_starts_at_most_one(reference, window, start, rest);
        }
    }
}

/// A burst of events, all within less than one window of the first, starts
/// exactly one run when the first event arrives after the quiet period.
pub proof fn lemma_burst_starts_exactly_one(reference: int, window: int, arrivals: Seq<Arrival>)
    requires
        arrivals.len() > 0,
        window_elapsed(reference, window, arrivals[0].at),
        forall|i: int|
            0 <= i < arrivals.len() ==> arrivals[0].at <= (#[trigger] arrivals[i]).at
                < arrivals[0].at + window && arrivals[i].at <= arrivals[i].done,
    ensures
        runs_started(reference, window, arrivals) == 1,
{
    let rest = arrivals.drop_first();
    assert(arrivals[0].at <= arrivals[0].done);
    assert forall|i: int| 0 <= i < rest.len() implies (#[trigger] rest[i]).at - arrivals[0].done
        < window by {
        assert(rest[i] == arrivals[i + 1]);
    }
    lemma_quiet_period_starts_nothing(arrivals[0].done, window, rest);
}

} // verus!
