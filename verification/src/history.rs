//! Histories of a handle: what holds after every sequence of events.

use vstd::prelude::*;
use crate::lifecycle::{HandleState, PanicRecord};
use crate::start::{start_decision, StartDecision, StartError};

verus! {

/// One thing that happens to a handle.
pub enum Event {
    /// A start; `has_instance` says whether the application setup produced
    /// an application instance.
    Start { has_instance: bool },
    /// The runner's answer to a delegated start.
    StartFinished { runner_ok: bool },
    /// A teardown.
    Destroy,
    /// A crash report.
    Panic(PanicRecord),
}

impl Event {
    /// Whether the event hands a start on to the runner.
    pub open spec fn delegates_start(self) -> bool {
        self matches Event::Start { has_instance } && has_instance
    }
}

impl HandleState {
    /// The state after one event.
    pub open spec fn after(self, event: Event) -> HandleState {
        match event {
            Event::Start { has_instance } => self.after_start(has_instance),
            Event::StartFinished { runner_ok } => self.after_start_finished(runner_ok),
            Event::Destroy => self.after_destroy(),
            Event::Panic(record) => self.after_panic(record),
        }
    }

    /// The state after a sequence of events, the first one first.
    pub open spec fn after_all(self, events: Seq<Event>) -> HandleState
        decreases events.len(),
    {
        if events.len() == 0 {
            self
        } else {
            self.after_all(events.drop_last()).after(events.last())
        }
    }
}

/// Every history of a fresh handle ends in a well-formed state.
pub proof fn lemma_history_is_well_formed(events: Seq<Event>)
    ensures
        HandleState::initial().after_all(events).wf(),
    decreases events.len(),
{
    if events.len() > 0 {
        lemma_history_is_well_formed(events.drop_last());
    }
}

/// As long as no start has been handed to the runner, and so in particular
/// while start has never been called, a handle is uninitialized, reports no
/// crash and has neither a message nor a call stack to give, whatever else
/// happened to it.
pub proof fn lemma_no_panic_before_first_start(events: Seq<Event>)
    requires
        forall|i: int| 0 <= i < events.len() ==> !(#[trigger] events[i]).delegates_start(),
    ensures
        HandleState::initial().after_all(events).phase is Uninitialized,
        !HandleState::initial().after_all(events).has_panicked(),
        HandleState::initial().after_all(events).panic_message() is None,
        HandleState::initial().after_all(events).panic_callstack() is None,
    decreases events.len(),
{
    if events.len() > 0 {
        let earlier = events.drop_last();
        assert forall|i: int| 0 <= i < earlier.len() implies !(#[trigger] earlier[i]).delegates_start() by {
            assert(earlier[i] == events[i]);
        }
        lemma_no_panic_before_first_start(earlier);
        assert(!events.last().delegates_start());
    }
}

/// A start for which the application setup produced no instance fails with
/// `StartupFailed`, changes nothing, and so leaves a handle that was not
/// running not running.
pub proof fn lemma_start_without_instance_starts_nothing<S, A>(state: HandleState, surface: S)
    requires
        !state.is_running(),
    ensures
        start_decision(surface, None::<A>) == StartDecision::<S, A>::Fail(StartError::StartupFailed),
        state.after_start(false) == state,
        !state.after_start(false).is_running(),
{
}

/// A start for which the application setup produced an instance is handed to
/// the runner together with the surface, and whether the handle is running
/// afterwards is what the runner answered.
pub proof fn lemma_start_with_instance_follows_runner<S, A>(
    state: HandleState,
    surface: S,
    instance: A,
    runner_ok: bool,
)
    ensures
        start_decision(surface, Some(instance)) == (StartDecision::Delegate { surface, instance }),
        state.after_start(true).is_running(),
        state.after_start(true).after_start_finished(runner_ok).is_running() == runner_ok,
{
}

/// After a teardown nothing is running, a second teardown changes nothing,
/// and a start with a fresh surface is taken like a first one: it is handed
/// to the runner and the handle runs again.
pub proof fn lemma_start_after_destroy<S, A>(state: HandleState, surface: S, instance: A)
    ensures
        !state.after_destroy().is_running(),
        state.after_destroy().after_destroy() == state.after_destroy(),
        start_decision(surface, Some(instance)) == (StartDecision::Delegate { surface, instance }),
        state.after_destroy().after_start(true).is_running(),
{
}

/// A crash reported while the handle runs is the one that the queries give.
pub proof fn lemma_panic_while_running_is_reported(state: HandleState, record: PanicRecord)
    requires
        state.is_running(),
    ensures
        state.after_panic(record).has_panicked(),
        state.after_panic(record).panic_message() == Some(record.message),
        state.after_panic(record).panic_callstack() == Some(record.callstack),
{
}

/// A teardown does not touch the recorded crash.
pub proof fn lemma_destroy_keeps_panic(state: HandleState)
    ensures
        state.after_destroy().panic == state.panic,
{
}

/// Once a crash is recorded, the handle reports one ever after.
pub proof fn lemma_panic_is_never_cleared(state: HandleState, events: Seq<Event>)
    requires
        state.has_panicked(),
    ensures
        state.after_all(events).has_panicked(),
    decreases events.len(),
{
    if events.len() > 0 {
        lemma_panic_is_never_cleared(state, events.drop_last());
    }
}

} // verus!
