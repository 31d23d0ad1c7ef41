//! The handle that a host page holds on the application.

use vstd::prelude::*;
use crate::lifecycle::{HandleState, Phase};
use crate::panic_summary::PanicSummary;
use crate::start::{start_decision, StartDecision, StartError};

verus! {

/// The characters of an optional text.
pub open spec fn text_of(text: Option<String>) -> Option<Seq<char>> {
    match text {
        Some(text) => Some(text@),
        None => None,
    }
}

/// The host's handle on the application: it follows the runner through
/// start and teardown and keeps the crash that was reported while it ran.
pub struct WebHandle {
    phase: Phase,
    panic: Option<PanicSummary>,
}

impl View for WebHandle {
    type V = HandleState;

    closed spec fn view(&self) -> HandleState {
        HandleState {
            phase: self.phase,
            panic: match self.panic {
                Some(summary) => Some(summary@),
                None => None,
            },
        }
    }
}

impl WebHandle {
    #[verifier::type_invariant]
    spec fn valid(&self) -> bool {
        self@.wf()
    }

    /// A handle on which nothing has been started and no crash is recorded.
    pub fn new() -> (handle: WebHandle)
        ensures
            handle@ == HandleState::initial(),
    {
        WebHandle { phase: Phase::Uninitialized, panic: None }
    }

    /// Decides a start against `surface`, given what the application setup
    /// produced. With an instance the decision is to delegate, and it carries
    /// the surface and the instance on unchanged; the handle counts as
    /// running from here on. Without one the start fails with
    /// [`StartError::StartupFailed`] and the handle is left as it was.
    ///
    /// The phase of the handle plays no part in the decision: a start on a
    /// running handle is decided like a first one, and what becomes of the
    /// earlier run is the runner's affair.
    pub fn start<S, A>(&mut self, surface: S, instance: Option<A>) -> (decision: StartDecision<S, A>)
        ensures
            decision == start_decision(surface, instance),
            final(self)@ == old(self)@.after_start(instance is Some),
            final(self)@.wf(),
    {
        proof {
            use_type_invariant(&*self);
        }
        match instance {
            Some(instance) => {
                self.phase = Phase::Running;
                StartDecision::Delegate { surface, instance }
            },
            None => StartDecision::Fail(StartError::StartupFailed),
        }
    }

    /// Takes what the runner answered to a delegated start and gives the
    /// outcome to report: the runner's own, success or failure, untouched.
    /// After a failure nothing is running any more.
    pub fn finish_start<E>(&mut self, outcome: Result<(), E>) -> (reported: Result<(), E>)
        ensures
            reported == outcome,
            final(self)@ == old(self)@.after_start_finished(outcome is Ok),
            final(self)@.wf(),
    {
        proof {
            use_type_invariant(&*self);
        }
        if outcome.is_err() && self.is_running() {
            self.phase = Phase::Destroyed;
        }
        outcome
    }

    /// Tears down what is running and releases the surface. The recorded
    /// crash is kept. On a handle that is not running this changes nothing.
    pub fn destroy(&mut self)
        ensures
            final(self)@ == old(self)@.after_destroy(),
            final(self)@.wf(),
    {
        proof {
            use_type_invariant(&*self);
        }
        if self.is_running() {
            self.phase = Phase::Destroyed;
        }
    }

    /// Reports a crash of the application. It is recorded, replacing an
    /// earlier one, if and only if the handle is running; the result says
    /// whether it was.
    pub fn record_panic(&mut self, summary: PanicSummary) -> (recorded: bool)
        ensures
            recorded == old(self)@.is_running(),
            final(self)@ == old(self)@.after_panic(summary@),
            final(self)@.wf(),
    {
        proof {
            use_type_invariant(&*self);
        }
        if self.is_running() {
            self.panic = Some(summary);
            true
        } else {
            false
        }
    }

    /// The phase that the handle is in.
    pub fn phase(&self) -> (phase: Phase)
        ensures
            phase == self@.phase,
    {
        self.phase
    }

    /// Whether a start has been delegated and not been undone since.
    pub fn is_running(&self) -> (running: bool)
        ensures
            running == self@.is_running(),
    {
        match self.phase {
            Phase::Running => true,
            _ => false,
        }
    }

    /// Whether a crash has been recorded. Never so before the first
    /// delegated start.
    pub fn has_panicked(&self) -> (panicked: bool)
        ensures
            panicked == self@.has_panicked(),
            self@.phase is Uninitialized ==> !panicked,
    {
        proof {
            use_type_invariant(self);
        }
        self.panic.is_some()
    }

    /// The message of the recorded crash, or nothing if there is none.
    pub fn panic_message(&self) -> (message: Option<String>)
        ensures
            text_of(message) == self@.panic_message(),
            self@.phase is Uninitialized ==> message is None,
    {
        proof {
            use_type_invariant(self);
        }
        match &self.panic {
            Some(summary) => Some(summary.message()),
            None => None,
        }
    }

    /// The call stack of the recorded crash, or nothing if there is none.
    pub fn panic_callstack(&self) -> (callstack: Option<String>)
        ensures
            text_of(callstack) == self@.panic_callstack(),
            self@.phase is Uninitialized ==> callstack is None,
    {
        proof {
            use_type_invariant(self);
        }
        match &self.panic {
            Some(summary) => Some(summary.callstack()),
            None => None,
        }
    }
}

} // verus!
