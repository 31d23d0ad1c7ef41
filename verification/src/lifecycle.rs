//! The mathematical model of a handle: its phase and the crash it has recorded.

use vstd::prelude::*;

verus! {

/// Where a handle stands in its life.
#[derive(Clone, Copy, Debug, PartialEq, Eq, Structural)]
pub enum Phase {
    /// No start has been handed to the runner yet.
    Uninitialized,
    /// A start was handed to the runner, which owns the surface since.
    Running,
    /// What ran was torn down, or failed to come up; no surface is bound.
    Destroyed,
}

/// What is kept of a crash: its message and the call stack captured with it.
pub struct PanicRecord {
    pub message: Seq<char>,
    pub callstack: Seq<char>,
}

/// A handle as the contracts see it.
pub struct HandleState {
    pub phase: Phase,
    pub panic: Option<PanicRecord>,
}

impl HandleState {
    /// The state of a freshly constructed handle.
    pub open spec fn initial() -> HandleState {
        HandleState { phase: Phase::Uninitialized, panic: None }
    }

    /// A crash can only be recorded once something has run.
    pub open spec fn wf(self) -> bool {
        self.phase is Uninitialized ==> self.panic is None
    }

    /// Whether a start has been handed to the runner and not been undone.
    pub open spec fn is_running(self) -> bool {
        self.phase is Running
    }

    /// Whether a crash has been recorded.
    pub open spec fn has_panicked(self) -> bool {
        self.panic is Some
    }

    /// The recorded crash message, if any.
    pub open spec fn panic_message(self) -> Option<Seq<char>> {
        match self.panic {
            Some(record) => Some(record.message),
            None => None,
        }
    }

    /// The recorded call stack, if any.
    pub open spec fn panic_callstack(self) -> Option<Seq<char>> {
        match self.panic {
            Some(record) => Some(record.callstack),
            None => None,
        }
    }

    /// After a start: with an application instance the runner takes over,
    /// whatever ran before; without one nothing changes.
    pub open spec fn after_start(self, has_instance: bool) -> HandleState {
        if has_instance {
            HandleState { phase: Phase::Running, ..self }
        } else {
            self
        }
    }

    /// After the runner has reported how its startup went: a failure leaves
    /// nothing running.
    pub open spec fn after_start_finished(self, runner_ok: bool) -> HandleState {
        if !runner_ok && self.phase is Running {
            HandleState { phase: Phase::Destroyed, ..self }
        } else {
            self
        }
    }

    /// After a teardown: what ran is destroyed; the recorded crash stays.
    pub open spec fn after_destroy(self) -> HandleState {
        if self.phase is Running {
            HandleState { phase: Phase::Destroyed, ..self }
        } else {
            self
        }
    }

    /// After a crash report: it is kept, in place of an earlier one, if and
    /// only if the handle is running.
    pub open spec fn after_panic(self, record: PanicRecord) -> HandleState {
        if self.phase is Running {
            HandleState { panic: Some(record), ..self }
        } else {
            self
        }
    }
}

} // verus!
