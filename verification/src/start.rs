//! What a start decides before anything is handed to the runner.

use vstd::prelude::*;

verus! {

/// The one failure that a start raises by itself.
#[derive(Clone, Copy, Debug, PartialEq, Eq, Structural)]
pub enum StartError {
    /// The application setup produced no application instance.
    StartupFailed,
}

/// The text that goes with [`StartError::StartupFailed`].
pub open spec fn startup_failed_message() -> Seq<char> {
    "Failed to start app"@
}

impl StartError {
    /// The text that the host is shown for this failure.
    pub open spec fn spec_message(self) -> Seq<char> {
        match self {
            StartError::StartupFailed => startup_failed_message(),
        }
    }

    /// The text that the host is shown for this failure.
    pub fn message(&self) -> (text: String)
        ensures
            text@ == self.spec_message(),
    {
        match self {
            StartError::StartupFailed => "Failed to start app".to_owned(),
        }
    }
}

/// What the caller of a start has to do next.
#[derive(Debug, PartialEq, Eq)]
pub enum StartDecision<S, A> {
    /// Hand the surface and the application instance to the runner, and
    /// report what the runner answers.
    Delegate { surface: S, instance: A },
    /// Report this failure; the runner is not to be touched.
    Fail(StartError),
}

/// The decision of a start: it delegates exactly when the application setup
/// produced an instance, and hands on what it was given.
pub open spec fn start_decision<S, A>(surface: S, instance: Option<A>) -> StartDecision<S, A> {
    match instance {
        Some(instance) => StartDecision::Delegate { surface, instance },
        None => StartDecision::Fail(StartError::StartupFailed),
    }
}

} // verus!
