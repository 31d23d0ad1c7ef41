//! The summary of a crash, as the runner's panic hook captures it.

use vstd::prelude::*;
use crate::lifecycle::PanicRecord;

verus! {

/// A crash's message together with the call stack captured when it happened.
#[derive(Debug, PartialEq, Eq)]
pub struct PanicSummary {
    message: String,
    callstack: String,
}

impl View for PanicSummary {
    type V = PanicRecord;

    closed spec fn view(&self) -> PanicRecord {
        PanicRecord { message: self.message@, callstack: self.callstack@ }
    }
}

impl Clone for PanicSummary {
    fn clone(&self) -> (copy: PanicSummary)
        ensures
            copy@ == self@,
    {
        PanicSummary { message: self.message.clone(), callstack: self.callstack.clone() }
    }
}

impl PanicSummary {
    /// A summary made of a crash message and the call stack that goes with it.
    pub fn new(message: String, callstack: String) -> (summary: PanicSummary)
        ensures
            summary@ == (PanicRecord { message: message@, callstack: callstack@ }),
    {
        PanicSummary { message, callstack }
    }

    /// The crash message.
    pub fn message(&self) -> (text: String)
        ensures
            text@ == self@.message,
    {
        self.message.clone()
    }

    /// The call stack captured with the crash.
    pub fn callstack(&self) -> (text: String)
        ensures
            text@ == self@.callstack,
    {
        self.callstack.clone()
    }
}

} // verus!
