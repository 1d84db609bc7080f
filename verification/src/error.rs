//! What can go wrong when a runtime is built, entered or spawned on.

use vstd::prelude::*;

verus! {

/// The failures that the runtime reports to its direct caller.
#[derive(Clone, Copy, Debug, PartialEq, Eq, Structural)]
pub enum RtError {
    /// The reactor could not be created.
    Init,
    /// A scope is already entered on this thread.
    Reentrancy,
    /// A task was spawned where no executor is ambient.
    NoActiveExecutor,
    /// The executor could not block the thread while it waited for its tasks.
    Run,
}

impl RtError {
    /// The text that goes with each failure.
    pub open spec fn text(self) -> Seq<char> {
        match self {
            RtError::Init => "creating reactor failed"@,
            RtError::Reentrancy => "Multiple executors at once"@,
            RtError::NoActiveExecutor => "no active executor"@,
            RtError::Run => "exited main executor"@,
        }
    }

    /// A short description of the failure.
    pub fn message(self) -> (s: &'static str)
        ensures
            s@ == self.text(),
    {
        match self {
            RtError::Init => "creating reactor failed",
            RtError::Reentrancy => "Multiple executors at once",
            RtError::NoActiveExecutor => "no active executor",
            RtError::Run => "exited main executor",
        }
    }
}

} // verus!
