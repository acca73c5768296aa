//! The failures that a machine can report.

use vstd::prelude::*;

verus! {

/// Every failure is recoverable: the machine is left as it was.
#[derive(Debug, Clone, PartialEq, Eq)]
pub enum StateMachineError {
    /// An event was dispatched before the machine had a current state.
    NotInitialized,
    /// The initial state was set a second time.
    InitialStateAlreadySet,
    /// The current state has no transition for the event, and the machine
    /// does not ignore such events.
    NoMatchingTransition { state_id: usize, event_id: usize },
    /// The lock around a shared machine was left unusable by an earlier
    /// failure.
    AccessFailure(String),
    /// An event was submitted to a queued machine that was not started.
    NotStarted,
    /// A queued machine was started a second time.
    AlreadyStarted,
    /// An event was submitted after the consuming side had gone away.
    QueueClosed,
}

} // verus!
