//! What can go wrong in the library, and the operations it names.

use crate::models::TaskState;
use vstd::prelude::*;

verus! {

/// The four operations of a task's life cycle.
#[derive(Clone, Copy, Debug, PartialEq, Eq, Structural)]
pub enum Operation {
    /// Activate: make a task ready to be worked on.
    Warm,
    /// Complete a task.
    Burn,
    /// Reopen: take a completion back.
    Cool,
    /// Defer: put a task on ice until a thaw date.
    Freeze,
}

/// Why a request was turned down.
#[derive(Clone, Copy, Debug, PartialEq, Eq, Structural)]
pub enum Error {
    /// A date specification that is malformed, names no date of the
    /// calendar, or leads past the last date that can be held.
    InvalidDateSpec,
    /// An operation that the task's state does not allow.
    InvalidTransition { id: u32, state: TaskState, operation: Operation },
    /// No task has this id.
    TaskNotFound { id: u32 },
    /// The home directory is not known, and no data file was configured.
    NoHomeDirectory,
}

} // verus!
