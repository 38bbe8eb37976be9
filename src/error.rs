//! Errors of the task lifecycle and of views.
use vstd::prelude::*;

use crate::time::Instant;

verus! {

/// Why a lifecycle operation or a view was refused.
#[derive(Clone, Copy, Debug, PartialEq, Eq, Structural)]
pub enum TaskError {
    /// A task needs a non-empty project name.
    EmptyProjectName,
    /// A task cannot end before it starts.
    EndBeforeStart { start: Instant, end: Instant },
    /// The current task is not a range of finished tasks.
    NotARange,
    /// A clock or calendar time fell outside the supported years.
    TimeOutOfRange,
}

/// Why a stored record could not be read back as a task.
#[derive(Clone, Copy, Debug, PartialEq, Eq, Structural)]
pub enum RecordError {
    /// The start time is not an RFC 3339 instant of the supported years.
    BadStartTime,
    /// The end time is not an RFC 3339 instant of the supported years.
    BadEndTime,
    /// The end time comes before the start time.
    EndBeforeStart,
}

} // verus!
