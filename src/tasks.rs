//! Open and finished tasks, and the lifecycle that turns one into the other.
use vstd::prelude::*;

use crate::error::{RecordError, TaskError};
use crate::time::{
    max_span, parse_rfc3339, rfc3339_instant, rfc3339_text, to_rfc3339, Duration, Instant,
};

verus! {

/// The text of an optional string.
pub open spec fn opt_text(o: Option<String>) -> Option<Seq<char>> {
    match o {
        Some(s) => Some(s@),
        None => None,
    }
}

fn clone_opt(o: &Option<String>) -> (r: Option<String>)
    ensures
        opt_text(r) == opt_text(*o),
{
    match o {
        Some(s) => Some(s.clone()),
        None => None,
    }
}

/// What an open task holds.
pub struct CurrentTaskView {
    pub project_name: Seq<char>,
    pub start_time: Instant,
    pub description: Option<Seq<char>>,
}

/// What a finished task holds.
pub struct TaskView {
    pub project_name: Seq<char>,
    pub start_time: Instant,
    pub end_time: Instant,
    pub description: Option<Seq<char>>,
}

impl CurrentTaskView {
    pub open spec fn wf(self) -> bool {
        self.start_time.wf()
    }
}

impl TaskView {
    /// Both instants are in range and the task does not end before it starts.
    pub open spec fn wf(self) -> bool {
        &&& self.start_time.wf()
        &&& self.end_time.wf()
        &&& self.start_time.value() <= self.end_time.value()
    }
}

/// A task that has started and is still running.
///
/// See `Task` for finished tasks.
#[derive(Debug)]
pub struct CurrentTask {
    project_name: String,
    start_time: Instant,
    description: Option<String>,
}

impl View for CurrentTask {
    type V = CurrentTaskView;

    closed spec fn view(&self) -> CurrentTaskView {
        CurrentTaskView {
            project_name: self.project_name@,
            start_time: self.start_time,
            description: opt_text(self.description),
        }
    }
}

/// A task that started at a certain time and has finished, with an optional
/// description.
#[derive(Debug)]
pub struct Task {
    project_name: String,
    start_time: Instant,
    end_time: Instant,
    description: Option<String>,
}

impl View for Task {
    type V = TaskView;

    closed spec fn view(&self) -> TaskView {
        TaskView {
            project_name: self.project_name@,
            start_time: self.start_time,
            end_time: self.end_time,
            description: opt_text(self.description),
        }
    }
}

/// The finished task that `current` becomes when it ends at `end_time`.
pub open spec fn closed_at(current: CurrentTaskView, end_time: Instant) -> TaskView {
    TaskView {
        project_name: current.project_name,
        start_time: current.start_time,
        end_time,
        description: current.description,
    }
}

impl CurrentTask {
    pub fn new(project_name: String, start_time: Instant, description: Option<String>) -> (r:
        CurrentTask)
        requires
            start_time.wf(),
        ensures
            r@ == (CurrentTaskView {
                project_name: project_name@,
                start_time,
                description: opt_text(description),
            }),
            r@.wf(),
    {
        CurrentTask { project_name, start_time, description }
    }

    /// Starts a task now, by the system clock; fails with `TimeOutOfRange`
    /// when the clock cannot be read as a supported instant.
    pub fn start(project_name: String, description: Option<String>) -> (r: Result<
        CurrentTask,
        TaskError,
    >)
        ensures
            match r {
                Ok(t) => t@.wf() && t@.project_name == project_name@ && t@.description
                    == opt_text(description),
                Err(e) => e == TaskError::TimeOutOfRange,
            },
    {
        match Instant::now() {
            Some(now) => Ok(CurrentTask::new(project_name, now, description)),
            None => Err(TaskError::TimeOutOfRange),
        }
    }

    /// Ends the task at `time`; fails, handing back both instants, when
    /// `time` is before the start.
    pub fn end_with_time(self, time: Instant) -> (r: Result<Task, TaskError>)
        requires
            self@.wf(),
            time.wf(),
        ensures
            time.value() < self@.start_time.value() ==> r == Err::<Task, TaskError>(
                TaskError::EndBeforeStart { start: self@.start_time, end: time },
            ),
            time.value() >= self@.start_time.value() ==> (r matches Ok(t) && t@ == closed_at(
                self@,
                time,
            )),
            r matches Ok(t) ==> t@.wf(),
    {
        if time.is_before(&self.start_time) {
            return Err(TaskError::EndBeforeStart { start: self.start_time, end: time });
        }
        Ok(Task::new(self.project_name, self.start_time, time, self.description))
    }

    /// Ends the task now, by the system clock.
    pub fn end(self) -> (r: Result<Task, TaskError>)
        requires
            self@.wf(),
        ensures
            match r {
                Ok(t) => t@.wf() && t@ == closed_at(self@, t@.end_time),
                Err(e) => e == TaskError::TimeOutOfRange || e matches TaskError::EndBeforeStart {
                    .. },
            },
    {
        match Instant::now() {
            Some(now) => self.end_with_time(now),
            None => Err(TaskError::TimeOutOfRange),
        }
    }

    /// How long the task has been running by the system clock; `None` when
    /// the clock cannot be read as a supported instant.
    pub fn duration(&self) -> (r: Option<Duration>)
        requires
            self@.wf(),
        ensures
            r matches Some(d) ==> -max_span() < d.nanos < max_span(),
    {
        match Instant::now() {
            Some(now) => Some(Duration::between(&self.start_time, &now)),
            None => None,
        }
    }

    pub fn project_name(&self) -> (r: &str)
        ensures
            r@ == self@.project_name,
    {
        self.project_name.as_str()
    }

    pub fn start_time(&self) -> (r: &Instant)
        ensures
            *r == self@.start_time,
    {
        &self.start_time
    }

    pub fn description(&self) -> (r: Option<&str>)
        ensures
            match r {
                Some(d) => self@.description == Some(d@),
                None => self@.description is None,
            },
    {
        match &self.description {
            Some(d) => Some(d.as_str()),
            None => None,
        }
    }
}

impl Task {
    pub fn new(
        project_name: String,
        start_time: Instant,
        end_time: Instant,
        description: Option<String>,
    ) -> (r: Task)
        requires
            start_time.wf(),
            end_time.wf(),
            start_time.value() <= end_time.value(),
        ensures
            r@ == (TaskView {
                project_name: project_name@,
                start_time,
                end_time,
                description: opt_text(description),
            }),
            r@.wf(),
    {
        Task { project_name, start_time, end_time, description }
    }

    /// The time from start to end.
    pub fn duration(&self) -> (r: Duration)
        requires
            self@.wf(),
        ensures
            r.nanos == self@.end_time.value() - self@.start_time.value(),
            0 <= r.nanos < max_span(),
    {
        Duration::between(&self.start_time, &self.end_time)
    }

    pub fn project_name(&self) -> (r: &str)
        ensures
            r@ == self@.project_name,
    {
        self.project_name.as_str()
    }

    pub fn start_time(&self) -> (r: &Instant)
        ensures
            *r == self@.start_time,
    {
        &self.start_time
    }

    pub fn end_time(&self) -> (r: &Instant)
        ensures
            *r == self@.end_time,
    {
        &self.end_time
    }

    pub fn description(&self) -> (r: Option<&str>)
        ensures
            match r {
                Some(d) => self@.description == Some(d@),
                None => self@.description is None,
            },
    {
        match &self.description {
            Some(d) => Some(d.as_str()),
            None => None,
        }
    }
}

/// The text of an optional borrowed string.
pub open spec fn opt_ref_text(o: Option<&String>) -> Option<Seq<char>> {
    match o {
        Some(s) => Some(s@),
        None => None,
    }
}

/// The open task for `project_name`, starting at `start_time` or else now by
/// the system clock.
pub fn new_current_task(
    project_name: &str,
    start_time: Option<Instant>,
    description: Option<&String>,
) -> (r: Result<CurrentTask, TaskError>)
    requires
        start_time matches Some(t) ==> t.wf(),
    ensures
        project_name@.len() == 0 ==> r == Err::<CurrentTask, TaskError>(
            TaskError::EmptyProjectName,
        ),
        project_name@.len() > 0 ==> match start_time {
            Some(st) => r matches Ok(t) && t@ == (CurrentTaskView {
                project_name: project_name@,
                start_time: st,
                description: opt_ref_text(description),
            }),
            None => match r {
                Ok(t) => t@.wf() && t@.project_name == project_name@ && t@.description
                    == opt_ref_text(description),
                Err(e) => e == TaskError::TimeOutOfRange,
            },
        },
{
    if project_name.is_empty() {
        return Err(TaskError::EmptyProjectName);
    }
    let description: Option<String> = match description {
        Some(d) => Some(d.clone()),
        None => None,
    };
    match start_time {
        Some(st) => Ok(CurrentTask::new(project_name.to_owned(), st, description)),
        None => CurrentTask::start(project_name.to_owned(), description),
    }
}

/// Starts a task for `project_name`, at `start_time` or else now by the
/// system clock, as the open task in `slot`. Whatever task was open before is
/// replaced: it is not ended and never reaches the store. On an error the slot
/// is left as it was.
pub fn start_task(
    slot: &mut Option<CurrentTask>,
    project_name: &str,
    start_time: Option<Instant>,
    description: Option<&String>,
) -> (r: Result<(), TaskError>)
    requires
        start_time matches Some(t) ==> t.wf(),
    ensures
        project_name@.len() == 0 ==> r == Err::<(), TaskError>(TaskError::EmptyProjectName),
        project_name@.len() > 0 ==> match start_time {
            Some(st) => r is Ok && (*final(slot) matches Some(t) && t@ == (CurrentTaskView {
                project_name: project_name@,
                start_time: st,
                description: opt_ref_text(description),
            })),
            None => match r {
                Ok(_) => *final(slot) matches Some(t) && t@.wf() && t@.project_name
                    == project_name@ && t@.description == opt_ref_text(description),
                Err(e) => e == TaskError::TimeOutOfRange,
            },
        },
        r is Err ==> *final(slot) == *old(slot),
{
    match new_current_task(project_name, start_time, description) {
        Ok(t) => {
            *slot = Some(t);
            Ok(())
        },
        Err(e) => Err(e),
    }
}

/// The outcome of ending the open task: the slot is emptied and, when
/// `store` is set, `task` is to be appended to the store.
#[derive(Debug)]
pub struct EndedTask {
    pub task: Task,
    pub store: bool,
}

/// Ends the open task in `slot`, if there is one, at `end_time` or else now by
/// the system clock, and empties the slot. With no open task there is nothing
/// to do: `Ok(None)`. On an error the slot is left as it was, so the open task
/// can still be ended at a corrected time.
pub fn end_current_task(slot: &mut Option<CurrentTask>, end_time: Option<Instant>, discard: bool) -> (r:
    Result<Option<EndedTask>, TaskError>)
    requires
        *old(slot) matches Some(c) ==> c@.wf(),
        end_time matches Some(t) ==> t.wf(),
    ensures
        *old(slot) is None ==> r matches Ok(None),
        *old(slot) matches Some(c) ==> match end_time {
            Some(t) => if t.value() < c@.start_time.value() {
                r == Err::<Option<EndedTask>, TaskError>(
                    TaskError::EndBeforeStart { start: c@.start_time, end: t },
                )
            } else {
                r matches Ok(Some(e)) && e.task@ == closed_at(c@, t) && e.store == !discard
            },
            None => match r {
                Ok(Some(e)) => e.task@.wf() && e.task@ == closed_at(c@, e.task@.end_time)
                    && e.store == !discard,
                Ok(None) => false,
                Err(e) => e == TaskError::TimeOutOfRange || e matches TaskError::EndBeforeStart {
                    .. },
            },
        },
        r matches Ok(Some(e)) ==> e.task@.wf() && *final(slot) is None,
        r matches Ok(None) ==> *final(slot) == *old(slot),
        r is Err ==> *final(slot) == *old(slot),
{
    let start = match slot.as_ref() {
        Some(c) => *c.start_time(),
        None => return Ok(None),
    };
    let end = match end_time {
        Some(t) => t,
        None => match Instant::now() {
            Some(now) => now,
            None => return Err(TaskError::TimeOutOfRange),
        },
    };
    if end.is_before(&start) {
        return Err(TaskError::EndBeforeStart { start, end });
    }
    match slot.take() {
        Some(c) => match c.end_with_time(end) {
            Ok(task) => Ok(Some(EndedTask { task, store: !discard })),
            Err(e) => Err(e),
        },
        None => Ok(None),
    }
}

/// Builds a finished task directly, for recording past work; it has nothing
/// to do with the open task.
pub fn add_task(project_name: &str, start_time: Instant, end_time: Instant, description: Option<&String>) -> (r:
    Result<Task, TaskError>)
    requires
        start_time.wf(),
        end_time.wf(),
    ensures
        project_name@.len() == 0 ==> r == Err::<Task, TaskError>(TaskError::EmptyProjectName),
        project_name@.len() > 0 && end_time.value() < start_time.value() ==> r == Err::<
            Task,
            TaskError,
        >(TaskError::EndBeforeStart { start: start_time, end: end_time }),
        project_name@.len() > 0 && end_time.value() >= start_time.value() ==> (r matches Ok(t)
            && t@ == (TaskView {
            project_name: project_name@,
            start_time,
            end_time,
            description: opt_ref_text(description),
        })),
        r matches Ok(t) ==> t@.wf(),
{
    let current = new_current_task(project_name, Some(start_time), description);
    match current {
        Ok(c) => c.end_with_time(end_time),
        Err(e) => Err(e),
    }
}

/// The stored form of the open task: its start time as RFC 3339 text.
#[derive(Debug)]
pub struct SlotRecord {
    pub project_name: String,
    pub start_time: String,
    pub description: Option<String>,
}

pub struct SlotRecordView {
    pub project_name: Seq<char>,
    pub start_time: Seq<char>,
    pub description: Option<Seq<char>>,
}

impl View for SlotRecord {
    type V = SlotRecordView;

    open spec fn view(&self) -> SlotRecordView {
        SlotRecordView {
            project_name: self.project_name@,
            start_time: self.start_time@,
            description: opt_text(self.description),
        }
    }
}

/// The instant that RFC 3339 text stands for, if it is one of the supported
/// years.
pub open spec fn instant_of_text(text: Seq<char>) -> Option<Instant> {
    match rfc3339_instant(text) {
        Some((secs, nanos)) => if (Instant { secs, nanos }).wf() {
            Some(Instant { secs, nanos })
        } else {
            None
        },
        None => None,
    }
}

/// Reads RFC 3339 text as an instant of the supported years.
pub fn parse_instant(text: &str) -> (r: Option<Instant>)
    ensures
        r == instant_of_text(text@),
{
    match parse_rfc3339(text) {
        Some((secs, nanos)) => Instant::from_parts(secs, nanos),
        None => None,
    }
}

/// The record that stores an open task.
pub open spec fn current_record(t: CurrentTaskView) -> SlotRecordView {
    SlotRecordView {
        project_name: t.project_name,
        start_time: rfc3339_text(t.start_time.secs, t.start_time.nanos),
        description: t.description,
    }
}

/// The open task that a record stores.
pub open spec fn current_of_record(r: SlotRecordView) -> Result<CurrentTaskView, RecordError> {
    match instant_of_text(r.start_time) {
        Some(start_time) => Ok(
            CurrentTaskView { project_name: r.project_name, start_time, description: r.description },
        ),
        None => Err(RecordError::BadStartTime),
    }
}

impl CurrentTask {
    /// The slot record of the open task; `from_record` gives it back.
    pub fn to_record(&self) -> (r: SlotRecord)
        requires
            self@.wf(),
        ensures
            r@ == current_record(self@),
            current_of_record(r@) == Ok::<CurrentTaskView, RecordError>(self@),
    {
        SlotRecord {
            project_name: self.project_name.clone(),
            start_time: to_rfc3339(&self.start_time),
            description: clone_opt(&self.description),
        }
    }

    /// The task that a saved record holds.
    pub fn from_record(record: &SlotRecord) -> (r: Result<CurrentTask, RecordError>)
        ensures
            match current_of_record(record@) {
                Ok(v) => r matches Ok(t) && t@ == v,
                Err(e) => r matches Err(f) && f == e,
            },
            r matches Ok(t) ==> t@.wf(),
    {
        match parse_instant(record.start_time.as_str()) {
            Some(start_time) => Ok(
                CurrentTask::new(
                    record.project_name.clone(),
                    start_time,
                    clone_opt(&record.description),
                ),
            ),
            None => Err(RecordError::BadStartTime),
        }
    }
}

} // verus!
