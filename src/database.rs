//! Finished tasks as rows of the task table, and queries over those rows.
//!
//! The table is `tasks(project_name TEXT NOT NULL, start_time TEXT NOT NULL,
//! end_time TEXT NOT NULL, description TEXT)`, with both times as RFC 3339
//! text. Reading and writing the table is left to the caller; this module says
//! what goes into a row and what a set of rows answers to a query.
use vstd::prelude::*;

use crate::error::RecordError;
use crate::tasks::{instant_of_text, opt_text, parse_instant, Task, TaskView};
use crate::time::{rfc3339_text, to_rfc3339, Instant};

verus! {

broadcast use vstd::seq_lib::group_to_multiset_ensures;

/// One row of the task table.
#[derive(Debug)]
pub struct TaskRow {
    pub project_name: String,
    pub start_time: String,
    pub end_time: String,
    pub description: Option<String>,
}

pub struct TaskRowView {
    pub project_name: Seq<char>,
    pub start_time: Seq<char>,
    pub end_time: Seq<char>,
    pub description: Option<Seq<char>>,
}

impl View for TaskRow {
    type V = TaskRowView;

    open spec fn view(&self) -> TaskRowView {
        TaskRowView {
            project_name: self.project_name@,
            start_time: self.start_time@,
            end_time: self.end_time@,
            description: opt_text(self.description),
        }
    }
}

/// The row that stores a finished task.
pub open spec fn row_of(t: TaskView) -> TaskRowView {
    TaskRowView {
        project_name: t.project_name,
        start_time: rfc3339_text(t.start_time.secs, t.start_time.nanos),
        end_time: rfc3339_text(t.end_time.secs, t.end_time.nanos),
        description: t.description,
    }
}

/// The finished task that a row stores, or why it stores none.
pub open spec fn task_of_row(r: TaskRowView) -> Result<TaskView, RecordError> {
    match instant_of_text(r.start_time) {
        None => Err(RecordError::BadStartTime),
        Some(start_time) => match instant_of_text(r.end_time) {
            None => Err(RecordError::BadEndTime),
            Some(end_time) => if end_time.value() < start_time.value() {
                Err(RecordError::EndBeforeStart)
            } else {
                Ok(
                    TaskView {
                        project_name: r.project_name,
                        start_time,
                        end_time,
                        description: r.description,
                    },
                )
            },
        },
    }
}

/// A row that could not be read, by its position in the table.
#[derive(Clone, Copy, Debug, PartialEq, Eq, Structural)]
pub struct RowFailure {
    pub row: usize,
    pub error: RecordError,
}

/// Every row of `rows` that cannot be read, in table order.
pub open spec fn failures(rows: Seq<TaskRowView>) -> Seq<RowFailure>
    decreases rows.len(),
{
    if rows.len() == 0 {
        seq![]
    } else {
        let earlier = failures(rows.drop_last());
        match task_of_row(rows.last()) {
            Err(error) => earlier.push(RowFailure { row: (rows.len() - 1) as usize, error }),
            Ok(_) => earlier,
        }
    }
}

/// The tasks of the rows that can be read, in table order.
pub open spec fn tasks_of_rows(rows: Seq<TaskRowView>) -> Seq<TaskView>
    decreases rows.len(),
{
    if rows.len() == 0 {
        seq![]
    } else {
        let earlier = tasks_of_rows(rows.drop_last());
        match task_of_row(rows.last()) {
            Ok(t) => earlier.push(t),
            Err(_) => earlier,
        }
    }
}

/// Whether `t` started in `[from, to)`: at `from` or later, and before `to`.
pub open spec fn starts_within(t: TaskView, from: Instant, to: Instant) -> bool {
    from.value() <= t.start_time.value() < to.value()
}

/// The tasks of `ts` that started in `[from, to)`, in their order.
pub open spec fn select_range(ts: Seq<TaskView>, from: Instant, to: Instant) -> Seq<TaskView>
    decreases ts.len(),
{
    if ts.len() == 0 {
        seq![]
    } else {
        let earlier = select_range(ts.drop_last(), from, to);
        if starts_within(ts.last(), from, to) {
            earlier.push(ts.last())
        } else {
            earlier
        }
    }
}

/// The views of a vector of tasks.
pub open spec fn task_views(ts: Seq<Task>) -> Seq<TaskView> {
    ts.map_values(|t: Task| t@)
}

/// A query failed because rows of the table could not be read; all of them
/// are listed.
#[derive(Debug)]
pub struct StoreError {
    pub failures: Vec<RowFailure>,
}

/// The row to append to the table for a finished task. Reading the row back
/// gives the task.
pub fn append_task(task: &Task) -> (r: TaskRow)
    requires
        task@.wf(),
    ensures
        r@ == row_of(task@),
        task_of_row(r@) == Ok::<TaskView, RecordError>(task@),
{
    let r = TaskRow {
        project_name: task.project_name().to_owned(),
        start_time: to_rfc3339(task.start_time()),
        end_time: to_rfc3339(task.end_time()),
        description: match task.description() {
            Some(d) => Some(d.to_owned()),
            None => None,
        },
    };
    assert(r@.description == task@.description);
    r
}

/// Reads one row as a finished task.
pub fn read_row(row: &TaskRow) -> (r: Result<Task, RecordError>)
    ensures
        match task_of_row(row@) {
            Ok(v) => r matches Ok(t) && t@ == v,
            Err(e) => r matches Err(f) && f == e,
        },
        r matches Ok(t) ==> t@.wf(),
{
    let start_time = match parse_instant(row.start_time.as_str()) {
        Some(t) => t,
        None => return Err(RecordError::BadStartTime),
    };
    let end_time = match parse_instant(row.end_time.as_str()) {
        Some(t) => t,
        None => return Err(RecordError::BadEndTime),
    };
    if end_time.is_before(&start_time) {
        return Err(RecordError::EndBeforeStart);
    }
    let description = match &row.description {
        Some(d) => Some(d.clone()),
        None => None,
    };
    Ok(Task::new(row.project_name.clone(), start_time, end_time, description))
}

proof fn lemma_push_unfold(rows: Seq<TaskRowView>, row: TaskRowView)
    ensures
        rows.push(row).drop_last() == rows,
        rows.push(row).last() == row,
{
    assert(rows.push(row).drop_last() =~= rows);
}

/// Reads the rows of `rows` whose task started in `[from, to)`. The query
/// fails when any row of the table cannot be read, and then lists them all.
fn read_rows(rows: &Vec<TaskRow>, from: Instant, to: Instant, bounded: bool) -> (r: Result<
    Vec<Task>,
    StoreError,
>)
    requires
        bounded ==> from.wf() && to.wf(),
    ensures
        failures(rows@.map_values(|r: TaskRow| r@)).len() == 0 <==> r is Ok,
        r matches Ok(ts) ==> task_views(ts@) == (if bounded {
            select_range(tasks_of_rows(rows@.map_values(|r: TaskRow| r@)), from, to)
        } else {
            tasks_of_rows(rows@.map_values(|r: TaskRow| r@))
        }),
        r matches Ok(ts) ==> forall|i: int| 0 <= i < ts@.len() ==> (#[trigger] ts@[i])@.wf(),
        r matches Err(e) ==> e.failures@ == failures(rows@.map_values(|r: TaskRow| r@)),
{
    let ghost views = rows@.map_values(|r: TaskRow| r@);
    let mut out: Vec<Task> = Vec::new();
    let mut bad: Vec<RowFailure> = Vec::new();
    let mut i: usize = 0;
    while i < rows.len()
        invariant
            i <= rows@.len(),
            bounded ==> from.wf() && to.wf(),
            views == rows@.map_values(|r: TaskRow| r@),
            bad@ == failures(views.take(i as int)),
            task_views(out@) == (if bounded {
                select_range(tasks_of_rows(views.take(i as int)), from, to)
            } else {
                tasks_of_rows(views.take(i as int))
            }),
            forall|k: int| 0 <= k < out@.len() ==> (#[trigger] out@[k])@.wf(),
        decreases rows@.len() - i,
    {
        let ghost before = views.take(i as int);
        proof {
            assert(views.take(i as int + 1) =~= before.push(views[i as int]));
            lemma_push_unfold(before, views[i as int]);
        }
        match read_row(&rows[i]) {
            Ok(t) => {
                let ghost tasks_before = tasks_of_rows(before);
                proof {
                    assert(tasks_of_rows(views.take(i as int + 1)) == tasks_before.push(t@));
                    assert(tasks_before.push(t@).drop_last() =~= tasks_before);
                }
                if !bounded || (!t.start_time().is_before(&from) && t.start_time().is_before(&to)) {
                    let ghost out_before = out@;
                    out.push(t);
                    proof {
                        assert(task_views(out@) =~= task_views(out_before).push(t@));
                    }
                }
            },
            Err(error) => {
                bad.push(RowFailure { row: i, error });
            },
        }
        i = i + 1;
    }
    proof {
        assert(views.take(rows@.len() as int) =~= views);
    }
    if bad.len() == 0 {
        Ok(out)
    } else {
        Err(StoreError { failures: bad })
    }
}

/// Every task of the table, in table order; fails when any row cannot be
/// read.
pub fn extract_all_tasks(rows: &Vec<TaskRow>) -> (r: Result<Vec<Task>, StoreError>)
    ensures
        failures(rows@.map_values(|r: TaskRow| r@)).len() == 0 <==> r is Ok,
        r matches Ok(ts) ==> task_views(ts@) == tasks_of_rows(rows@.map_values(|r: TaskRow| r@)),
        r matches Err(e) ==> e.failures@ == failures(rows@.map_values(|r: TaskRow| r@)),
{
    let from = Instant { secs: 0, nanos: 0 };
    read_rows(rows, from, from, false)
}

/// The tasks of the table that started in `[from, to)`, in table order; fails
/// when any row of the table cannot be read.
pub fn extract_tasks(rows: &Vec<TaskRow>, from: Instant, to: Instant) -> (r: Result<
    Vec<Task>,
    StoreError,
>)
    requires
        from.wf(),
        to.wf(),
    ensures
        failures(rows@.map_values(|r: TaskRow| r@)).len() == 0 <==> r is Ok,
        r matches Ok(ts) ==> task_views(ts@) == select_range(
            tasks_of_rows(rows@.map_values(|r: TaskRow| r@)),
            from,
            to,
        ),
        r matches Err(e) ==> e.failures@ == failures(rows@.map_values(|r: TaskRow| r@)),
{
    read_rows(rows, from, to, true)
}

/// Queries over adjoining windows tile: the tasks that started in `[a, c)`
/// are those that started in `[a, b)` together with those that started in
/// `[b, c)`, none counted twice and none dropped.
pub proof fn lemma_adjoining_ranges(ts: Seq<TaskView>, a: Instant, b: Instant, c: Instant)
    requires
        a.value() <= b.value() <= c.value(),
    ensures
        select_range(ts, a, b).to_multiset().add(select_range(ts, b, c).to_multiset())
            == select_range(ts, a, c).to_multiset(),
    decreases ts.len(),
{
    if ts.len() > 0 {
        lemma_adjoining_ranges(ts.drop_last(), a, b, c);
    }
    assert(select_range(ts, a, b).to_multiset().add(select_range(ts, b, c).to_multiset())
        =~= select_range(ts, a, c).to_multiset());
}

/// A task appended to the table, as a row that reads back as that task (which
/// is what `append_task` gives), is the last task that a query over any
/// window holding its start time returns, with its own start and end and so
/// its duration. The query still succeeds when it did before.
pub proof fn lemma_appended_task_found(
    rows: Seq<TaskRowView>,
    row: TaskRowView,
    t: TaskView,
    from: Instant,
    to: Instant,
)
    requires
        task_of_row(row) == Ok::<TaskView, RecordError>(t),
        from.value() <= t.start_time.value() < to.value(),
    ensures
        failures(rows).len() == 0 ==> failures(rows.push(row)).len() == 0,
        select_range(tasks_of_rows(rows.push(row)), from, to).len() > 0,
        select_range(tasks_of_rows(rows.push(row)), from, to).last() == t,
        select_range(tasks_of_rows(rows.push(row)), from, to).last().end_time.value()
            - select_range(tasks_of_rows(rows.push(row)), from, to).last().start_time.value()
            == t.end_time.value() - t.start_time.value(),
{
    lemma_push_unfold(rows, row);
    let ts = tasks_of_rows(rows);
    assert(tasks_of_rows(rows.push(row)) == ts.push(t));
    assert(ts.push(t).drop_last() =~= ts);
}

} // verus!
