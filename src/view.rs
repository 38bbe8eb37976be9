//! Named time windows ("today", "this week", ...) for viewing tasks.
use vstd::prelude::*;

use crate::database::{
    extract_all_tasks, extract_tasks, failures, select_range, task_views, tasks_of_rows, StoreError,
    TaskRow,
};
use crate::error::TaskError;
use crate::tasks::Task;
use crate::time::{days_after, days_before, lemma_weekday_prev, next_day, weekday, Date, Instant};

verus! {

/// Which tasks to view.
#[derive(Clone, Copy, Debug, PartialEq, Eq, Structural)]
pub enum ViewFilter {
    /// The running task.
    Current,
    /// Every finished task.
    All,
    /// Tasks started today.
    Day,
    /// Tasks started this week, which begins on Monday.
    Week,
    /// Tasks started this month.
    Month,
    /// Tasks started this year.
    Year,
}

/// The days `[from, to)`: `from` included, `to` excluded.
#[derive(Clone, Copy, Debug, PartialEq, Eq, Structural)]
pub struct DateWindow {
    pub from: Date,
    pub to: Date,
}

/// The first day of the month after the month of `d`.
pub open spec fn first_of_next_month(d: Date) -> Date {
    if d.month < 12 {
        Date { year: d.year, month: (d.month + 1) as u32, day: 1 }
    } else {
        Date { year: (d.year + 1) as i32, month: 1, day: 1 }
    }
}

/// The window that `filter` names on the day `today`: `None` for all tasks,
/// and no window at all for the running task.
pub open spec fn window_of(filter: ViewFilter, today: Date) -> Result<Option<DateWindow>, TaskError> {
    match filter {
        ViewFilter::Current => Err(TaskError::NotARange),
        ViewFilter::All => Ok(None),
        ViewFilter::Day => Ok(Some(DateWindow { from: today, to: next_day(today) })),
        ViewFilter::Week => {
            let monday = days_before(today, weekday(today) as nat);
            Ok(Some(DateWindow { from: monday, to: days_after(monday, 7) }))
        },
        ViewFilter::Month => Ok(
            Some(
                DateWindow {
                    from: Date { year: today.year, month: today.month, day: 1 },
                    to: first_of_next_month(today),
                },
            ),
        ),
        ViewFilter::Year => Ok(
            Some(
                DateWindow {
                    from: Date { year: today.year, month: 1, day: 1 },
                    to: Date { year: (today.year + 1) as i32, month: 1, day: 1 },
                },
            ),
        ),
    }
}

/// Resolves `filter` into the days it covers, counted from `today`.
pub fn date_window(filter: ViewFilter, today: Date) -> (r: Result<Option<DateWindow>, TaskError>)
    requires
        today.is_valid(),
        i32::MIN < today.year < i32::MAX,
    ensures
        r == window_of(filter, today),
        r matches Ok(Some(w)) ==> w.from.is_valid() && w.to.is_valid(),
        filter == ViewFilter::Week ==> (r matches Ok(Some(w)) && weekday(w.from) == 0),
{
    match filter {
        ViewFilter::Current => Err(TaskError::NotARange),
        ViewFilter::All => Ok(None),
        ViewFilter::Day => Ok(Some(DateWindow { from: today, to: today.succ() })),
        ViewFilter::Week => {
            let back = today.weekday();
            let mut monday = today;
            let mut i: u32 = 0;
            while i < back
                invariant
                    today.is_valid(),
                    i32::MIN < today.year < i32::MAX,
                    back == weekday(today),
                    back < 7,
                    i <= back,
                    monday == days_before(today, i as nat),
                    monday.is_valid(),
                    weekday(monday) == weekday(today) - i,
                    monday.year == today.year || (monday.year == today.year - 1 && monday.month
                        == 12 && monday.day + i >= 32),
                decreases back - i,
            {
                proof {
                    lemma_weekday_prev(monday);
                }
                monday = monday.pred();
                i = i + 1;
            }
            let mut end = monday;
            let mut j: u32 = 0;
            while j < 7
                invariant
                    i32::MIN < today.year < i32::MAX,
                    monday.year == today.year || (monday.year == today.year - 1 && monday.month
                        == 12),
                    j <= 7,
                    end == days_after(monday, j as nat),
                    end.is_valid(),
                    end.year == monday.year || (end.year == monday.year + 1 && end.month == 1
                        && end.day <= j),
                decreases 7 - j,
            {
                end = end.succ();
                j = j + 1;
            }
            Ok(Some(DateWindow { from: monday, to: end }))
        },
        ViewFilter::Month => {
            let to = if today.month < 12 {
                Date { year: today.year, month: today.month + 1, day: 1 }
            } else {
                Date { year: today.year + 1, month: 1, day: 1 }
            };
            Ok(Some(DateWindow { from: Date { year: today.year, month: today.month, day: 1 }, to }))
        },
        ViewFilter::Year => Ok(
            Some(
                DateWindow {
                    from: Date { year: today.year, month: 1, day: 1 },
                    to: Date { year: today.year + 1, month: 1, day: 1 },
                },
            ),
        ),
    }
}

/// Resolves `filter` into the instants `[from, to)` that it covers, taking
/// each bound as local midnight at the start of the window's day.
pub fn local_window(filter: ViewFilter, today: Date) -> (r: Result<Option<(Instant, Instant)>, TaskError>)
    requires
        today.is_valid(),
        i32::MIN < today.year < i32::MAX,
    ensures
        (filter == ViewFilter::Current) == (r == Err::<Option<(Instant, Instant)>, TaskError>(
            TaskError::NotARange,
        )),
        (filter == ViewFilter::All) == (r == Ok::<Option<(Instant, Instant)>, TaskError>(None)),
        r matches Ok(Some((from, to))) ==> from.wf() && to.wf(),
        r matches Err(e) ==> e == TaskError::NotARange || e == TaskError::TimeOutOfRange,
{
    match date_window(filter, today) {
        Err(e) => Err(e),
        Ok(None) => Ok(None),
        Ok(Some(w)) => {
            match (w.from.local_start(), w.to.local_start()) {
                (Some(from), Some(to)) => Ok(Some((from, to))),
                _ => Err(TaskError::TimeOutOfRange),
            }
        },
    }
}

/// In December the month window runs from the first of December to the first
/// of January of the following year.
pub proof fn lemma_december_month_window(today: Date)
    requires
        today.is_valid(),
        today.month == 12,
        today.year < i32::MAX,
    ensures
        window_of(ViewFilter::Month, today) == Ok::<Option<DateWindow>, TaskError>(
            Some(
                DateWindow {
                    from: Date { year: today.year, month: 12, day: 1 },
                    to: Date { year: (today.year + 1) as i32, month: 1, day: 1 },
                },
            ),
        ),
{
}

/// Why a view of finished tasks failed.
#[derive(Debug)]
pub enum ViewError {
    /// The filter names no range, or its window could not be placed in time.
    Task(TaskError),
    /// Rows of the table could not be read.
    Store(StoreError),
}

/// The finished tasks of the table `rows` that `filter` selects on the day
/// `today`, in table order. `Current` is not a range of finished tasks: the
/// open task is viewed on its own.
pub fn view_filtered(filter: ViewFilter, today: Date, rows: &Vec<TaskRow>) -> (r: Result<
    Vec<Task>,
    ViewError,
>)
    requires
        today.is_valid(),
        i32::MIN < today.year < i32::MAX,
    ensures
        filter == ViewFilter::Current ==> r matches Err(ViewError::Task(TaskError::NotARange)),
        filter == ViewFilter::All ==> match r {
            Ok(ts) => failures(rows@.map_values(|r: TaskRow| r@)).len() == 0 && task_views(ts@)
                == tasks_of_rows(rows@.map_values(|r: TaskRow| r@)),
            Err(ViewError::Store(e)) => e.failures@ == failures(
                rows@.map_values(|r: TaskRow| r@),
            ) && e.failures@.len() > 0,
            Err(ViewError::Task(_)) => false,
        },
        r matches Ok(ts) ==> failures(rows@.map_values(|r: TaskRow| r@)).len() == 0,
        filter != ViewFilter::All ==> (r matches Ok(ts) ==> exists|from: Instant, to: Instant|
            from.wf() && to.wf() && task_views(ts@) == select_range(
                tasks_of_rows(rows@.map_values(|r: TaskRow| r@)),
                from,
                to,
            )),
        r matches Err(ViewError::Task(e)) ==> e == TaskError::NotARange || e
            == TaskError::TimeOutOfRange,
        r matches Err(ViewError::Store(e)) ==> e.failures@ == failures(
            rows@.map_values(|r: TaskRow| r@),
        ),
{
    match local_window(filter, today) {
        Err(e) => Err(ViewError::Task(e)),
        Ok(None) => match extract_all_tasks(rows) {
            Ok(ts) => Ok(ts),
            Err(e) => Err(ViewError::Store(e)),
        },
        Ok(Some((from, to))) => match extract_tasks(rows, from, to) {
            Ok(ts) => Ok(ts),
            Err(e) => Err(ViewError::Store(e)),
        },
    }
}

} // verus!
