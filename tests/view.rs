use timekeep::error::TaskError;
use timekeep::time::Date;
use timekeep::view::{date_window, DateWindow, ViewFilter};

fn date(year: i32, month: u32, day: u32) -> Date {
    Date { year, month, day }
}

#[test]
fn month_window_in_december_ends_next_year() {
    let w = date_window(ViewFilter::Month, date(2022, 12, 15)).unwrap().unwrap();
    assert_eq!(w, DateWindow { from: date(2022, 12, 1), to: date(2023, 1, 1) });
    assert_eq!(w.to.year, w.from.year + 1);
}

#[test]
fn month_window_in_february() {
    let leap = date_window(ViewFilter::Month, date(2024, 2, 29)).unwrap().unwrap();
    assert_eq!(leap, DateWindow { from: date(2024, 2, 1), to: date(2024, 3, 1) });
    let plain = date_window(ViewFilter::Month, date(2023, 2, 28)).unwrap().unwrap();
    assert_eq!(plain, DateWindow { from: date(2023, 2, 1), to: date(2023, 3, 1) });
}

#[test]
fn day_window_is_one_day() {
    let w = date_window(ViewFilter::Day, date(2024, 2, 28)).unwrap().unwrap();
    assert_eq!(w, DateWindow { from: date(2024, 2, 28), to: date(2024, 2, 29) });
    let w = date_window(ViewFilter::Day, date(2023, 12, 31)).unwrap().unwrap();
    assert_eq!(w, DateWindow { from: date(2023, 12, 31), to: date(2024, 1, 1) });
}

#[test]
fn week_window_starts_on_monday() {
    let w = date_window(ViewFilter::Week, date(2022, 2, 3)).unwrap().unwrap();
    assert_eq!(w, DateWindow { from: date(2022, 1, 31), to: date(2022, 2, 7) });
    let w = date_window(ViewFilter::Week, date(2022, 1, 31)).unwrap().unwrap();
    assert_eq!(w, DateWindow { from: date(2022, 1, 31), to: date(2022, 2, 7) });
    let w = date_window(ViewFilter::Week, date(2021, 1, 1)).unwrap().unwrap();
    assert_eq!(w, DateWindow { from: date(2020, 12, 28), to: date(2021, 1, 4) });
}

#[test]
fn year_window_is_one_year() {
    let w = date_window(ViewFilter::Year, date(2022, 6, 15)).unwrap().unwrap();
    assert_eq!(w, DateWindow { from: date(2022, 1, 1), to: date(2023, 1, 1) });
}

#[test]
fn all_and_current_are_not_windows() {
    assert_eq!(date_window(ViewFilter::All, date(2022, 6, 15)), Ok(None));
    assert_eq!(date_window(ViewFilter::Current, date(2022, 6, 15)), Err(TaskError::NotARange));
}

use timekeep::database::{append_task, TaskRow};
use timekeep::tasks::Task;
use timekeep::time::Instant;
use timekeep::view::{local_window, view_filtered, ViewError};

fn rows_with(start: Instant) -> Vec<TaskRow> {
    let old = Instant { secs: 0, nanos: 0 };
    vec![
        append_task(&Task::new("old".to_string(), old, old, None)),
        append_task(&Task::new("now".to_string(), start, start, None)),
    ]
}

#[test]
fn view_of_current_is_not_a_range() {
    let rows = rows_with(Instant { secs: 1_000, nanos: 0 });
    match view_filtered(ViewFilter::Current, date(2022, 6, 15), &rows) {
        Err(ViewError::Task(e)) => assert_eq!(e, TaskError::NotARange),
        other => panic!("unexpected {:?}", other),
    }
}

#[test]
fn view_of_all_lists_every_task() {
    let rows = rows_with(Instant { secs: 1_000, nanos: 0 });
    let all = view_filtered(ViewFilter::All, date(2022, 6, 15), &rows).unwrap();
    assert_eq!(all.len(), 2);
}

#[test]
fn view_of_today_holds_a_task_started_now() {
    let today = Date::today().unwrap();
    let now = Instant::now().unwrap();
    let rows = rows_with(now);
    let (from, to) = local_window(ViewFilter::Day, today).unwrap().unwrap();
    assert!(!now.is_before(&from) && now.is_before(&to));
    for filter in [ViewFilter::Day, ViewFilter::Week, ViewFilter::Month, ViewFilter::Year] {
        let found = view_filtered(filter, today, &rows).unwrap();
        assert_eq!(found.len(), 1);
        assert_eq!(found[0].project_name(), "now");
    }
}
