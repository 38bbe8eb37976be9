use timekeep::database::{append_task, extract_all_tasks, extract_tasks, read_row, RowFailure, TaskRow};
use timekeep::error::RecordError;
use timekeep::tasks::{add_task, start_task, end_current_task, Task};
use timekeep::time::{Duration, Instant};

fn at(secs: i64) -> Instant {
    Instant { secs, nanos: 0 }
}

fn task(name: &str, start: i64, end: i64) -> Task {
    Task::new(name.to_string(), at(start), at(end), None)
}

fn row(start: &str, end: &str) -> TaskRow {
    TaskRow {
        project_name: "p".to_string(),
        start_time: start.to_string(),
        end_time: end.to_string(),
        description: None,
    }
}

#[test]
fn appended_row_holds_rfc3339_times() {
    let r = append_task(&Task::new("acme".to_string(), at(0), at(90), Some("d".to_string())));
    assert_eq!(r.project_name, "acme");
    assert_eq!(r.start_time, "1970-01-01T00:00:00+00:00");
    assert_eq!(r.end_time, "1970-01-01T00:01:30+00:00");
    assert_eq!(r.description, Some("d".to_string()));
}

#[test]
fn added_task_is_found_with_its_duration() {
    let start = Instant { secs: 1_000_000, nanos: 5 };
    let end = Instant { secs: 1_000_060, nanos: 7 };
    let added = add_task("acme", start, end, None).unwrap();
    let rows = vec![append_task(&task("other", 10, 20)), append_task(&added)];
    let found = extract_tasks(&rows, start, Instant { secs: 1_000_000, nanos: 6 }).unwrap();
    assert_eq!(found.len(), 1);
    assert_eq!(found[0].project_name(), "acme");
    assert_eq!(found[0].duration(), Duration { nanos: 60_000_000_002 });
}

#[test]
fn range_is_half_open() {
    let rows = vec![
        append_task(&task("a", 100, 150)),
        append_task(&task("b", 200, 250)),
        append_task(&task("c", 300, 301)),
    ];
    let found = extract_tasks(&rows, at(100), at(300)).unwrap();
    let names: Vec<&str> = found.iter().map(|t| t.project_name()).collect();
    assert_eq!(names, vec!["a", "b"]);
    assert!(extract_tasks(&rows, at(301), at(1000)).unwrap().is_empty());
    assert!(extract_tasks(&rows, at(200), at(200)).unwrap().is_empty());
}

#[test]
fn adjoining_ranges_tile() {
    let rows = vec![
        append_task(&task("a", 100, 150)),
        append_task(&task("b", 200, 250)),
        append_task(&task("c", 199, 300)),
        append_task(&task("d", 300, 301)),
        append_task(&task("e", 200, 200)),
    ];
    let (a, b, c) = (at(100), at(200), at(301));
    let left = extract_tasks(&rows, a, b).unwrap();
    let right = extract_tasks(&rows, b, c).unwrap();
    let whole = extract_tasks(&rows, a, c).unwrap();
    assert_eq!(left.len() + right.len(), whole.len());
    let mut split: Vec<&str> = left.iter().chain(right.iter()).map(|t| t.project_name()).collect();
    let mut all: Vec<&str> = whole.iter().map(|t| t.project_name()).collect();
    split.sort();
    all.sort();
    assert_eq!(split, all);
}

#[test]
fn all_tasks_in_table_order() {
    let rows = vec![append_task(&task("b", 200, 250)), append_task(&task("a", 100, 150))];
    let all = extract_all_tasks(&rows).unwrap();
    let names: Vec<&str> = all.iter().map(|t| t.project_name()).collect();
    assert_eq!(names, vec!["b", "a"]);
    assert!(extract_all_tasks(&Vec::new()).unwrap().is_empty());
}

#[test]
fn rows_in_other_offsets_are_read() {
    let t = read_row(&row("1970-01-01T01:00:00+01:00", "1970-01-01T00:00:10Z")).unwrap();
    assert_eq!(*t.start_time(), at(0));
    assert_eq!(*t.end_time(), at(10));
}

#[test]
fn bad_rows_are_reported() {
    assert_eq!(read_row(&row("x", "1970-01-01T00:00:10Z")).unwrap_err(), RecordError::BadStartTime);
    assert_eq!(read_row(&row("1970-01-01T00:00:10Z", "")).unwrap_err(), RecordError::BadEndTime);
    assert_eq!(
        read_row(&row("1970-01-01T00:00:10Z", "1970-01-01T00:00:00Z")).unwrap_err(),
        RecordError::EndBeforeStart
    );
}

#[test]
fn query_fails_on_any_bad_row_and_lists_them_all() {
    let rows = vec![
        row("x", "1970-01-01T00:00:10Z"),
        append_task(&task("a", 100, 150)),
        row("1970-01-01T00:00:10Z", "1970-01-01T00:00:00Z"),
    ];
    let e = extract_tasks(&rows, at(1000), at(2000)).unwrap_err();
    assert_eq!(
        e.failures,
        vec![
            RowFailure { row: 0, error: RecordError::BadStartTime },
            RowFailure { row: 2, error: RecordError::EndBeforeStart },
        ]
    );
    assert_eq!(extract_all_tasks(&rows).unwrap_err().failures.len(), 2);
}

#[test]
fn start_end_scenario_stores_one_record() {
    let t = at(1643721255);
    let t30 = at(1643721255 + 30 * 60);
    let mut slot = None;
    start_task(&mut slot, "acme", Some(t), None).unwrap();
    let ended = end_current_task(&mut slot, Some(t30), false).unwrap().unwrap();
    assert!(ended.store);
    assert!(slot.is_none());
    let rows = vec![append_task(&ended.task)];
    let all = extract_all_tasks(&rows).unwrap();
    assert_eq!(all.len(), 1);
    assert_eq!(all[0].project_name(), "acme");
    assert_eq!(*all[0].start_time(), t);
    assert_eq!(*all[0].end_time(), t30);
    assert_eq!(all[0].description(), None);
}
