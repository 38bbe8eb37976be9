use timekeep::database::append_task;
use timekeep::tasks::{parse_instant, Task};
use timekeep::time::{month_length, Date, Duration, Instant, MAX_SECS, MIN_SECS};

fn to_rfc3339(t: &Instant) -> String {
    append_task(&Task::new(String::new(), *t, *t, None)).start_time
}

#[test]
fn instant_range_is_enforced() {
    assert_eq!(Instant::from_parts(0, 0), Some(Instant { secs: 0, nanos: 0 }));
    assert_eq!(Instant::from_parts(MIN_SECS, 0), Some(Instant { secs: MIN_SECS, nanos: 0 }));
    assert_eq!(Instant::from_parts(MAX_SECS, 999_999_999), Some(Instant { secs: MAX_SECS, nanos: 999_999_999 }));
    assert_eq!(Instant::from_parts(MIN_SECS - 1, 0), None);
    assert_eq!(Instant::from_parts(MAX_SECS + 1, 0), None);
    assert_eq!(Instant::from_parts(5, 1_000_000_000), None);
}

#[test]
fn instants_order_by_seconds_then_nanoseconds() {
    let a = Instant { secs: 10, nanos: 999_999_999 };
    let b = Instant { secs: 11, nanos: 0 };
    let c = Instant { secs: 11, nanos: 1 };
    assert!(a.is_before(&b));
    assert!(b.is_before(&c));
    assert!(!b.is_before(&b));
    assert!(!c.is_before(&a));
}

#[test]
fn duration_between_instants() {
    let a = Instant { secs: 10, nanos: 500 };
    let b = Instant { secs: 12, nanos: 100 };
    assert_eq!(Duration::between(&a, &b), Duration { nanos: 1_999_999_600 });
    assert_eq!(Duration::between(&b, &a), Duration { nanos: -1_999_999_600 });
    assert_eq!(Duration { nanos: 1_999_999_600 }.num_milliseconds(), 1999);
    assert_eq!(Duration { nanos: -1_999_999_600 }.num_milliseconds(), -1999);
}

#[test]
fn rfc3339_text_of_instants() {
    assert_eq!(to_rfc3339(&Instant { secs: 0, nanos: 0 }), "1970-01-01T00:00:00+00:00");
    assert_eq!(to_rfc3339(&Instant { secs: 1643721255, nanos: 500_000_000 }), "2022-02-01T13:14:15.500+00:00");
    assert_eq!(to_rfc3339(&Instant { secs: MIN_SECS, nanos: 0 }), "0000-01-01T00:00:00+00:00");
    assert_eq!(to_rfc3339(&Instant { secs: MAX_SECS, nanos: 0 }), "9999-12-31T23:59:59+00:00");
}

#[test]
fn rfc3339_reading_normalises_offsets() {
    assert_eq!(parse_instant("2022-02-01T13:14:15Z"), Some(Instant { secs: 1643721255, nanos: 0 }));
    assert_eq!(
        parse_instant("2022-02-01T14:14:15.25+01:00"),
        Some(Instant { secs: 1643721255, nanos: 250_000_000 })
    );
    assert_eq!(parse_instant("2022-02-01 13:14"), None);
    assert_eq!(parse_instant("10000-01-01T00:00:00Z"), None);
    let t = Instant { secs: 1234567890, nanos: 123_456_789 };
    assert_eq!(parse_instant(&to_rfc3339(&t)), Some(t));
    let first = Instant { secs: MIN_SECS, nanos: 0 };
    assert_eq!(parse_instant(&to_rfc3339(&first)), Some(first));
    let last = Instant { secs: MAX_SECS, nanos: 999_999_999 };
    assert_eq!(parse_instant(&to_rfc3339(&last)), Some(last));
}

#[test]
fn month_lengths_follow_leap_years() {
    assert_eq!(month_length(2024, 2), 29);
    assert_eq!(month_length(2023, 2), 28);
    assert_eq!(month_length(2000, 2), 29);
    assert_eq!(month_length(1900, 2), 28);
    assert_eq!(month_length(-4, 2), 29);
    assert_eq!(month_length(2023, 4), 30);
    assert_eq!(month_length(2023, 12), 31);
}

#[test]
fn dates_are_checked() {
    assert_eq!(Date::from_ymd(2024, 2, 29), Some(Date { year: 2024, month: 2, day: 29 }));
    assert_eq!(Date::from_ymd(2023, 2, 29), None);
    assert_eq!(Date::from_ymd(2023, 13, 1), None);
    assert_eq!(Date::from_ymd(2023, 1, 0), None);
}

#[test]
fn next_and_previous_days_roll_over() {
    let d = Date { year: 2022, month: 12, day: 31 };
    assert_eq!(d.succ(), Date { year: 2023, month: 1, day: 1 });
    assert_eq!(d.succ().pred(), d);
    assert_eq!(Date { year: 2024, month: 2, day: 28 }.succ(), Date { year: 2024, month: 2, day: 29 });
    assert_eq!(Date { year: 2023, month: 2, day: 28 }.succ(), Date { year: 2023, month: 3, day: 1 });
    assert_eq!(Date { year: 2024, month: 3, day: 1 }.pred(), Date { year: 2024, month: 2, day: 29 });
}

#[test]
fn weekdays_count_from_monday() {
    assert_eq!(Date { year: 2022, month: 2, day: 1 }.weekday(), 1);
    assert_eq!(Date { year: 1970, month: 1, day: 1 }.weekday(), 3);
    assert_eq!(Date { year: 2000, month: 1, day: 1 }.weekday(), 5);
    assert_eq!(Date { year: 2021, month: 1, day: 1 }.weekday(), 4);
}
