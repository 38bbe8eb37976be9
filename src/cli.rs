//! The commands of the command-line interface, as plain values. Argument
//! parsing itself belongs to the program that uses the library.
use vstd::prelude::*;

use crate::time::{Date, Instant};

verus! {

/// A parsed command line.
pub struct Cli {
    pub command: Commands,
}

/// What the command line asks for.
#[allow(inconsistent_fields)]
pub enum Commands {
    /// Start a new task now, ending and saving any currently running task.
    Start {
        /// Project name for the task.
        project_name: String,
        /// Start time; the current time when not given.
        start_time: Option<String>,
        /// Task description.
        description: Option<String>,
        /// Replace the current task instead of ending it first.
        overwrite: bool,
    },
    /// Save and end the current task.
    End {
        /// End time; the current time when not given.
        end_time: Option<String>,
        /// End the current task without saving it.
        discard: bool,
    },
    /// Add a task with given start and end times.
    Add {
        /// Project name for the task.
        project_name: String,
        /// Date and time the task started.
        start_time: String,
        /// Date and time the task ended.
        end_time: String,
        /// Task description.
        description: Option<String>,
    },
    /// View the current task.
    View,
}

/// Date and time with seconds, as the command line accepts them.
pub const DATETIME_FORMAT: &'static str = "%Y-%m-%d %H:%M:%S";

/// Date and time without seconds.
pub const DATETIME_MINUTES_FORMAT: &'static str = "%Y-%m-%d %H:%M";

/// Time of day with seconds.
pub const TIME_FORMAT: &'static str = "%H:%M:%S";

/// Time of day without seconds.
pub const TIME_MINUTES_FORMAT: &'static str = "%H:%M";

/// What chrono's `NaiveDateTime::parse_from_str` reads from `text` in
/// `format`: year, month, day, seconds since midnight and nanoseconds.
pub uninterp spec fn naive_datetime_of(text: Seq<char>, format: Seq<char>) -> Option<
    (i32, u32, u32, u32, u32),
>;

/// What chrono's `NaiveTime::parse_from_str` reads from `text` in `format`:
/// seconds since midnight and nanoseconds.
pub uninterp spec fn naive_time_of(text: Seq<char>, format: Seq<char>) -> Option<(u32, u32)>;

/// The Unix timestamp that chrono gives to a date and a whole number of
/// seconds since midnight taken as UTC; `None` when there is no such date or
/// time of day.
pub uninterp spec fn utc_timestamp_of(year: i32, month: u32, day: u32, secs: u32) -> Option<i64>;

/// Relies on chrono's `NaiveDateTime::parse_from_str`, with the result taken
/// apart by `Datelike` and `Timelike`.
#[verifier::external_body]
fn parse_naive_datetime(text: &str, format: &str) -> (r: Option<(i32, u32, u32, u32, u32)>)
    ensures
        r == naive_datetime_of(text@, format@),
{
    match chrono::NaiveDateTime::parse_from_str(text, format) {
        Ok(t) => Some(
            (
                chrono::Datelike::year(&t),
                chrono::Datelike::month(&t),
                chrono::Datelike::day(&t),
                chrono::Timelike::num_seconds_from_midnight(&t),
                chrono::Timelike::nanosecond(&t),
            ),
        ),
        Err(_) => None,
    }
}

/// Relies on chrono's `NaiveTime::parse_from_str`, with the result taken
/// apart by `Timelike`.
#[verifier::external_body]
fn parse_naive_time(text: &str, format: &str) -> (r: Option<(u32, u32)>)
    ensures
        r == naive_time_of(text@, format@),
{
    match chrono::NaiveTime::parse_from_str(text, format) {
        Ok(t) => Some(
            (chrono::Timelike::num_seconds_from_midnight(&t), chrono::Timelike::nanosecond(&t)),
        ),
        Err(_) => None,
    }
}

/// Relies on chrono's `NaiveDate::from_ymd_opt`,
/// `NaiveTime::from_num_seconds_from_midnight_opt`, `NaiveDate::and_time`,
/// `NaiveDateTime::and_utc` and `DateTime::timestamp`.
#[verifier::external_body]
fn utc_timestamp(year: i32, month: u32, day: u32, secs: u32) -> (r: Option<i64>)
    ensures
        r == utc_timestamp_of(year, month, day, secs),
{
    match (
        chrono::NaiveDate::from_ymd_opt(year, month, day),
        chrono::NaiveTime::from_num_seconds_from_midnight_opt(secs, 0),
    ) {
        (Some(d), Some(t)) => Some(d.and_time(t).and_utc().timestamp()),
        _ => None,
    }
}

/// Relies on chrono's `Utc::now` and `DateTime::date_naive`: today's date in
/// UTC, as year, month and day. Nothing is known of the value.
#[verifier::external_body]
fn utc_date() -> (r: (i32, u32, u32)) {
    let d = chrono::Utc::now().date_naive();
    (chrono::Datelike::year(&d), chrono::Datelike::month(&d), chrono::Datelike::day(&d))
}

/// The date and time that `text` gives, in the first of `first` and `second`
/// that reads it.
pub open spec fn datetime_in_either(text: Seq<char>, first: Seq<char>, second: Seq<char>) -> Option<
    (i32, u32, u32, u32, u32),
> {
    match naive_datetime_of(text, first) {
        Some(t) => Some(t),
        None => naive_datetime_of(text, second),
    }
}

/// The time of day that `text` gives, in the first of `first` and `second`
/// that reads it.
pub open spec fn time_in_either(text: Seq<char>, first: Seq<char>, second: Seq<char>) -> Option<
    (u32, u32),
> {
    match naive_time_of(text, first) {
        Some(t) => Some(t),
        None => naive_time_of(text, second),
    }
}

/// The instant at `secs` seconds and `nanos` nanoseconds past midnight UTC on
/// the given day, when it is one of the supported instants.
pub open spec fn utc_instant(year: i32, month: u32, day: u32, secs: u32, nanos: u32) -> Option<
    Instant,
> {
    match utc_timestamp_of(year, month, day, secs) {
        Some(s) => if (Instant { secs: s, nanos }).wf() {
            Some(Instant { secs: s, nanos })
        } else {
            None
        },
        None => None,
    }
}

/// The instant that a command-line date and time stands for, read as UTC:
/// a date with a time of day, or a time of day alone on `today`.
pub open spec fn datetime_of_text(text: Seq<char>, today: Date) -> Option<Instant> {
    match datetime_in_either(text, DATETIME_FORMAT@, DATETIME_MINUTES_FORMAT@) {
        Some((y, m, d, secs, nanos)) => utc_instant(y, m, d, secs, nanos),
        None => match time_in_either(text, TIME_FORMAT@, TIME_MINUTES_FORMAT@) {
            Some((secs, nanos)) => utc_instant(today.year, today.month, today.day, secs, nanos),
            None => None,
        },
    }
}

fn instant_at(year: i32, month: u32, day: u32, secs: u32, nanos: u32) -> (r: Option<Instant>)
    ensures
        r == utc_instant(year, month, day, secs, nanos),
{
    match utc_timestamp(year, month, day, secs) {
        Some(s) => Instant::from_parts(s, nanos),
        None => None,
    }
}

/// Reads a command-line date and time as UTC, taking a time of day alone as
/// one on `today`. Accepted: `%Y-%m-%d %H:%M:%S`, `%Y-%m-%d %H:%M`,
/// `%H:%M:%S` and `%H:%M`.
pub fn parse_datetime_on(text: &str, today: Date) -> (r: Option<Instant>)
    ensures
        r == datetime_of_text(text@, today),
{
    let first = parse_naive_datetime(text, DATETIME_FORMAT);
    let datetime = match first {
        Some(t) => Some(t),
        None => parse_naive_datetime(text, DATETIME_MINUTES_FORMAT),
    };
    match datetime {
        Some((y, m, d, secs, nanos)) => instant_at(y, m, d, secs, nanos),
        None => {
            let first = parse_naive_time(text, TIME_FORMAT);
            let time = match first {
                Some(t) => Some(t),
                None => parse_naive_time(text, TIME_MINUTES_FORMAT),
            };
            match time {
                Some((secs, nanos)) => instant_at(today.year, today.month, today.day, secs, nanos),
                None => None,
            }
        },
    }
}

/// Reads a command-line date and time as UTC, taking a time of day alone as
/// one on today's date in UTC.
pub fn parse_local_datetime(text: &str) -> (r: Option<Instant>)
    ensures
        r matches Some(t) ==> t.wf(),
{
    let (year, month, day) = utc_date();
    let today = Date { year, month, day };
    parse_datetime_on(text, today)
}

} // verus!
