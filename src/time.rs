//! Instants, durations and calendar dates.
use vstd::prelude::*;

verus! {

/// Seconds since the Unix epoch of 0000-01-01T00:00:00Z.
pub const MIN_SECS: i64 = -62167219200;

/// Seconds since the Unix epoch of 9999-12-31T23:59:59Z.
pub const MAX_SECS: i64 = 253402300799;

/// Nanoseconds in one second.
pub const NANOS_PER_SEC: u32 = 1_000_000_000;

/// An absolute point in time: whole seconds since the Unix epoch (UTC) and the
/// nanoseconds past that second.
///
/// A well-formed instant lies in the years 0 to 9999, so that its RFC 3339
/// text has a four-digit year, and has no leap-second part.
#[derive(Clone, Copy, Debug, PartialEq, Eq, Structural)]
pub struct Instant {
    pub secs: i64,
    pub nanos: u32,
}

impl Instant {
    pub open spec fn wf(self) -> bool {
        &&& MIN_SECS <= self.secs <= MAX_SECS
        &&& self.nanos < NANOS_PER_SEC
    }

    /// The instant as a number of nanoseconds since the Unix epoch.
    pub open spec fn value(self) -> int {
        self.secs * 1_000_000_000 + self.nanos
    }

    /// Builds an instant from seconds and nanoseconds, if it is in range.
    pub fn from_parts(secs: i64, nanos: u32) -> (r: Option<Instant>)
        ensures
            r == (if MIN_SECS <= secs <= MAX_SECS && nanos < NANOS_PER_SEC {
                Some(Instant { secs, nanos })
            } else {
                None
            }),
    {
        if MIN_SECS <= secs && secs <= MAX_SECS && nanos < NANOS_PER_SEC {
            Some(Instant { secs, nanos })
        } else {
            None
        }
    }

    /// Whether `self` lies strictly before `other`.
    pub fn is_before(&self, other: &Instant) -> (r: bool)
        requires
            self.wf(),
            other.wf(),
        ensures
            r == (self.value() < other.value()),
    {
        proof {
            lemma_value_order(*self, *other);
        }
        self.secs < other.secs || (self.secs == other.secs && self.nanos < other.nanos)
    }
}

/// Ordering instants by value is ordering them by seconds, then nanoseconds.
proof fn lemma_value_order(a: Instant, b: Instant)
    requires
        a.wf(),
        b.wf(),
    ensures
        (a.value() < b.value()) == (a.secs < b.secs || (a.secs == b.secs && a.nanos < b.nanos)),
        (a.value() == b.value()) == (a == b),
{
    if a.secs < b.secs {
        assert(a.secs * 1_000_000_000 + 1_000_000_000 <= b.secs * 1_000_000_000) by (nonlinear_arith)
            requires a.secs < b.secs;
    } else if a.secs > b.secs {
        assert(b.secs * 1_000_000_000 + 1_000_000_000 <= a.secs * 1_000_000_000) by (nonlinear_arith)
            requires a.secs > b.secs;
    }
}


/// Integer division rounding toward zero, as Rust's `/` does.
pub open spec fn trunc_div(a: int, b: int) -> int {
    let q = abs(a) / abs(b);
    if (a < 0) == (b < 0) {
        q
    } else {
        -q
    }
}

pub open spec fn abs(a: int) -> int {
    if a < 0 {
        -a
    } else {
        a
    }
}

/// The largest number of nanoseconds between two well-formed instants.
pub open spec fn max_span() -> int {
    (MAX_SECS - MIN_SECS + 1) * 1_000_000_000
}

/// A signed length of time, in nanoseconds.
#[derive(Clone, Copy, Debug, PartialEq, Eq, Structural)]
pub struct Duration {
    pub nanos: i128,
}

impl Duration {
    /// The time from `start` to `end`; negative when `end` comes first.
    pub fn between(start: &Instant, end: &Instant) -> (r: Duration)
        requires
            start.wf(),
            end.wf(),
        ensures
            r.nanos == end.value() - start.value(),
            -max_span() < r.nanos < max_span(),
    {
        let secs = end.secs as i128 - start.secs as i128;
        let nanos = end.nanos as i128 - start.nanos as i128;
        proof {
            assert(-(MAX_SECS - MIN_SECS) <= secs <= MAX_SECS - MIN_SECS);
            assert(-(MAX_SECS - MIN_SECS) * 1_000_000_000 <= secs * 1_000_000_000
                <= (MAX_SECS - MIN_SECS) * 1_000_000_000) by (nonlinear_arith)
                requires
                    -(MAX_SECS - MIN_SECS) <= secs <= MAX_SECS - MIN_SECS,
            ;
            assert(secs * 1_000_000_000 + nanos == end.value() - start.value()) by (nonlinear_arith)
                requires
                    secs == end.secs - start.secs,
                    nanos == end.nanos - start.nanos,
            ;
        }
        Duration { nanos: secs * 1_000_000_000 + nanos }
    }

    /// Whole milliseconds in the duration, rounded toward zero.
    pub fn num_milliseconds(&self) -> (r: i64)
        requires
            -max_span() < self.nanos < max_span(),
        ensures
            r == trunc_div(self.nanos as int, 1_000_000),
    {
        let q = self.nanos.checked_div(1_000_000);
        proof {
            assert(abs(self.nanos as int) / 1_000_000 <= max_span() / 1_000_000) by (nonlinear_arith)
                requires
                    abs(self.nanos as int) <= max_span(),
            ;
        }
        match q {
            Some(q) => q as i64,
            None => 0,
        }
    }
}

/// Whether `year` is a leap year of the Gregorian calendar.
pub open spec fn is_leap_year(year: int) -> bool {
    (year % 4 == 0 && year % 100 != 0) || year % 400 == 0
}

/// The number of days in a month of the Gregorian calendar.
pub open spec fn days_in_month(year: int, month: int) -> int {
    if month == 2 {
        if is_leap_year(year) {
            29
        } else {
            28
        }
    } else if month == 4 || month == 6 || month == 9 || month == 11 {
        30
    } else {
        31
    }
}

/// A calendar date of the proleptic Gregorian calendar.
#[derive(Clone, Copy, Debug, PartialEq, Eq, Structural)]
pub struct Date {
    pub year: i32,
    pub month: u32,
    pub day: u32,
}

/// The day after `d`.
pub open spec fn next_day(d: Date) -> Date {
    if d.day < days_in_month(d.year as int, d.month as int) {
        Date { year: d.year, month: d.month, day: (d.day + 1) as u32 }
    } else if d.month < 12 {
        Date { year: d.year, month: (d.month + 1) as u32, day: 1 }
    } else {
        Date { year: (d.year + 1) as i32, month: 1, day: 1 }
    }
}

/// The day before `d`.
pub open spec fn prev_day(d: Date) -> Date {
    if d.day > 1 {
        Date { year: d.year, month: d.month, day: (d.day - 1) as u32 }
    } else if d.month > 1 {
        Date {
            year: d.year,
            month: (d.month - 1) as u32,
            day: days_in_month(d.year as int, d.month - 1) as u32,
        }
    } else {
        Date { year: (d.year - 1) as i32, month: 12, day: 31 }
    }
}

/// The date `n` days after `d`.
pub open spec fn days_after(d: Date, n: nat) -> Date
    decreases n,
{
    if n == 0 {
        d
    } else {
        next_day(days_after(d, (n - 1) as nat))
    }
}

/// The date `n` days before `d`.
pub open spec fn days_before(d: Date, n: nat) -> Date
    decreases n,
{
    if n == 0 {
        d
    } else {
        prev_day(days_before(d, (n - 1) as nat))
    }
}

/// Day of the week counted from Monday (0) to Sunday (6).
pub open spec fn weekday(d: Date) -> int {
    weekday_sum(d) % 7
}

/// The day-of-week formula before reduction modulo 7.
pub open spec fn weekday_sum(d: Date) -> int {
    let y = d.year - (if d.month < 3 {
        1int
    } else {
        0int
    });
    y + y / 4 - y / 100 + y / 400 + month_offset(d.month as int) + d.day + 6
}

/// The per-month term of the day-of-week formula (Sunday = 0 form).
pub open spec fn month_offset(m: int) -> int {
    if m == 1 {
        0
    } else if m == 2 {
        3
    } else if m == 3 {
        2
    } else if m == 4 {
        5
    } else if m == 5 {
        0
    } else if m == 6 {
        3
    } else if m == 7 {
        5
    } else if m == 8 {
        1
    } else if m == 9 {
        4
    } else if m == 10 {
        6
    } else if m == 11 {
        2
    } else {
        4
    }
}

impl Date {
    /// A real date: the month is 1 to 12 and the day exists in that month.
    pub open spec fn is_valid(self) -> bool {
        &&& 1 <= self.month <= 12
        &&& 1 <= self.day <= days_in_month(self.year as int, self.month as int)
    }

    /// Builds a date when year, month and day name a real one.
    pub fn from_ymd(year: i32, month: u32, day: u32) -> (r: Option<Date>)
        ensures
            r == (if (Date { year, month, day }).is_valid() {
                Some(Date { year, month, day })
            } else {
                None
            }),
    {
        if 1 <= month && month <= 12 && 1 <= day && day <= month_length(year, month) {
            Some(Date { year, month, day })
        } else {
            None
        }
    }

    /// The following day.
    pub fn succ(&self) -> (r: Date)
        requires
            self.is_valid(),
            self.year < i32::MAX || self.month < 12 || self.day < 31,
        ensures
            r == next_day(*self),
            r.is_valid(),
    {
        if self.day < month_length(self.year, self.month) {
            Date { year: self.year, month: self.month, day: self.day + 1 }
        } else if self.month < 12 {
            Date { year: self.year, month: self.month + 1, day: 1 }
        } else {
            Date { year: self.year + 1, month: 1, day: 1 }
        }
    }

    /// The preceding day.
    pub fn pred(&self) -> (r: Date)
        requires
            self.is_valid(),
            self.year > i32::MIN || self.month > 1 || self.day > 1,
        ensures
            r == prev_day(*self),
            r.is_valid(),
    {
        if self.day > 1 {
            Date { year: self.year, month: self.month, day: self.day - 1 }
        } else if self.month > 1 {
            Date { year: self.year, month: self.month - 1, day: month_length(self.year, self.month - 1) }
        } else {
            Date { year: self.year - 1, month: 12, day: 31 }
        }
    }

    /// Day of the week, from Monday (0) to Sunday (6).
    pub fn weekday(&self) -> (r: u32)
        requires
            self.is_valid(),
        ensures
            r == weekday(*self),
            r < 7,
    {
        let y: i64 = self.year as i64 - if self.month < 3 {
            1
        } else {
            0
        };
        let sum: i64 = y + floor_div(y, 4) - floor_div(y, 100) + floor_div(y, 400) + offset_of_month(
            self.month,
        ) as i64 + self.day as i64 + 6;
        let r = sum.checked_rem_euclid(7);
        match r {
            Some(r) => r as u32,
            None => 0,
        }
    }
}

fn floor_div(y: i64, d: i64) -> (r: i64)
    requires
        d > 0,
    ensures
        r == y as int / d as int,
{
    let q = y.checked_div_euclid(d);
    proof {
        if y >= 0 {
            assert(0 <= (y as int / d as int) <= y) by (nonlinear_arith)
                requires y >= 0, d > 0;
        } else {
            assert(y <= (y as int / d as int) < 0) by (nonlinear_arith)
                requires y < 0, d > 0;
        }
    }
    match q {
        Some(q) => q,
        None => 0,
    }
}

fn offset_of_month(m: u32) -> (r: u32)
    ensures
        r == month_offset(m as int),
{
    if m == 1 {
        0
    } else if m == 2 {
        3
    } else if m == 3 {
        2
    } else if m == 4 {
        5
    } else if m == 5 {
        0
    } else if m == 6 {
        3
    } else if m == 7 {
        5
    } else if m == 8 {
        1
    } else if m == 9 {
        4
    } else if m == 10 {
        6
    } else if m == 11 {
        2
    } else {
        4
    }
}

/// Number of days in a month of a given year.
pub fn month_length(year: i32, month: u32) -> (r: u32)
    ensures
        r == days_in_month(year as int, month as int),
{
    if month == 2 {
        let by4 = year.checked_rem_euclid(4);
        let by100 = year.checked_rem_euclid(100);
        let by400 = year.checked_rem_euclid(400);
        if (by4 == Some(0i32) && by100 != Some(0i32)) || by400 == Some(0i32) {
            29
        } else {
            28
        }
    } else if month == 4 || month == 6 || month == 9 || month == 11 {
        30
    } else {
        31
    }
}

/// The RFC 3339 text that chrono writes for the UTC instant `secs`, `nanos`.
pub uninterp spec fn rfc3339_text(secs: i64, nanos: u32) -> Seq<char>;

/// The instant, as a Unix timestamp and the nanoseconds past it, that chrono
/// reads from RFC 3339 text; `None` where the text is not RFC 3339.
pub uninterp spec fn rfc3339_instant(text: Seq<char>) -> Option<(i64, u32)>;

/// Relies on chrono's `DateTime::<Utc>::from_timestamp` (which succeeds for
/// the years 0 to 9999 and nanoseconds below one second) and
/// `DateTime::to_rfc3339`. For such an instant the text has a four-digit year
/// and every nonzero nanosecond digit, and `DateTime::parse_from_rfc3339`,
/// which reads all RFC 3339 values, gives the same instant back.
#[verifier::external_body]
pub(crate) fn to_rfc3339(t: &Instant) -> (r: String)
    requires
        t.wf(),
    ensures
        r@ == rfc3339_text(t.secs, t.nanos),
        rfc3339_instant(r@) == Some((t.secs, t.nanos)),
{
    chrono::DateTime::<chrono::Utc>::from_timestamp(t.secs, t.nanos).unwrap().to_rfc3339()
}

/// Relies on chrono's `DateTime::parse_from_rfc3339`, with the result given
/// by `DateTime::timestamp` and `DateTime::timestamp_subsec_nanos`.
#[verifier::external_body]
pub(crate) fn parse_rfc3339(text: &str) -> (r: Option<(i64, u32)>)
    ensures
        r == rfc3339_instant(text@),
{
    match chrono::DateTime::parse_from_rfc3339(text) {
        Ok(t) => Some((t.timestamp(), t.timestamp_subsec_nanos())),
        Err(_) => None,
    }
}

/// Relies on chrono's `Utc::now`: the system clock as a Unix timestamp and
/// the nanoseconds past it. Nothing is known of the value.
#[verifier::external_body]
fn system_time() -> (r: (i64, u32)) {
    let t = chrono::Utc::now();
    (t.timestamp(), t.timestamp_subsec_nanos())
}

/// Relies on chrono's `Local::now` and `DateTime::date_naive`: today's date on
/// the local clock, as year, month and day. Nothing is known of the value.
#[verifier::external_body]
fn local_date() -> (r: (i32, u32, u32)) {
    let d = chrono::Local::now().date_naive();
    (chrono::Datelike::year(&d), chrono::Datelike::month(&d), chrono::Datelike::day(&d))
}

/// Relies on chrono's `Local::from_local_datetime` and
/// `LocalResult::earliest`: the first instant at which the local clock shows
/// midnight at the start of `d`, or `None` where it never does. It depends on
/// the machine's time zone, so nothing more is known of it.
#[verifier::external_body]
fn local_midnight(d: &Date) -> (r: Option<(i64, u32)>)
    requires
        d.is_valid(),
        0 <= d.year <= 10000,
{
    let naive = chrono::NaiveDate::from_ymd_opt(d.year, d.month, d.day).unwrap().and_hms_opt(0, 0, 0).unwrap();
    chrono::TimeZone::from_local_datetime(&chrono::Local, &naive).earliest().map(
        |t| (t.timestamp(), t.timestamp_subsec_nanos()),
    )
}

impl Instant {
    /// The current instant from the system clock; `None` when the clock lies
    /// outside the supported years or in a leap second.
    pub fn now() -> (r: Option<Instant>)
        ensures
            r matches Some(t) ==> t.wf(),
    {
        let (secs, nanos) = system_time();
        Instant::from_parts(secs, nanos)
    }
}

impl Date {
    /// Today's date on the local clock; `None` if the clock gave no real date.
    pub fn today() -> (r: Option<Date>)
        ensures
            r matches Some(d) ==> d.is_valid(),
    {
        let (year, month, day) = local_date();
        Date::from_ymd(year, month, day)
    }

    /// The instant of local midnight at the start of this date; `None` where
    /// that midnight falls outside the supported years or does not occur.
    pub fn local_start(&self) -> (r: Option<Instant>)
        requires
            self.is_valid(),
        ensures
            r matches Some(t) ==> t.wf(),
    {
        if self.year < 0 || self.year > 10000 {
            return None;
        }
        match local_midnight(self) {
            Some((secs, nanos)) => Instant::from_parts(secs, nanos),
            None => None,
        }
    }
}

/// Going back one year step of the day-of-week formula: the year part grows by
/// one, and by one more in a leap year.
proof fn lemma_year_term_step(y: int)
    ensures
        (y + y / 4 - y / 100 + y / 400) - ((y - 1) + (y - 1) / 4 - (y - 1) / 100 + (y - 1) / 400)
            == 1 + (if is_leap_year(y) {
            1int
        } else {
            0int
        }),
{
    assert(y / 4 - (y - 1) / 4 == (if y % 4 == 0 {
        1int
    } else {
        0int
    })) by (nonlinear_arith);
    assert(y / 100 - (y - 1) / 100 == (if y % 100 == 0 {
        1int
    } else {
        0int
    })) by (nonlinear_arith);
    assert(y / 400 - (y - 1) / 400 == (if y % 400 == 0 {
        1int
    } else {
        0int
    })) by (nonlinear_arith);
    assert(y % 400 == 0 ==> y % 100 == 0 && y % 4 == 0) by (nonlinear_arith);
    assert(y % 100 == 0 ==> y % 4 == 0) by (nonlinear_arith);
}

/// The day before a date falls one day earlier in the week.
pub proof fn lemma_weekday_prev(d: Date)
    requires
        d.is_valid(),
        d.year > i32::MIN || d.month > 1 || d.day > 1,
    ensures
        weekday(prev_day(d)) == (weekday(d) + 6) % 7,
{
    lemma_weekday_sum_prev(d);
    let a = weekday_sum(prev_day(d));
    let b = weekday_sum(d);
    assert(a % 7 == (b % 7 + 6) % 7) by (nonlinear_arith)
        requires
            (a - b + 1) % 7 == 0,
    ;
}

proof fn lemma_weekday_sum_prev(d: Date)
    requires
        d.is_valid(),
        d.year > i32::MIN || d.month > 1 || d.day > 1,
    ensures
        (weekday_sum(prev_day(d)) - weekday_sum(d) + 1) % 7 == 0,
{
    let p = prev_day(d);
    if d.day > 1 {
        assert(weekday_sum(p) == weekday_sum(d) - 1);
    } else if d.month == 3 {
        lemma_year_term_step(d.year as int);
        assert(weekday_sum(p) - weekday_sum(d) + 1 == 28);
    } else if d.month > 1 {
        assert(weekday_sum(p) - weekday_sum(d) + 1 == month_offset(d.month - 1) + days_in_month(
            d.year as int,
            d.month - 1,
        ) - month_offset(d.month as int));
    } else {
        assert(weekday_sum(p) - weekday_sum(d) + 1 == 35);
    }
}

} // verus!
