//! Calendar date and time of day at second precision, and their text forms.
//!
//! A [`Timestamp`] holds the six fields of a local date and time as plain
//! numbers. The clock is read and the fields are written out by `chrono`;
//! this module decides whether six numbers name a moment that exists, and
//! states what the two text forms look like.

use vstd::prelude::*;
use crate::decimal::padded;

verus! {

/// The earliest year that `chrono` can hold.
pub const MIN_YEAR: i32 = -262143;

/// The latest year that `chrono` can hold.
pub const MAX_YEAR: i32 = 262142;

/// Whether `year` has a 29th of February, in the proleptic Gregorian
/// calendar with a year zero.
pub open spec fn is_leap_year(year: int) -> bool {
    year % 4 == 0 && (year % 100 != 0 || year % 400 == 0)
}

/// The number of days of `month` in `year`, for `1 <= month <= 12`.
pub open spec fn days_in_month(year: int, month: int) -> int {
    if month == 2 {
        if is_leap_year(year) {
            29
        } else {
            28
        }
    } else if month == 4 || month == 6 || month == 9 || month == 11 {
        30
    } else {
        31
    }
}

/// A date and a time of day, as mathematical integers.
pub struct Moment {
    pub year: int,
    pub month: int,
    pub day: int,
    pub hour: int,
    pub minute: int,
    pub second: int,
}

impl Moment {
    /// Whether the six fields name a day that exists in a year that
    /// `chrono` can hold, and a second of that day.
    pub open spec fn valid(self) -> bool {
        &&& MIN_YEAR <= self.year <= MAX_YEAR
        &&& 1 <= self.month <= 12
        &&& 1 <= self.day <= days_in_month(self.year, self.month)
        &&& 0 <= self.hour <= 23
        &&& 0 <= self.minute <= 59
        &&& 0 <= self.second <= 59
    }
}

/// The moment with these six fields.
pub open spec fn moment(year: int, month: int, day: int, hour: int, minute: int, second: int)
    -> Moment {
    Moment { year, month, day, hour, minute, second }
}

/// The year as `%Y` writes it: four digits for the years 0 to 9999; outside
/// them a sign, `+` or `-`, and at least four digits.
pub open spec fn year_text(year: int) -> Seq<char> {
    if year < 0 {
        seq!['-'] + padded((-year) as nat, 4)
    } else if year <= 9999 {
        padded(year as nat, 4)
    } else {
        seq!['+'] + padded(year as nat, 4)
    }
}

/// A field below 100 as `%m`, `%d`, `%H`, `%M` and `%S` write it: two digits.
pub open spec fn two_digits(field: int) -> Seq<char> {
    padded(field as nat, 2)
}

/// The pattern of the stamp that opens every logged line.
pub open spec fn clock_pattern() -> Seq<char> {
    "%Y-%m-%d %H:%M:%S"@
}

/// The pattern of the stamp inside the log file's name.
pub open spec fn compact_pattern() -> Seq<char> {
    "%Y%m%d_%H%M%S"@
}

/// A moment in the form `YYYY-MM-DD HH:MM:SS`.
pub open spec fn clock_text(m: Moment) -> Seq<char> {
    year_text(m.year) + seq!['-'] + two_digits(m.month) + seq!['-'] + two_digits(m.day)
        + seq![' '] + two_digits(m.hour) + seq![':'] + two_digits(m.minute) + seq![':']
        + two_digits(m.second)
}

/// A moment in the form `YYYYMMDD_HHMMSS`.
pub open spec fn compact_text(m: Moment) -> Seq<char> {
    year_text(m.year) + two_digits(m.month) + two_digits(m.day) + seq!['_'] + two_digits(m.hour)
        + two_digits(m.minute) + two_digits(m.second)
}

/// A local date and time of day that exists.
#[derive(Clone, Copy, Debug, PartialEq, Eq)]
pub struct Timestamp {
    year: i32,
    month: u32,
    day: u32,
    hour: u32,
    minute: u32,
    second: u32,
}

impl View for Timestamp {
    type V = Moment;

    closed spec fn view(&self) -> Moment {
        moment(
            self.year as int,
            self.month as int,
            self.day as int,
            self.hour as int,
            self.minute as int,
            self.second as int,
        )
    }
}

/// Whether `year` has a 29th of February.
fn leap_year(year: i32) -> (leap: bool)
    requires
        MIN_YEAR <= year <= MAX_YEAR,
    ensures
        leap == is_leap_year(year as int),
{
    // 262400 is a multiple of 400, so the shifted year is divisible by 4,
    // 100 or 400 exactly when the year is.
    let shifted: u32 = (year + 262400) as u32;
    shifted % 4 == 0 && (shifted % 100 != 0 || shifted % 400 == 0)
}

/// The number of days of `month` in `year`.
fn month_length(year: i32, month: u32) -> (days: u32)
    requires
        MIN_YEAR <= year <= MAX_YEAR,
        1 <= month <= 12,
    ensures
        days == days_in_month(year as int, month as int),
{
    if month == 2 {
        if leap_year(year) {
            29
        } else {
            28
        }
    } else if month == 4 || month == 6 || month == 9 || month == 11 {
        30
    } else {
        31
    }
}

impl Timestamp {
    #[verifier::type_invariant]
    spec fn exists_in_calendar(self) -> bool {
        self@.valid()
    }

    /// Makes a timestamp of six fields, if they name a moment that exists.
    pub fn new(year: i32, month: u32, day: u32, hour: u32, minute: u32, second: u32) -> (made:
        Option<Timestamp>)
        ensures
            made is Some <==> moment(
                year as int,
                month as int,
                day as int,
                hour as int,
                minute as int,
                second as int,
            ).valid(),
            made matches Some(stamp) ==> stamp@ == moment(
                year as int,
                month as int,
                day as int,
                hour as int,
                minute as int,
                second as int,
            ),
    {
        if year < MIN_YEAR || year > MAX_YEAR || month < 1 || month > 12 {
            return None;
        }
        if day < 1 || day > month_length(year, month) {
            return None;
        }
        if hour > 23 || minute > 59 || second > 59 {
            return None;
        }
        Some(Timestamp { year, month, day, hour, minute, second })
    }

    /// The year, with a year zero before the year one.
    pub fn year(&self) -> (year: i32)
        ensures
            year == self@.year,
    {
        self.year
    }

    /// The month, from 1 to 12.
    pub fn month(&self) -> (month: u32)
        ensures
            month == self@.month,
    {
        self.month
    }

    /// The day of the month, from 1.
    pub fn day(&self) -> (day: u32)
        ensures
            day == self@.day,
    {
        self.day
    }

    /// The hour, from 0 to 23.
    pub fn hour(&self) -> (hour: u32)
        ensures
            hour == self@.hour,
    {
        self.hour
    }

    /// The minute, from 0 to 59.
    pub fn minute(&self) -> (minute: u32)
        ensures
            minute == self@.minute,
    {
        self.minute
    }

    /// The second, from 0 to 59.
    pub fn second(&self) -> (second: u32)
        ensures
            second == self@.second,
    {
        self.second
    }

    /// What the local clock shows now.
    pub fn now() -> (stamp: Timestamp)
        ensures
            stamp@.valid(),
    {
        read_local_clock()
    }

    /// This moment in the form `YYYY-MM-DD HH:MM:SS`. A timestamp always
    /// names a moment that exists, and the contract says so too.
    pub fn clock_text(&self) -> (text: String)
        ensures
            self@.valid(),
            text@ == clock_text(self@),
    {
        proof {
            use_type_invariant(self);
        }
        render(self, "%Y-%m-%d %H:%M:%S")
    }

    /// This moment in the form `YYYYMMDD_HHMMSS`. A timestamp always names
    /// a moment that exists, and the contract says so too.
    pub fn compact_text(&self) -> (text: String)
        ensures
            self@.valid(),
            text@ == compact_text(self@),
    {
        proof {
            use_type_invariant(self);
        }
        render(self, "%Y%m%d_%H%M%S")
    }
}

/// Reads the local wall clock with `chrono::Local::now` and takes the date
/// and the time of day out of it, as `DateTime::naive_local` gives them.
///
/// Believed of `chrono`: the six fields name a day that exists, in a year
/// that a `NaiveDate` can hold, and a second of that day. Nothing is said of
/// which moment it is. `chrono` panics where the system clock stands before
/// 1970 or the local time is beyond what a `NaiveDateTime` can hold.
#[verifier::external_body]
fn read_local_clock() -> (stamp: Timestamp)
    ensures
        stamp@.valid(),
{
    let now = chrono::Local::now().naive_local();
    Timestamp {
        year: chrono::Datelike::year(&now),
        month: chrono::Datelike::month(&now),
        day: chrono::Datelike::day(&now),
        hour: chrono::Timelike::hour(&now),
        minute: chrono::Timelike::minute(&now),
        second: chrono::Timelike::second(&now),
    }
}

/// Writes a moment with `chrono::NaiveDateTime::format`, after building the
/// value with `NaiveDate::from_ymd_opt` and `NaiveDate::and_hms_opt`.
///
/// Believed of `chrono`: both constructors accept every valid moment; and
/// under the two patterns of this module `%Y` writes the year as
/// [`year_text`] says, `%m`, `%d`, `%H`, `%M` and `%S` write their field in
/// two digits, and every other character of the pattern is written as it is.
#[verifier::external_body]
fn render(stamp: &Timestamp, pattern: &str) -> (text: String)
    requires
        stamp@.valid(),
        pattern@ == clock_pattern() || pattern@ == compact_pattern(),
    ensures
        pattern@ == clock_pattern() ==> text@ == clock_text(stamp@),
        pattern@ == compact_pattern() ==> text@ == compact_text(stamp@),
{
    let date = chrono::NaiveDate::from_ymd_opt(stamp.year, stamp.month, stamp.day).unwrap();
    let moment = date.and_hms_opt(stamp.hour, stamp.minute, stamp.second).unwrap();
    moment.format(pattern).to_string()
}

} // verus!
