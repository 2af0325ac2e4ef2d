//! Calendar values as plain integers, and the few calendar computations that
//! are left to chrono.
use chrono::{Datelike, Timelike};
use vstd::prelude::*;

verus! {

/// Smallest year that chrono's dates can hold.
pub const MIN_YEAR: i32 = -262143;

/// Largest year that chrono's dates can hold.
pub const MAX_YEAR: i32 = 262142;

/// A day of the proleptic Gregorian calendar.
#[derive(Clone, Copy, Debug, PartialEq, Eq, Structural)]
pub struct Date {
    pub year: i32,
    pub month: u32,
    pub day: u32,
}

/// A date and a time of day, with no time zone, to the second.
#[derive(Clone, Copy, Debug, PartialEq, Eq, Structural)]
pub struct DateTime {
    pub date: Date,
    pub hour: u32,
    pub minute: u32,
    pub second: u32,
}

pub open spec fn is_leap_year(y: int) -> bool {
    y % 4 == 0 && (y % 100 != 0 || y % 400 == 0)
}

pub open spec fn days_in_month(y: int, m: int) -> int {
    if m == 2 {
        if is_leap_year(y) {
            29
        } else {
            28
        }
    } else if m == 4 || m == 6 || m == 9 || m == 11 {
        30
    } else {
        31
    }
}

pub open spec fn is_valid_date(y: int, m: int, d: int) -> bool {
    &&& MIN_YEAR <= y <= MAX_YEAR
    &&& 1 <= m <= 12
    &&& 1 <= d <= days_in_month(y, m)
}

/// Number of leap years in `1..=y` (counted backwards for `y < 1`).
pub open spec fn leap_years_through(y: int) -> int {
    y / 4 - y / 100 + y / 400
}

/// Days from 1970-01-01 to the first day of year `y`.
pub open spec fn days_before_year(y: int) -> int {
    365 * (y - 1970) + leap_years_through(y - 1) - leap_years_through(1969)
}

/// Days from the first day of year `y` to the first day of month `m`.
pub open spec fn days_before_month(y: int, m: int) -> int
    decreases m,
{
    if m <= 1 {
        0
    } else {
        days_before_month(y, m - 1) + days_in_month(y, m - 1)
    }
}

impl Date {
    pub open spec fn wf(self) -> bool {
        is_valid_date(self.year as int, self.month as int, self.day as int)
    }

    /// Days since 1970-01-01 (negative before it).
    pub open spec fn days_since_epoch(self) -> int {
        days_before_year(self.year as int) + days_before_month(self.year as int, self.month as int)
            + self.day - 1
    }

    /// The calendar order: by year, then month, then day.
    pub open spec fn spec_before(self, other: Date) -> bool {
        ||| self.year < other.year
        ||| self.year == other.year && self.month < other.month
        ||| self.year == other.year && self.month == other.month && self.day < other.day
    }

    /// Whether this day comes strictly before `other`.
    pub fn is_before(&self, other: &Date) -> (r: bool)
        ensures
            r == self.spec_before(*other),
    {
        if self.year != other.year {
            self.year < other.year
        } else if self.month != other.month {
            self.month < other.month
        } else {
            self.day < other.day
        }
    }
}

impl DateTime {
    pub open spec fn wf(self) -> bool {
        &&& self.date.wf()
        &&& self.hour < 24
        &&& self.minute < 60
        &&& self.second < 60
    }

    /// Seconds since 1970-01-01T00:00:00.
    pub open spec fn timestamp(self) -> int {
        self.date.days_since_epoch() * 86400 + self.hour * 3600 + self.minute * 60 + self.second
    }

    /// Midnight at the start of `date`.
    pub fn midnight(date: Date) -> (r: DateTime)
        ensures
            r == (DateTime { date, hour: 0, minute: 0, second: 0 }),
    {
        DateTime { date, hour: 0, minute: 0, second: 0 }
    }
}


/// chrono's error for text that does not parse as a date.
#[verifier::external_type_specification]
#[verifier::external_body]
pub struct ExParseError(chrono::ParseError);

pub open spec fn is_ascii_digit(c: char) -> bool {
    '0' <= c <= '9'
}

pub open spec fn all_digits(s: Seq<char>) -> bool {
    forall|i: int| 0 <= i < s.len() ==> is_ascii_digit(#[trigger] s[i])
}

pub open spec fn digit_value(c: char) -> int {
    c as int - '0' as int
}

pub open spec fn digit_char(n: int) -> char {
    seq!['0', '1', '2', '3', '4', '5', '6', '7', '8', '9'][n]
}

/// The number that a run of decimal digits writes.
pub open spec fn digits_value(s: Seq<char>) -> int
    decreases s.len(),
{
    if s.len() == 0 {
        0
    } else {
        digits_value(s.drop_last()) * 10 + digit_value(s.last())
    }
}

/// `n` written with exactly `width` decimal digits, zeros in front.
pub open spec fn padded(n: int, width: nat) -> Seq<char>
    decreases width,
{
    if width == 0 {
        Seq::empty()
    } else {
        padded(n / 10, (width - 1) as nat).push(digit_char(n % 10))
    }
}

/// The date that eight digits `YYYYMMDD` write.
pub open spec fn compact_date(s: Seq<char>) -> (int, int, int) {
    (digits_value(s.subrange(0, 4)), digits_value(s.subrange(4, 6)), digits_value(s.subrange(6, 8)))
}

/// `YYYY-MM-DD`, each field made of ASCII digits.
pub open spec fn is_iso_date_text(s: Seq<char>) -> bool {
    &&& s.len() == 10
    &&& all_digits(s.subrange(0, 4))
    &&& s[4] == '-'
    &&& all_digits(s.subrange(5, 7))
    &&& s[7] == '-'
    &&& all_digits(s.subrange(8, 10))
}

/// The date that `YYYY-MM-DD` writes.
pub open spec fn iso_date(s: Seq<char>) -> (int, int, int) {
    (digits_value(s.subrange(0, 4)), digits_value(s.subrange(5, 7)), digits_value(s.subrange(8, 10)))
}

/// `YYYY-MM-DD HH:MM:SS`, each field made of ASCII digits.
pub open spec fn is_date_time_text(s: Seq<char>) -> bool {
    &&& s.len() == 19
    &&& is_iso_date_text(s.subrange(0, 10))
    &&& s[10] == ' '
    &&& all_digits(s.subrange(11, 13))
    &&& s[13] == ':'
    &&& all_digits(s.subrange(14, 16))
    &&& s[16] == ':'
    &&& all_digits(s.subrange(17, 19))
}

/// The clock time that `... HH:MM:SS` writes.
pub open spec fn clock_time(s: Seq<char>) -> (int, int, int) {
    (digits_value(s.subrange(11, 13)), digits_value(s.subrange(14, 16)), digits_value(s.subrange(17, 19)))
}

pub open spec fn is_valid_ymd(ymd: (int, int, int)) -> bool {
    is_valid_date(ymd.0, ymd.1, ymd.2)
}

/// Whether `YYYY-MM-DD HH:MM:SS` writes a valid date and time of day.
pub open spec fn is_valid_date_time_text(s: Seq<char>) -> bool {
    &&& is_valid_ymd(iso_date(s.subrange(0, 10)))
    &&& clock_time(s).0 < 24
    &&& clock_time(s).1 < 60
    &&& clock_time(s).2 < 60
}

/// The date and time that `YYYY-MM-DD HH:MM:SS` writes.
pub open spec fn date_time_of(s: Seq<char>) -> DateTime {
    DateTime {
        date: date_of(iso_date(s.subrange(0, 10))),
        hour: clock_time(s).0 as u32,
        minute: clock_time(s).1 as u32,
        second: clock_time(s).2 as u32,
    }
}

/// The date with fields `ymd`.
pub open spec fn date_of(ymd: (int, int, int)) -> Date {
    Date { year: ymd.0 as i32, month: ymd.1 as u32, day: ymd.2 as u32 }
}

/// The strftime format of eight digits `YYYYMMDD`.
pub open spec fn compact_date_format() -> Seq<char> {
    seq!['%', 'Y', '%', 'm', '%', 'd']
}

/// The strftime format `YYYY-MM-DD HH:MM:SS`.
pub open spec fn date_time_format() -> Seq<char> {
    seq![
        '%', 'Y', '-', '%', 'm', '-', '%', 'd', ' ', '%', 'H', ':', '%', 'M', ':', '%', 'S',
    ]
}

/// The strftime format `YYYY-MM`.
pub open spec fn year_month_format() -> Seq<char> {
    seq!['%', 'Y', '-', '%', 'm']
}

/// Year and month as `YYYY-MM`.
pub open spec fn year_month_text(d: Date) -> Seq<char> {
    padded(d.year as int, 4).push('-') + padded(d.month as int, 2)
}

/// Relies on chrono's `NaiveDate::parse_from_str`: with the format `%Y%m%d`,
/// eight ASCII digits parse exactly when they write a valid date, to that date.
#[verifier::external_body]
pub(crate) fn parse_date(s: &str, fmt: &str) -> (r: Result<Date, chrono::ParseError>)
    ensures
        r is Ok ==> r->Ok_0.wf(),
        fmt@ == compact_date_format() && s@.len() == 8 && all_digits(s@) ==> (r is Ok
            <==> is_valid_ymd(compact_date(s@))),
        fmt@ == compact_date_format() && s@.len() == 8 && all_digits(s@) && r is Ok ==> r->Ok_0
            == date_of(compact_date(s@)),
{
    chrono::NaiveDate::parse_from_str(s, fmt).map(
        |d| Date { year: d.year(), month: d.month(), day: d.day() },
    )
}

/// What chrono's `FromStr` for `NaiveDate` reads from `s`, if anything.
pub uninterp spec fn parsed_iso_date(s: Seq<char>) -> Option<Date>;

/// Relies on chrono's `FromStr` for `NaiveDate`: `YYYY-MM-DD` written with
/// ASCII digits parses exactly when it is a valid date, to that date.
#[verifier::external_body]
pub(crate) fn parse_iso_date(s: &str) -> (r: Result<Date, chrono::ParseError>)
    ensures
        r is Ok <==> parsed_iso_date(s@) is Some,
        r is Ok ==> parsed_iso_date(s@) == Some(r->Ok_0),
        r is Ok ==> r->Ok_0.wf(),
        is_iso_date_text(s@) ==> (r is Ok <==> is_valid_ymd(iso_date(s@))),
        is_iso_date_text(s@) && r is Ok ==> r->Ok_0 == date_of(iso_date(s@)),
{
    <chrono::NaiveDate as std::str::FromStr>::from_str(s).map(
        |d| Date { year: d.year(), month: d.month(), day: d.day() },
    )
}

/// What chrono's `NaiveDateTime::parse_from_str` reads from `s` with the
/// format `fmt`, if anything.
pub uninterp spec fn parsed_date_time(s: Seq<char>, fmt: Seq<char>) -> Option<DateTime>;

/// Relies on chrono's `NaiveDateTime::parse_from_str`: with the format
/// `%Y-%m-%d %H:%M:%S`, text of that shape whose seconds are under 60 parses
/// exactly when it writes a valid date and time of day, to those values. A
/// leap second (`:60`) is read as second 59.
#[verifier::external_body]
pub(crate) fn parse_date_time(s: &str, fmt: &str) -> (r: Result<DateTime, chrono::ParseError>)
    ensures
        r is Ok <==> parsed_date_time(s@, fmt@) is Some,
        r is Ok ==> parsed_date_time(s@, fmt@) == Some(r->Ok_0),
        r is Ok ==> r->Ok_0.wf(),
        fmt@ == date_time_format() && is_date_time_text(s@) && clock_time(s@).2 < 60 ==> (r is Ok
            <==> is_valid_date_time_text(s@)),
        fmt@ == date_time_format() && is_date_time_text(s@) && clock_time(s@).2 < 60 && r is Ok
            ==> r->Ok_0 == date_time_of(s@),
{
    chrono::NaiveDateTime::parse_from_str(s, fmt).map(
        |t| DateTime {
            date: Date { year: t.year(), month: t.month(), day: t.day() },
            hour: t.hour(),
            minute: t.minute(),
            second: t.second(),
        },
    )
}

/// Last second of the year 262142, the last that chrono's dates reach, as
/// seconds since 1970-01-01T00:00:00.
pub const LAST_TIMESTAMP: i64 = 8210266876799;

/// What chrono's `DateTime::from_timestamp` gives for `secs` whole seconds
/// after the epoch, read in UTC.
pub uninterp spec fn utc_date_time(secs: int) -> Option<DateTime>;

/// Relies on chrono's `DateTime::from_timestamp` (whole seconds, read in UTC):
/// the result is the date and time that lies `secs` seconds after the epoch;
/// from the epoch on, there is one up to the end of the year 262142 and none
/// after.
#[verifier::external_body]
pub(crate) fn from_timestamp(secs: i64) -> (r: Option<DateTime>)
    ensures
        r == utc_date_time(secs as int),
        r is Some ==> r->Some_0.wf() && r->Some_0.timestamp() == secs,
        0 <= secs ==> (r is Some <==> secs <= LAST_TIMESTAMP),
{
    chrono::DateTime::from_timestamp(secs, 0).map(
        |u| DateTime {
            date: Date { year: u.year(), month: u.month(), day: u.day() },
            hour: u.hour(),
            minute: u.minute(),
            second: u.second(),
        },
    )
}

/// Relies on chrono's `NaiveDate::format` with `%Y-%m`: the year zero-padded
/// to four digits (years from 0 to 9999), a dash, the month in two digits.
#[verifier::external_body]
pub(crate) fn format_date(d: &Date, fmt: &str) -> (r: String)
    requires
        d.wf(),
        fmt@ == year_month_format(),
    ensures
        0 <= d.year <= 9999 ==> r@ == year_month_text(*d),
{
    chrono::NaiveDate::from_ymd_opt(d.year, d.month, d.day).unwrap().format(fmt).to_string()
}

} // verus!
