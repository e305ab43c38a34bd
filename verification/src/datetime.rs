//! Local date-times as plain values, and the calendar operations the
//! parser borrows from `chrono`.
//!
//! A `LocalDateTime` is a wall-clock reading in the machine's local time
//! zone (what `chrono` calls a naive local date-time). The calendar
//! arithmetic, weekday computation, parsing and formatting are `chrono`'s,
//! reached through the trusted wrappers below.
use chrono::Datelike;
use chrono::Timelike;
use std::fmt::Write;
use vstd::prelude::*;
use crate::text::digit_char;

verus! {

/// A local wall-clock date and time, to the second.
#[derive(Clone, Copy, Debug, PartialEq, Eq, Structural)]
pub struct LocalDateTime {
    pub year: i32,
    pub month: u32,
    pub day: u32,
    pub hour: u32,
    pub minute: u32,
    pub second: u32,
}

pub open spec fn is_leap_year(y: int) -> bool {
    (y % 4 == 0 && y % 100 != 0) || y % 400 == 0
}

pub open spec fn days_in_month(y: int, m: int) -> int {
    if m == 2 {
        if is_leap_year(y) {
            29
        } else {
            28
        }
    } else if m == 4 || m == 6 || m == 9 || m == 11 {
        30
    } else {
        31
    }
}

/// A day of the proleptic Gregorian calendar within the years that
/// `chrono::NaiveDate` holds.
pub open spec fn calendar_date(y: int, m: int, d: int) -> bool {
    &&& -262143 <= y <= 262142
    &&& 1 <= m <= 12
    &&& 1 <= d <= days_in_month(y, m)
}

impl LocalDateTime {
    /// The reading names an existing calendar day and a time of day.
    pub open spec fn valid(self) -> bool {
        &&& calendar_date(self.year as int, self.month as int, self.day as int)
        &&& self.hour < 24
        &&& self.minute < 60
        &&& self.second < 60
    }

    /// The same day at `hour:minute:00`.
    pub open spec fn spec_on_day_at(self, hour: u32, minute: u32) -> LocalDateTime {
        LocalDateTime {
            year: self.year,
            month: self.month,
            day: self.day,
            hour: hour,
            minute: minute,
            second: 0,
        }
    }

    /// The same day at `hour:minute:00`.
    #[verifier::when_used_as_spec(spec_on_day_at)]
    pub fn on_day_at(self, hour: u32, minute: u32) -> (r: LocalDateTime)
        ensures
            r == self.spec_on_day_at(hour, minute),
    {
        LocalDateTime {
            year: self.year,
            month: self.month,
            day: self.day,
            hour: hour,
            minute: minute,
            second: 0,
        }
    }
}

/// `chrono::NaiveDate::from_ymd_opt(year, month, day).is_some()`.
///
/// The contract restates chrono's source: a date exists when the month is
/// 1 to 12, the day lies within that month of the proleptic Gregorian
/// calendar, and the year lies within `NaiveDate`'s range.
#[verifier::external_body]
pub fn date_exists(year: i32, month: u32, day: u32) -> (r: bool)
    ensures
        r == calendar_date(year as int, month as int, day as int),
{
    chrono::NaiveDate::from_ymd_opt(year, month, day).is_some()
}

/// Days from 1970-01-01 to the given day of the proleptic Gregorian
/// calendar (negative before it).
pub open spec fn day_number(year: int, month: int, day: int) -> int {
    let y = if month <= 2 {
        year - 1
    } else {
        year
    };
    let era = y / 400;
    let yoe = y - era * 400;
    let mp = (month + 9) % 12;
    let doy = (153 * mp + 2) / 5 + day - 1;
    let doe = yoe * 365 + yoe / 4 - yoe / 100 + doy;
    era * 146097 + doe - 719468
}

/// The day number of a reading's day.
pub open spec fn day_of(dt: LocalDateTime) -> int {
    day_number(dt.year as int, dt.month as int, dt.day as int)
}

/// Seconds since midnight of a reading.
pub open spec fn second_of_day(dt: LocalDateTime) -> int {
    dt.hour * 3600 + dt.minute * 60 + dt.second
}

/// Seconds from 1970-01-01 00:00:00 to a reading.
pub open spec fn instant(dt: LocalDateTime) -> int {
    day_of(dt) * 86400 + second_of_day(dt)
}

/// The weekday of a day counted from Monday (0) to Sunday (6);
/// 1970-01-01 was a Thursday.
pub open spec fn weekday_number(year: int, month: int, day: int) -> int {
    (day_number(year, month, day) + 3) % 7
}

/// The first and last day numbers that `chrono::NaiveDate` holds.
pub open spec fn first_day_number() -> int {
    day_number(-262143, 1, 1)
}

pub open spec fn last_day_number() -> int {
    day_number(262142, 12, 31)
}

/// `NaiveDate::weekday().num_days_from_monday()` for an existing day.
///
/// The contract claims what chrono documents: the weekday of the day in the
/// proleptic Gregorian calendar, Monday being 0 and Sunday 6.
#[verifier::external_body]
pub fn weekday_from_monday(year: i32, month: u32, day: u32) -> (r: u32)
    requires
        calendar_date(year as int, month as int, day as int),
    ensures
        r == weekday_number(year as int, month as int, day as int),
{
    chrono::NaiveDate::from_ymd_opt(year, month, day).unwrap().weekday().num_days_from_monday()
}

/// What `chrono` gives for a reading moved by `secs` seconds.
pub uninterp spec fn chrono_shift_seconds(dt: LocalDateTime, secs: i64) -> Option<LocalDateTime>;

/// `NaiveDateTime::checked_add_signed(TimeDelta::try_seconds(secs)?)`.
///
/// The contract claims what chrono's source shows: a shift by zero gives
/// the reading back; a reading it returns is valid, its time of day is the
/// old one moved by `secs` around the clock, and its day is the old day
/// moved by the whole days crossed; `None` comes only when that day lies
/// outside chrono's range. The result is also named as chrono's answer for
/// these arguments.
#[verifier::external_body]
pub fn shift_seconds(dt: LocalDateTime, secs: i64) -> (r: Option<LocalDateTime>)
    requires
        dt.valid(),
    ensures
        r == chrono_shift_seconds(dt, secs),
        secs == 0 ==> r == Some(dt),
        r matches Some(x) ==> {
            &&& x.valid()
            &&& second_of_day(x) == (second_of_day(dt) + secs) % 86400
            &&& day_of(x) == day_of(dt) + (second_of_day(dt) + secs) / 86400
        },
        r is None ==> !(first_day_number() <= day_of(dt) + (second_of_day(dt) + secs) / 86400
            <= last_day_number()),
{
    let d = chrono::NaiveDate::from_ymd_opt(dt.year, dt.month, dt.day)?;
    let n = d.and_hms_opt(dt.hour, dt.minute, dt.second)?;
    let m = n.checked_add_signed(chrono::TimeDelta::try_seconds(secs)?)?;
    Some(LocalDateTime {
        year: m.year(), month: m.month(), day: m.day(),
        hour: m.hour(), minute: m.minute(), second: m.second(),
    })
}

/// What `chrono` reads from `text` under the strftime-style `format`.
pub uninterp spec fn chrono_parse_datetime(text: Seq<char>, format: Seq<char>) -> Option<
    LocalDateTime,
>;

/// `NaiveDateTime::parse_from_str(text, format).ok()`.
///
/// The contract claims that the result is chrono's answer for these
/// arguments and that a reading it returns is valid; it does not restate
/// chrono's format language.
#[verifier::external_body]
pub fn parse_datetime_with_format(text: &str, format: &str) -> (r: Option<LocalDateTime>)
    ensures
        r == chrono_parse_datetime(text@, format@),
        r matches Some(x) ==> x.valid(),
{
    chrono::NaiveDateTime::parse_from_str(text, format).ok().map(
        |m|
            LocalDateTime {
                year: m.year(),
                month: m.month(),
                day: m.day(),
                hour: m.hour(),
                minute: m.minute(),
                second: m.second(),
            },
    )
}

/// What `chrono` writes for a reading under the strftime-style `format`
/// (`None` where chrono reports the format as invalid).
pub uninterp spec fn chrono_format_datetime(dt: LocalDateTime, format: Seq<char>) -> Option<
    Seq<char>,
>;

/// The last `width` decimal digits of `n`, zero-padded.
pub open spec fn padded_digits(n: nat, width: nat) -> Seq<char>
    decreases width,
{
    if width == 0 {
        seq![]
    } else {
        padded_digits(n / 10, (width - 1) as nat).push(digit_char(n % 10))
    }
}

/// A reading to the minute as `%Y-%m-%d %H:%M` writes it for a year from
/// 0 to 9999: each field zero-padded, the year to four digits, the others
/// to two.
pub open spec fn minute_text(dt: LocalDateTime) -> Seq<char> {
    padded_digits(dt.year as nat, 4) + "-"@ + padded_digits(dt.month as nat, 2) + "-"@
        + padded_digits(dt.day as nat, 2) + " "@ + padded_digits(dt.hour as nat, 2) + ":"@
        + padded_digits(dt.minute as nat, 2)
}

/// `write!(s, "{}", NaiveDateTime::format(format))` for a valid reading.
///
/// The contract claims that the text is chrono's answer for these
/// arguments, `None` where writing reports an error (an invalid format);
/// and, as chrono documents `%Y`, `%m`, `%d`, `%H` and `%M`, that the
/// format `%Y-%m-%d %H:%M` writes a reading of a year from 0 to 9999 as
/// `minute_text`. Other formats are left to chrono's name.
#[verifier::external_body]
pub fn format_datetime(dt: LocalDateTime, format: &str) -> (r: Option<String>)
    requires
        dt.valid(),
    ensures
        r matches Some(t) ==> chrono_format_datetime(dt, format@) == Some(t@),
        r is None ==> chrono_format_datetime(dt, format@) is None,
        format@ == "%Y-%m-%d %H:%M"@ && 0 <= dt.year <= 9999 ==> r is Some && r->0@ == minute_text(dt),
{
    let n = chrono::NaiveDate::from_ymd_opt(dt.year, dt.month, dt.day)?.and_hms_opt(
        dt.hour,
        dt.minute,
        dt.second,
    )?;
    let mut s = String::new();
    match write!(s, "{}", n.format(format)) {
        Ok(()) => Some(s),
        Err(_) => None,
    }
}

/// `chrono::Local::now().naive_local()`, to the second.
///
/// The contract claims only that the reading is valid: which one it is
/// depends on the clock and on the machine's time zone.
#[verifier::external_body]
pub fn local_now() -> (r: LocalDateTime)
    ensures
        r.valid(),
{
    let m = chrono::Local::now().naive_local();
    LocalDateTime {
        year: m.year(),
        month: m.month(),
        day: m.day(),
        hour: m.hour(),
        minute: m.minute(),
        second: m.second(),
    }
}

} // verus!
