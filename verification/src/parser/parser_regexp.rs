//! The rule-based parser for Chinese reminder phrases.
//!
//! Each aspect of a reminder (tags, list, recurrence, priority, urgency,
//! advance notice, due date, title) is read by trying a fixed table of
//! phrases, in order, against the input.
use vstd::prelude::*;
use crate::cors::{Priority, Recurrence, SpecRecurrence};
use crate::datetime::{
    chrono_shift_seconds, day_number, day_of, first_day_number, weekday_number, second_of_day, last_day_number, date_exists, calendar_date, local_now,
    shift_seconds, weekday_from_monday, LocalDateTime,
};
use crate::parser::cors::{ParsedReminder, SpecParsedReminder};
use crate::parser::matching::{
    alt_spec, escaped_alternatives, get_group, group, opt_view, opt_views, regex_all_group1, regex_captures, regex_first_captures,
    regex_group1_all, regex_replace_all, regex_replacement, str_views,
};
use crate::parser::patterns::{
    advance_table, high_priority_keywords, high_priority_table, list_patterns, list_table,
    low_priority_keywords, low_priority_table, recurrence_patterns, recurrence_table,
    reminder_time_patterns, time_patterns, time_table, title_patterns, title_table,
    urgent_keywords, urgent_table, AdvanceUnit, TimeKind,
};
use crate::text::{
    contains_seq, contains_str, owned, parse_i32, parse_int_spec, parse_u32, to_lowercase, trim, trim_end, trim_start, trim_str, unicode_lowercase, views,
};

verus! {

/// Why an input cannot be read.
#[derive(Clone, Copy, Debug, PartialEq, Eq, Structural)]
pub enum ParseError {
    /// A relative date or time lies outside the dates the calendar holds.
    DateOutOfRange,
    /// The advance notice, in minutes, does not fit in an `i32`.
    AdvanceOverflow,
}

/// What an error says to the user.
pub open spec fn parse_error_text(e: ParseError) -> Seq<char> {
    match e {
        ParseError::DateOutOfRange => "日期超出可表示的范围"@,
        ParseError::AdvanceOverflow => "提前提醒的时间过长"@,
    }
}

impl ParseError {
    /// What the error says to the user.
    pub fn message(&self) -> (r: String)
        ensures
            r@ == parse_error_text(*self),
    {
        match self {
            ParseError::DateOutOfRange => owned("日期超出可表示的范围"),
            ParseError::AdvanceOverflow => owned("提前提醒的时间过长"),
        }
    }
}

// ---------------------------------------------------------------------------
// Numbers as the phrases give them
// ---------------------------------------------------------------------------

/// `s.parse::<u32>().unwrap_or(default)`.
pub open spec fn u32_or(s: Seq<char>, default: u32) -> u32 {
    match parse_int_spec(s, 0, u32::MAX as int) {
        Some(v) => v as u32,
        None => default,
    }
}

/// `s.parse::<i32>().unwrap_or(default)`.
pub open spec fn i32_or(s: Seq<char>, default: i32) -> i32 {
    match parse_int_spec(s, i32::MIN as int, i32::MAX as int) {
        Some(v) => v as i32,
        None => default,
    }
}

fn parse_u32_or(s: &str, default: u32) -> (r: u32)
    ensures
        r == u32_or(s@, default),
{
    match parse_u32(s) {
        Some(v) => v,
        None => default,
    }
}

fn parse_i32_or(s: &str, default: i32) -> (r: i32)
    ensures
        r == i32_or(s@, default),
{
    match parse_i32(s) {
        Some(v) => v,
        None => default,
    }
}

/// A time of day `hour:minute`, when it exists (`NaiveTime::from_hms_opt`
/// with zero seconds: `None` on an hour or minute out of range).
pub open spec fn clock(hour: u32, minute: u32) -> Option<(u32, u32)> {
    if hour < 24 && minute < 60 {
        Some((hour, minute))
    } else {
        None
    }
}

fn clock_exec(hour: u32, minute: u32) -> (r: Option<(u32, u32)>)
    ensures
        r == clock(hour, minute),
{
    if hour < 24 && minute < 60 {
        Some((hour, minute))
    } else {
        None
    }
}

// ---------------------------------------------------------------------------
// Weekdays
// ---------------------------------------------------------------------------

/// A day of the week.
#[derive(Clone, Copy, Debug, PartialEq, Eq, Structural)]
pub enum Weekday {
    Mon,
    Tue,
    Wed,
    Thu,
    Fri,
    Sat,
    Sun,
}

/// Days since Monday.
pub open spec fn weekday_index(w: Weekday) -> int {
    match w {
        Weekday::Mon => 0,
        Weekday::Tue => 1,
        Weekday::Wed => 2,
        Weekday::Thu => 3,
        Weekday::Fri => 4,
        Weekday::Sat => 5,
        Weekday::Sun => 6,
    }
}

impl Weekday {
    pub fn num_days_from_monday(&self) -> (r: u32)
        ensures
            r == weekday_index(*self),
    {
        match self {
            Weekday::Mon => 0,
            Weekday::Tue => 1,
            Weekday::Wed => 2,
            Weekday::Thu => 3,
            Weekday::Fri => 4,
            Weekday::Sat => 5,
            Weekday::Sun => 6,
        }
    }
}

/// The first day of the table 一 二 三 四 五 六 日 天 whose character
/// contains `ch` (日 and 天 both name Sunday).
pub open spec fn weekday_of_char(ch: Seq<char>) -> Option<Weekday> {
    if contains_seq("一"@, ch) {
        Some(Weekday::Mon)
    } else if contains_seq("二"@, ch) {
        Some(Weekday::Tue)
    } else if contains_seq("三"@, ch) {
        Some(Weekday::Wed)
    } else if contains_seq("四"@, ch) {
        Some(Weekday::Thu)
    } else if contains_seq("五"@, ch) {
        Some(Weekday::Fri)
    } else if contains_seq("六"@, ch) {
        Some(Weekday::Sat)
    } else if contains_seq("日"@, ch) {
        Some(Weekday::Sun)
    } else if contains_seq("天"@, ch) {
        Some(Weekday::Sun)
    } else {
        None
    }
}

pub fn parse_weekday_char(ch: &str) -> (r: Option<Weekday>)
    ensures
        r == weekday_of_char(ch@),
{
    if contains_str("一", ch) {
        Some(Weekday::Mon)
    } else if contains_str("二", ch) {
        Some(Weekday::Tue)
    } else if contains_str("三", ch) {
        Some(Weekday::Wed)
    } else if contains_str("四", ch) {
        Some(Weekday::Thu)
    } else if contains_str("五", ch) {
        Some(Weekday::Fri)
    } else if contains_str("六", ch) {
        Some(Weekday::Sat)
    } else if contains_str("日", ch) {
        Some(Weekday::Sun)
    } else if contains_str("天", ch) {
        Some(Weekday::Sun)
    } else {
        None
    }
}

/// The weekday a captured day character names; Monday for anything else.
pub open spec fn weekday_of(day: Seq<char>) -> Weekday {
    match weekday_of_char(day) {
        Some(w) => w,
        None => if day == "一"@ {
            Weekday::Mon
        } else if day == "二"@ {
            Weekday::Tue
        } else if day == "三"@ {
            Weekday::Wed
        } else if day == "四"@ {
            Weekday::Thu
        } else if day == "五"@ {
            Weekday::Fri
        } else if day == "六"@ {
            Weekday::Sat
        } else if day == "日"@ || day == "天"@ {
            Weekday::Sun
        } else {
            Weekday::Mon
        },
    }
}

fn same_text(a: &str, b: &str) -> (r: bool)
    ensures
        r == (a@ == b@),
{
    let x = owned(a);
    let y = owned(b);
    x == y
}

pub fn parse_weekday(day: &str) -> (r: Weekday)
    ensures
        r == weekday_of(day@),
{
    if let Some(w) = parse_weekday_char(day) {
        return w;
    }
    if same_text(day, "一") {
        Weekday::Mon
    } else if same_text(day, "二") {
        Weekday::Tue
    } else if same_text(day, "三") {
        Weekday::Wed
    } else if same_text(day, "四") {
        Weekday::Thu
    } else if same_text(day, "五") {
        Weekday::Fri
    } else if same_text(day, "六") {
        Weekday::Sat
    } else if same_text(day, "日") || same_text(day, "天") {
        Weekday::Sun
    } else {
        Weekday::Mon
    }
}

/// Days from `now` to the next day named by `day`, within the coming week
/// (a week ahead when `day` is today's weekday).
pub open spec fn days_until(day: Seq<char>, now: LocalDateTime) -> i32 {
    let target = weekday_index(weekday_of(day));
    let current = weekday_number(now.year as int, now.month as int, now.day as int);
    let offset = target - current;
    (if offset <= 0 {
        offset + 7
    } else {
        offset
    }) as i32
}

fn days_until_exec(day: &str, now: LocalDateTime) -> (r: i32)
    requires
        now.valid(),
    ensures
        r == days_until(day@, now),
        1 <= r <= 7,
{
    let weekday = parse_weekday(day);
    let current = weekday_from_monday(now.year, now.month, now.day) as i32;
    let target = weekday.num_days_from_monday() as i32;
    let mut offset = target - current;
    if offset <= 0 {
        offset = offset + 7;
    }
    offset
}

// ---------------------------------------------------------------------------
// Dates and times
// ---------------------------------------------------------------------------

/// A part of the day.
#[derive(Clone, Copy, Debug, PartialEq, Eq, Structural)]
pub enum DayPeriod {
    Morning,
    Forenoon,
    Afternoon,
    Evening,
    Noon,
    EarlyMorning,
}

/// What the date and time phrases have told so far.
#[derive(Clone, Copy, Debug)]
pub struct DateTimeClues {
    /// Days after today.
    pub day_offset: Option<i32>,
    /// A date (and time) given outright.
    pub explicit_date: Option<LocalDateTime>,
    /// A time of day, hour and minute.
    pub time: Option<(u32, u32)>,
    pub period: Option<DayPeriod>,
}

pub open spec fn no_clues() -> DateTimeClues {
    DateTimeClues { day_offset: None, explicit_date: None, time: None, period: None }
}

/// The date at 09:00, when the day exists.
pub open spec fn nine_am(year: i32, month: u32, day: u32) -> Option<LocalDateTime> {
    if calendar_date(year as int, month as int, day as int) {
        Some(LocalDateTime { year, month, day, hour: 9, minute: 0, second: 0 })
    } else {
        None
    }
}

/// The clues after one phrase of kind `kind` matched with groups `caps`.
pub open spec fn clue_step(
    c: DateTimeClues,
    kind: TimeKind,
    caps: Seq<Option<Seq<char>>>,
    now: LocalDateTime,
) -> Result<DateTimeClues, ParseError> {
    let g1 = group(caps, 1);
    let g2 = group(caps, 2);
    let g3 = group(caps, 3);
    match kind {
        TimeKind::Tomorrow => Ok(DateTimeClues { day_offset: Some(1), ..c }),
        TimeKind::DayAfterTomorrow => Ok(DateTimeClues { day_offset: Some(2), ..c }),
        TimeKind::Today => Ok(DateTimeClues { day_offset: Some(0), ..c }),
        TimeKind::ThisWeek => match g1 {
            Some(d) => Ok(DateTimeClues { day_offset: Some(days_until(d, now)), ..c }),
            None => Ok(c),
        },
        TimeKind::NextWeek => match g1 {
            Some(d) => Ok(DateTimeClues { day_offset: Some((days_until(d, now) + 7) as i32), ..c }),
            None => Ok(c),
        },
        TimeKind::DaysFromNow => match g1 {
            Some(d) => Ok(DateTimeClues { day_offset: Some(i32_or(d, 0)), ..c }),
            None => Ok(c),
        },
        TimeKind::HoursFromNow => match g1 {
            Some(h) => match chrono_shift_seconds(now, (i32_or(h, 0) * 3600) as i64) {
                Some(x) => Ok(DateTimeClues { explicit_date: Some(x), ..c }),
                None => Err(ParseError::DateOutOfRange),
            },
            None => Ok(c),
        },
        TimeKind::DateYmd => match (g1, g2, g3) {
            (Some(y), Some(m), Some(d)) => match nine_am(
                i32_or(y, now.year),
                u32_or(m, 1),
                u32_or(d, 1),
            ) {
                Some(x) => Ok(DateTimeClues { explicit_date: Some(x), ..c }),
                None => Ok(c),
            },
            _ => Ok(c),
        },
        TimeKind::DateMd => match (g1, g2) {
            (Some(m), Some(d)) => match nine_am(now.year, u32_or(m, 1), u32_or(d, 1)) {
                Some(x) => Ok(DateTimeClues { explicit_date: Some(x), ..c }),
                None => Ok(c),
            },
            _ => Ok(c),
        },
        TimeKind::TimeHm | TimeKind::TimeHmCn | TimeKind::TimeHCnM => match (g1, g2) {
            (Some(h), Some(m)) => Ok(DateTimeClues { time: clock(u32_or(h, 9), u32_or(m, 0)), ..c }),
            _ => Ok(c),
        },
        TimeKind::TimeH => match g1 {
            Some(h) => {
                let hour = u32_or(h, 9);
                let late = c.period == Some(DayPeriod::Afternoon) || c.period == Some(
                    DayPeriod::Evening,
                );
                let hour = if late && hour < 12 {
                    (hour + 12) as u32
                } else {
                    hour
                };
                Ok(DateTimeClues { time: clock(hour, 0), ..c })
            },
            None => Ok(c),
        },
        TimeKind::Morning => Ok(DateTimeClues { period: Some(DayPeriod::Morning), ..c }),
        TimeKind::Forenoon => Ok(DateTimeClues { period: Some(DayPeriod::Forenoon), ..c }),
        TimeKind::Afternoon => Ok(DateTimeClues { period: Some(DayPeriod::Afternoon), ..c }),
        TimeKind::Evening => Ok(DateTimeClues { period: Some(DayPeriod::Evening), ..c }),
        TimeKind::Noon => Ok(DateTimeClues { period: Some(DayPeriod::Noon), ..c }),
        TimeKind::EarlyMorning => Ok(DateTimeClues { period: Some(DayPeriod::EarlyMorning), ..c }),
    }
}

/// The clues after trying the first `n` date and time phrases on `text`.
pub open spec fn clues_after(text: Seq<char>, now: LocalDateTime, n: nat) -> Result<
    DateTimeClues,
    ParseError,
>
    decreases n,
{
    if n == 0 {
        Ok(no_clues())
    } else {
        match clues_after(text, now, (n - 1) as nat) {
            Err(e) => Err(e),
            Ok(c) => {
                let i = n - 1;
                if i < time_table().len() {
                    match regex_first_captures(time_table()[i].0, text) {
                        Some(caps) => clue_step(c, time_table()[i].1, caps, now),
                        None => Ok(c),
                    }
                } else {
                    Ok(c)
                }
            },
        }
    }
}

/// The usual time of a part of the day.
pub open spec fn period_time(p: Option<DayPeriod>) -> Option<(u32, u32)> {
    match p {
        Some(DayPeriod::Morning) => Some((8, 0)),
        Some(DayPeriod::Forenoon) => Some((10, 0)),
        Some(DayPeriod::Afternoon) => Some((14, 0)),
        Some(DayPeriod::Evening) => Some((19, 0)),
        Some(DayPeriod::Noon) => Some((12, 0)),
        Some(DayPeriod::EarlyMorning) => Some((5, 0)),
        None => None,
    }
}

/// An hour read on a 12-hour dial, moved to the afternoon or evening.
pub open spec fn corrected_hour(hour: u32, p: DayPeriod) -> u32 {
    if (p == DayPeriod::Afternoon || p == DayPeriod::Evening) && hour < 12 {
        (hour + 12) as u32
    } else {
        hour
    }
}

/// The time of day the clues settle on.
pub open spec fn settled_time(c: DateTimeClues) -> Option<(u32, u32)> {
    match c.time {
        None => period_time(c.period),
        Some(t) => match c.period {
            Some(p) => clock(corrected_hour(t.0, p), t.1),
            None => Some(t),
        },
    }
}

/// The due date the clues settle on: none without any date or time; else
/// the explicit date, or today at 09:00 moved by the day offset, at the
/// settled time of day when there is one.
pub open spec fn resolve_clues(c: DateTimeClues, now: LocalDateTime) -> Result<
    Option<LocalDateTime>,
    ParseError,
> {
    let time = settled_time(c);
    if c.explicit_date is None && c.day_offset is None && time is None {
        Ok(None)
    } else {
        let base = match c.explicit_date {
            Some(d) => Some(d),
            None => {
                let off = match c.day_offset {
                    Some(o) => o,
                    None => 0,
                };
                chrono_shift_seconds(now.on_day_at(9, 0), (off * 86400) as i64)
            },
        };
        match base {
            None => Err(ParseError::DateOutOfRange),
            Some(b) => Ok(
                Some(
                    match time {
                        Some(t) => b.on_day_at(t.0, t.1),
                        None => b,
                    },
                ),
            ),
        }
    }
}

/// The due date `text` names, read at `now`.
pub open spec fn due_date_of(text: Seq<char>, now: LocalDateTime) -> Result<
    Option<LocalDateTime>,
    ParseError,
> {
    match clues_after(text, now, time_table().len()) {
        Err(e) => Err(e),
        Ok(c) => resolve_clues(c, now),
    }
}

/// Clue validity: every date in them is valid, every time of day exists.
pub open spec fn clues_valid(c: DateTimeClues) -> bool {
    &&& c.explicit_date matches Some(d) ==> d.valid()
    &&& c.time matches Some(t) ==> t.0 < 24 && t.1 < 60
}

/// One date or time phrase of kind `kind`, matched with groups `caps`,
/// applied to the clues so far (`clue_step`).
pub fn apply_clue(c: DateTimeClues, kind: TimeKind, caps: &Vec<Option<String>>, now: LocalDateTime) -> (r:
    Result<DateTimeClues, ParseError>)
    requires
        now.valid(),
        clues_valid(c),
    ensures
        r == clue_step(c, kind, opt_views(caps@), now),
        r matches Ok(x) ==> clues_valid(x),
        r is Err ==> kind == TimeKind::HoursFromNow && (group(opt_views(caps@), 1) matches Some(h)
            && day_out_of_range(now, (second_of_day(now) + i32_or(h, 0) * 3600) / 86400)),
{
    let g1 = get_group(caps, 1);
    let g2 = get_group(caps, 2);
    let g3 = get_group(caps, 3);
    match kind {
        TimeKind::Tomorrow => Ok(DateTimeClues { day_offset: Some(1), ..c }),
        TimeKind::DayAfterTomorrow => Ok(DateTimeClues { day_offset: Some(2), ..c }),
        TimeKind::Today => Ok(DateTimeClues { day_offset: Some(0), ..c }),
        TimeKind::ThisWeek => match g1 {
            Some(d) => Ok(DateTimeClues { day_offset: Some(days_until_exec(d.as_str(), now)), ..c }),
            None => Ok(c),
        },
        TimeKind::NextWeek => match g1 {
            Some(d) => {
                let offset = days_until_exec(d.as_str(), now);
                Ok(DateTimeClues { day_offset: Some(offset + 7), ..c })
            },
            None => Ok(c),
        },
        TimeKind::DaysFromNow => match g1 {
            Some(d) => Ok(DateTimeClues { day_offset: Some(parse_i32_or(d.as_str(), 0)), ..c }),
            None => Ok(c),
        },
        TimeKind::HoursFromNow => match g1 {
            Some(h) => {
                let hours = parse_i32_or(h.as_str(), 0);
                match shift_seconds(now, (hours as i64) * 3600) {
                    Some(x) => Ok(DateTimeClues { explicit_date: Some(x), ..c }),
                    None => Err(ParseError::DateOutOfRange),
                }
            },
            None => Ok(c),
        },
        TimeKind::DateYmd => match (g1, g2, g3) {
            (Some(y), Some(m), Some(d)) => {
                let year = parse_i32_or(y.as_str(), now.year);
                let month = parse_u32_or(m.as_str(), 1);
                let day = parse_u32_or(d.as_str(), 1);
                if date_exists(year, month, day) {
                    Ok(
                        DateTimeClues {
                            explicit_date: Some(
                                LocalDateTime { year, month, day, hour: 9, minute: 0, second: 0 },
                            ),
                            ..c
                        },
                    )
                } else {
                    Ok(c)
                }
            },
            _ => Ok(c),
        },
        TimeKind::DateMd => match (g1, g2) {
            (Some(m), Some(d)) => {
                let year = now.year;
                let month = parse_u32_or(m.as_str(), 1);
                let day = parse_u32_or(d.as_str(), 1);
                if date_exists(year, month, day) {
                    Ok(
                        DateTimeClues {
                            explicit_date: Some(
                                LocalDateTime { year, month, day, hour: 9, minute: 0, second: 0 },
                            ),
                            ..c
                        },
                    )
                } else {
                    Ok(c)
                }
            },
            _ => Ok(c),
        },
        TimeKind::TimeHm | TimeKind::TimeHmCn | TimeKind::TimeHCnM => match (g1, g2) {
            (Some(h), Some(m)) => {
                let hour = parse_u32_or(h.as_str(), 9);
                let minute = parse_u32_or(m.as_str(), 0);
                Ok(DateTimeClues { time: clock_exec(hour, minute), ..c })
            },
            _ => Ok(c),
        },
        TimeKind::TimeH => match g1 {
            Some(h) => {
                let mut hour = parse_u32_or(h.as_str(), 9);
                let late = c.period == Some(DayPeriod::Afternoon) || c.period == Some(
                    DayPeriod::Evening,
                );
                if late && hour < 12 {
                    hour = hour + 12;
                }
                Ok(DateTimeClues { time: clock_exec(hour, 0), ..c })
            },
            None => Ok(c),
        },
        TimeKind::Morning => Ok(DateTimeClues { period: Some(DayPeriod::Morning), ..c }),
        TimeKind::Forenoon => Ok(DateTimeClues { period: Some(DayPeriod::Forenoon), ..c }),
        TimeKind::Afternoon => Ok(DateTimeClues { period: Some(DayPeriod::Afternoon), ..c }),
        TimeKind::Evening => Ok(DateTimeClues { period: Some(DayPeriod::Evening), ..c }),
        TimeKind::Noon => Ok(DateTimeClues { period: Some(DayPeriod::Noon), ..c }),
        TimeKind::EarlyMorning => Ok(DateTimeClues { period: Some(DayPeriod::EarlyMorning), ..c }),
    }
}

/// The time of day the clues settle on (`settled_time`).
pub fn settle_time(c: DateTimeClues) -> (r: Option<(u32, u32)>)
    requires
        clues_valid(c),
    ensures
        r == settled_time(c),
        r matches Some(t) ==> t.0 < 24 && t.1 < 60,
{
    match c.time {
        None => match c.period {
            Some(DayPeriod::Morning) => Some((8, 0)),
            Some(DayPeriod::Forenoon) => Some((10, 0)),
            Some(DayPeriod::Afternoon) => Some((14, 0)),
            Some(DayPeriod::Evening) => Some((19, 0)),
            Some(DayPeriod::Noon) => Some((12, 0)),
            Some(DayPeriod::EarlyMorning) => Some((5, 0)),
            None => None,
        },
        Some(t) => match c.period {
            Some(p) => {
                let hour = t.0;
                let corrected = if (p == DayPeriod::Afternoon || p == DayPeriod::Evening) && hour
                    < 12 {
                    hour + 12
                } else {
                    hour
                };
                clock_exec(corrected, t.1)
            },
            None => Some(t),
        },
    }
}

/// The day `n` days after `now`'s lies outside the calendar's range.
pub open spec fn day_out_of_range(now: LocalDateTime, n: int) -> bool {
    !(first_day_number() <= day_of(now) + n <= last_day_number())
}

/// A date phrase of `text` points outside the calendar's range: an
/// "n 小时后" phrase reached while reading, whose moment falls on a day out of
/// range; or the settled day offset from today, with no date given outright.
pub open spec fn date_overflow(text: Seq<char>, now: LocalDateTime) -> bool {
    ||| exists|i: nat|
        #![trigger clues_after(text, now, i)]
        i < time_table().len() && clues_after(text, now, i) is Ok && time_table()[i as int].1
            == TimeKind::HoursFromNow && (regex_first_captures(time_table()[i as int].0, text) matches Some(caps)
            && (group(caps, 1) matches Some(h) && day_out_of_range(
            now,
            (second_of_day(now) + i32_or(h, 0) * 3600) / 86400,
        )))
    ||| (clues_after(text, now, time_table().len()) matches Ok(c) && c.explicit_date is None
        && day_out_of_range(
        now,
        match c.day_offset {
            Some(o) => o as int,
            None => 0,
        },
    ))
}

/// When no date is given outright, the due date falls on the day the day
/// phrases count to from today (today itself without one), at the settled
/// time of day, or at 09:00 when none is settled.
pub open spec fn due_day_counts_from_today(text: Seq<char>, now: LocalDateTime, r: Result<
    Option<LocalDateTime>,
    ParseError,
>) -> bool {
    clues_after(text, now, time_table().len()) matches Ok(c) ==> (c.explicit_date is None ==> (
    r matches Ok(Some(d)) ==> {
        &&& day_of(d) == day_of(now) + match c.day_offset {
            Some(o) => o as int,
            None => 0,
        }
        &&& match settled_time(c) {
            Some(t) => d.hour == t.0 && d.minute == t.1 && d.second == 0,
            None => d.hour == 9 && d.minute == 0 && d.second == 0,
        }
    }))
}

/// Of the date and time phrases, the one at `i` in `time_table()` is the
/// only one that matches `text`.
pub open spec fn only_phrase(text: Seq<char>, i: int) -> bool {
    &&& 0 <= i < time_table().len()
    &&& regex_first_captures(time_table()[i].0, text) is Some
    &&& forall|j: int|
        0 <= j < time_table().len() && j != i ==> regex_first_captures(
            #[trigger] time_table()[j].0,
            text,
        ) is None
}

/// The part of the day a phrase kind names.
pub open spec fn period_word(k: TimeKind) -> Option<DayPeriod> {
    match k {
        TimeKind::Morning => Some(DayPeriod::Morning),
        TimeKind::Forenoon => Some(DayPeriod::Forenoon),
        TimeKind::Afternoon => Some(DayPeriod::Afternoon),
        TimeKind::Evening => Some(DayPeriod::Evening),
        TimeKind::Noon => Some(DayPeriod::Noon),
        TimeKind::EarlyMorning => Some(DayPeriod::EarlyMorning),
        _ => None,
    }
}

/// The hour a part of the day stands for.
pub open spec fn period_hour(p: DayPeriod) -> u32 {
    match p {
        DayPeriod::Morning => 8,
        DayPeriod::Forenoon => 10,
        DayPeriod::Afternoon => 14,
        DayPeriod::Evening => 19,
        DayPeriod::Noon => 12,
        DayPeriod::EarlyMorning => 5,
    }
}

/// The days after today a day word (今天, 明天, 后天) names.
pub open spec fn day_word_offset(k: TimeKind) -> Option<int> {
    match k {
        TimeKind::Today => Some(0),
        TimeKind::Tomorrow => Some(1),
        TimeKind::DayAfterTomorrow => Some(2),
        _ => None,
    }
}

/// What a text with a single date or time phrase is read as, when that
/// phrase is a part of the day or a day word: a part of the day alone means
/// today at its hour; a day word alone means that day at 09:00, unless that
/// day lies outside the calendar's range.
pub open spec fn single_word_reading(text: Seq<char>, now: LocalDateTime, r: Result<
    Option<LocalDateTime>,
    ParseError,
>) -> bool {
    forall|i: int|
        #![trigger only_phrase(text, i)]
        only_phrase(text, i) ==> single_word_reading_at(time_table()[i].1, now, r)
}

/// `single_word_reading` for the single phrase, of kind `k`.
pub open spec fn single_word_reading_at(k: TimeKind, now: LocalDateTime, r: Result<
    Option<LocalDateTime>,
    ParseError,
>) -> bool {
    &&& period_word(k) matches Some(p) ==> r == Ok::<Option<LocalDateTime>, ParseError>(
        Some(now.spec_on_day_at(period_hour(p), 0)),
    )
    &&& day_word_offset(k) matches Some(n) ==> match r {
        Ok(Some(d)) => d.hour == 9 && d.minute == 0 && d.second == 0 && day_of(d) == day_of(now)
            + n,
        Ok(None) => false,
        Err(e) => e == ParseError::DateOutOfRange && !(first_day_number() <= day_of(now) + n
            <= last_day_number()),
    }
}

proof fn lemma_only_phrase_clues(text: Seq<char>, now: LocalDateTime, i: int, n: nat)
    requires
        only_phrase(text, i),
        n <= time_table().len(),
    ensures
        clues_after(text, now, n) == if n <= i {
            Ok::<DateTimeClues, ParseError>(no_clues())
        } else {
            clue_step(
                no_clues(),
                time_table()[i].1,
                regex_first_captures(time_table()[i].0, text)->0,
                now,
            )
        },
    decreases n,
{
    if n > 0 {
        lemma_only_phrase_clues(text, now, i, (n - 1) as nat);
        if n - 1 != i {
            assert(regex_first_captures(time_table()[n - 1].0, text) is None);
        }
    }
}

/// The clues a single period word or day word leaves.
proof fn lemma_single_word_clues(text: Seq<char>, now: LocalDateTime, i: int)
    requires
        only_phrase(text, i),
    ensures
        period_word(time_table()[i].1) matches Some(p) ==> clues_after(
            text,
            now,
            time_table().len(),
        ) == Ok::<DateTimeClues, ParseError>(DateTimeClues { period: Some(p), ..no_clues() }),
        day_word_offset(time_table()[i].1) matches Some(k) ==> clues_after(
            text,
            now,
            time_table().len(),
        ) == Ok::<DateTimeClues, ParseError>(
            DateTimeClues { day_offset: Some(k as i32), ..no_clues() },
        ),
{
    lemma_only_phrase_clues(text, now, i, time_table().len());
}

/// A reading whose seconds since midnight are `h` hours exactly.
proof fn lemma_whole_hour(d: LocalDateTime, h: int)
    requires
        d.valid(),
        0 <= h < 24,
        second_of_day(d) == h * 3600,
    ensures
        d.hour == h,
        d.minute == 0,
        d.second == 0,
{
    assert(d.hour == h && d.minute == 0 && d.second == 0) by (nonlinear_arith)
        requires
            d.hour < 24,
            d.minute < 60,
            d.second < 60,
            d.hour * 3600 + d.minute * 60 + d.second == h * 3600,
            0 <= h < 24,
    ;
}

/// The due date `text` names, read at `now` (`parse_datetime`).
///
/// Phrases are tried in the order of `time_table()`, a later phrase of the
/// same sort overriding an earlier one. Without any date or time the result
/// is `None`; a date that would leave the calendar's range is an error.
pub fn parse_datetime(text: &str, now: LocalDateTime) -> (r: Result<Option<LocalDateTime>, ParseError>)
    requires
        now.valid(),
    ensures
        r == due_date_of(text@, now),
        r matches Ok(Some(d)) ==> d.valid(),
        r matches Err(e) ==> e == ParseError::DateOutOfRange && date_overflow(text@, now),
        single_word_reading(text@, now, r),
        due_day_counts_from_today(text@, now, r),
{
    let patterns = time_patterns();
    let mut c = DateTimeClues { day_offset: None, explicit_date: None, time: None, period: None };
    let mut i: usize = 0;
    while i < patterns.len()
        invariant
            now.valid(),
            crate::parser::patterns::pattern_views(patterns@) == time_table(),
            i <= patterns@.len(),
            clues_after(text@, now, i as nat) == Ok::<DateTimeClues, ParseError>(c),
            clues_valid(c),
        decreases patterns.len() - i,
    {
        let ghost entry = time_table()[i as int];
        assert(patterns@[i as int].0@ == entry.0 && patterns@[i as int].1 == entry.1);
        let caps = regex_captures(patterns[i].0.as_str(), text);
        match caps {
            Some(caps) => {
                match apply_clue(c, patterns[i].1, &caps, now) {
                    Ok(next) => {
                        c = next;
                    },
                    Err(e) => {
                        assert(clues_after(text@, now, (i + 1) as nat) == Err::<
                            DateTimeClues,
                            ParseError,
                        >(e));
                        proof {
                            lemma_clues_err_persists(text@, now, (i + 1) as nat, e);
                            assert(clues_after(text@, now, i as nat) is Ok);
                            assert forall|j: int| only_phrase(text@, j) implies single_word_reading_at(
                                time_table()[j].1,
                                now,
                                Err(e),
                            ) by {
                                lemma_single_word_clues(text@, now, j);
                            }
                        }
                        return Err(e);
                    },
                }
            },
            None => {},
        }
        i = i + 1;
    }
    let ghost clues = c;
    assert(clues_after(text@, now, time_table().len()) == Ok::<DateTimeClues, ParseError>(clues));
    let time = settle_time(c);
    if c.explicit_date.is_none() && c.day_offset.is_none() && time.is_none() {
        proof {
            assert forall|j: int| only_phrase(text@, j) implies single_word_reading_at(
                time_table()[j].1,
                now,
                Ok(None),
            ) by {
                lemma_single_word_clues(text@, now, j);
            }
        }
        return Ok(None);
    }
    let base = match c.explicit_date {
        Some(d) => d,
        None => {
            let off: i32 = match c.day_offset {
                Some(o) => o,
                None => 0,
            };
            let nine = now.on_day_at(9, 0);
            let shifted = shift_seconds(nine, (off as i64) * 86400);
            proof {
                if let Some(b) = shifted {
                    assert((32400 + off * 86400) / 86400 == off) by (nonlinear_arith);
                    assert((32400 + off * 86400) % 86400 == 32400) by (nonlinear_arith);
                    lemma_whole_hour(b, 9);
                }
                assert(day_of(nine) == day_of(now));
                assert(second_of_day(nine) == 32400);
                assert((32400 + off * 86400) / 86400 == off) by (nonlinear_arith);
                assert forall|j: int| only_phrase(text@, j) implies (shifted is None
                    ==> single_word_reading_at(time_table()[j].1, now, Err(ParseError::DateOutOfRange)))
                    && (shifted matches Some(b) ==> (day_word_offset(time_table()[j].1) is Some ==> {
                    &&& b.hour == 9 && b.minute == 0 && b.second == 0
                    &&& day_of(b) == day_of(now) + off
                })) && (shifted matches Some(b) ==> (period_word(time_table()[j].1) is Some ==> b == nine)) by {
                    lemma_single_word_clues(text@, now, j);
                    if let Some(k) = day_word_offset(time_table()[j].1) {
                        assert(off == k);
                        assert((32400 + off * 86400) % 86400 == 32400);
                        assert((32400 + off * 86400) / 86400 == off);
                        if let Some(b) = shifted {
                            lemma_whole_hour(b, 9);
                        }
                    }
                    if period_word(time_table()[j].1) is Some {
                        assert(off == 0);
                    }
                }
            }
            match shifted {
                Some(b) => b,
                None => {
                    return Err(ParseError::DateOutOfRange);
                },
            }
        },
    };
    let result = match time {
        Some(t) => base.on_day_at(t.0, t.1),
        None => base,
    };
    proof {
        assert forall|j: int| only_phrase(text@, j) implies single_word_reading_at(
            time_table()[j].1,
            now,
            Ok(Some(result)),
        ) by {
            lemma_single_word_clues(text@, now, j);
        }
    }
    Ok(Some(result))
}

proof fn lemma_clues_err_persists(text: Seq<char>, now: LocalDateTime, n: nat, e: ParseError)
    requires
        clues_after(text, now, n) == Err::<DateTimeClues, ParseError>(e),
        n <= time_table().len(),
    ensures
        clues_after(text, now, time_table().len()) == Err::<DateTimeClues, ParseError>(e),
    decreases time_table().len() - n,
{
    if n < time_table().len() {
        assert(clues_after(text, now, n + 1) == Err::<DateTimeClues, ParseError>(e));
        lemma_clues_err_persists(text, now, n + 1, e);
    }
}

// ---------------------------------------------------------------------------
// Title
// ---------------------------------------------------------------------------

/// The title used when nothing is left of the input.
pub open spec fn fallback_title() -> Seq<char> {
    "新提醒"@
}

/// `text` after removing the first `n` title phrases, one after another
/// (a phrase that does not compile removes nothing).
pub open spec fn strip_phrases(text: Seq<char>, n: nat) -> Seq<char>
    decreases n,
{
    if n == 0 {
        text
    } else {
        let t = strip_phrases(text, (n - 1) as nat);
        if n - 1 < title_table().len() {
            match regex_replacement(title_table()[n - 1], t, ""@) {
                Some(u) => u,
                None => t,
            }
        } else {
            t
        }
    }
}

/// The title: what is left once every date, time, recurrence, urgency,
/// priority, list, advance-notice phrase and punctuation mark is removed,
/// trimmed; the fallback title when nothing is left.
pub open spec fn title_of(text: Seq<char>) -> Seq<char> {
    let t = trim(strip_phrases(text, title_table().len()));
    if t.len() == 0 {
        fallback_title()
    } else {
        t
    }
}

pub fn extract_title(text: &str) -> (r: String)
    ensures
        r@ == title_of(text@),
{
    let patterns = title_patterns();
    let mut title = owned(text);
    let mut i: usize = 0;
    while i < patterns.len()
        invariant
            views(patterns@) == title_table(),
            i <= patterns@.len(),
            title@ == strip_phrases(text@, i as nat),
        decreases patterns.len() - i,
    {
        assert(patterns@[i as int]@ == title_table()[i as int]);
        match regex_replace_all(patterns[i].as_str(), title.as_str(), "") {
            Some(t) => {
                title = t;
            },
            None => {},
        }
        i = i + 1;
    }
    let trimmed = trim_str(title.as_str());
    if trimmed.as_str().is_empty() {
        owned("新提醒")
    } else {
        trimmed
    }
}

// ---------------------------------------------------------------------------
// Tags, list and recurrence
// ---------------------------------------------------------------------------

/// The tag marker and name: `#` followed by word characters.
pub open spec fn tag_pattern() -> Seq<char> {
    "#(\\w+)"@
}

/// The texts of the groups that took part, in order.
pub open spec fn present(v: Seq<Option<Seq<char>>>) -> Seq<Seq<char>>
    decreases v.len(),
{
    if v.len() == 0 {
        seq![]
    } else {
        present(v.drop_last()) + match v.last() {
            Some(s) => seq![s],
            None => seq![],
        }
    }
}

/// The tags of an input: the name after each `#`.
pub open spec fn tags_of(input: Seq<char>) -> Seq<Seq<char>> {
    present(regex_all_group1(tag_pattern(), input))
}

/// The input with its tags removed.
pub open spec fn untagged(input: Seq<char>) -> Seq<char> {
    match regex_replacement(tag_pattern(), input, ""@) {
        Some(t) => t,
        None => input,
    }
}

fn collect_tags(input: &str) -> (r: Vec<String>)
    ensures
        views(r@) == tags_of(input@),
{
    let found = regex_group1_all("#(\\w+)", input);
    let ghost all = opt_views(found@);
    let mut tags: Vec<String> = Vec::new();
    let mut i: usize = 0;
    while i < found.len()
        invariant
            i <= found@.len(),
            all == opt_views(found@),
            views(tags@) == present(all.take(i as int)),
        decreases found.len() - i,
    {
        proof {
            let t = all.take(i + 1);
            assert(t.drop_last() =~= all.take(i as int));
            assert(t.last() == opt_view(found@[i as int]));
        }
        match &found[i] {
            Some(tag) => {
                let ghost prev = tags@;
                tags.push(tag.clone());
                assert(views(tags@) =~= views(prev).push(tag@));
            },
            None => {},
        }
        i = i + 1;
    }
    assert(all.take(found@.len() as int) =~= all);
    tags
}

fn remove_tags(input: &str) -> (r: String)
    ensures
        r@ == untagged(input@),
{
    match regex_replace_all("#(\\w+)", input, "") {
        Some(t) => t,
        None => owned(input),
    }
}

/// The first of `pats`, from index `i` on, that matches `text`, with its
/// groups.
pub open spec fn first_match_from(pats: Seq<Seq<char>>, text: Seq<char>, i: int) -> Option<
    (int, Seq<Option<Seq<char>>>),
>
    decreases pats.len() - i,
{
    if i < 0 || i >= pats.len() {
        None
    } else {
        match regex_first_captures(pats[i], text) {
            Some(c) => Some((i, c)),
            None => first_match_from(pats, text, i + 1),
        }
    }
}

/// The target list: the name the first matching list phrase gives,
/// trimmed; `default_list` when no list phrase matches.
pub open spec fn list_of(text: Seq<char>, default_list: Seq<char>) -> Seq<char> {
    match first_match_from(list_table(), text, 0) {
        Some((_, caps)) => match group(caps, 1) {
            Some(m) => trim(m),
            None => default_list,
        },
        None => default_list,
    }
}

fn find_list(text: &str, default_list: &str) -> (r: String)
    ensures
        r@ == list_of(text@, default_list@),
{
    let patterns = list_patterns();
    let mut i: usize = 0;
    while i < patterns.len()
        invariant
            views(patterns@) == list_table(),
            i <= patterns@.len(),
            first_match_from(list_table(), text@, 0) == first_match_from(
                list_table(),
                text@,
                i as int,
            ),
        decreases patterns.len() - i,
    {
        assert(patterns@[i as int]@ == list_table()[i as int]);
        if let Some(caps) = regex_captures(patterns[i].as_str(), text) {
            return match get_group(&caps, 1) {
                Some(m) => trim_str(m.as_str()),
                None => owned(default_list),
            };
        }
        i = i + 1;
    }
    owned(default_list)
}

pub open spec fn recurrence_pattern_texts() -> Seq<Seq<char>> {
    recurrence_table().map_values(|p: (Seq<char>, SpecRecurrence)| p.0)
}

/// The recurrence of the first matching recurrence phrase; none when no
/// phrase matches.
pub open spec fn recurrence_of(text: Seq<char>) -> SpecRecurrence {
    match first_match_from(recurrence_pattern_texts(), text, 0) {
        Some((i, _)) => recurrence_table()[i].1,
        None => SpecRecurrence::NoRepeat,
    }
}

fn find_recurrence(text: &str) -> (r: Recurrence)
    ensures
        r@ == recurrence_of(text@),
{
    let patterns = recurrence_patterns();
    let mut i: usize = 0;
    while i < patterns.len()
        invariant
            crate::parser::patterns::recurrence_views(patterns@) == recurrence_table(),
            i <= patterns@.len(),
            first_match_from(recurrence_pattern_texts(), text@, 0) == first_match_from(
                recurrence_pattern_texts(),
                text@,
                i as int,
            ),
        decreases patterns.len() - i,
    {
        assert(patterns@[i as int].0@ == recurrence_pattern_texts()[i as int]);
        assert(patterns@[i as int].1@ == recurrence_table()[i as int].1);
        if regex_captures(patterns[i].0.as_str(), text).is_some() {
            return patterns[i].1.copied();
        }
        i = i + 1;
    }
    Recurrence::NoRepeat
}

// ---------------------------------------------------------------------------
// Priority and urgency
// ---------------------------------------------------------------------------

/// A keyword occurs in the text, or its lower-case form in the text's.
pub open spec fn keyword_hit(text: Seq<char>, lower: Seq<char>, kw: Seq<char>) -> bool {
    contains_seq(text, kw) || contains_seq(lower, unicode_lowercase(kw))
}

pub open spec fn any_keyword(text: Seq<char>, kws: Seq<Seq<char>>) -> bool {
    exists|i: int| 0 <= i < kws.len() && keyword_hit(text, unicode_lowercase(text), #[trigger] kws[i])
}

fn has_keyword(text: &str, lower: &str, keywords: &[&str]) -> (r: bool)
    requires
        lower@ == unicode_lowercase(text@),
    ensures
        r == any_keyword(text@, str_views(keywords@)),
{
    let mut i: usize = 0;
    while i < keywords.len()
        invariant
            lower@ == unicode_lowercase(text@),
            i <= keywords@.len(),
            forall|j: int| 0 <= j < i ==> !keyword_hit(text@, lower@, #[trigger] str_views(keywords@)[j]),
        decreases keywords.len() - i,
    {
        let kw = keywords[i];
        let kw_lower = to_lowercase(kw);
        assert(str_views(keywords@)[i as int] == kw@);
        if contains_str(text, kw) || contains_str(lower, kw_lower.as_str()) {
            return true;
        }
        i = i + 1;
    }
    false
}

/// Urgent words make a reminder urgent.
pub open spec fn urgent_of(text: Seq<char>) -> bool {
    any_keyword(text, urgent_table())
}

/// The priority: high for an important word, low for an unimportant one
/// (which wins over an important one), and high again for an urgent word;
/// no priority otherwise.
pub open spec fn priority_of(text: Seq<char>) -> Priority {
    let p1 = if any_keyword(text, high_priority_table()) {
        Priority::High
    } else {
        Priority::NoPriority
    };
    let p2 = if any_keyword(text, low_priority_table()) {
        Priority::Low
    } else {
        p1
    };
    if urgent_of(text) {
        Priority::High
    } else {
        p2
    }
}

// ---------------------------------------------------------------------------
// Advance notice
// ---------------------------------------------------------------------------

pub open spec fn advance_pattern_texts() -> Seq<Seq<char>> {
    advance_table().map_values(|p: (Seq<char>, AdvanceUnit)| p.0)
}

/// The first of `pats`, from index `i` on, that matches `text` with a group
/// 1, and that group's text.
pub open spec fn first_group1_from(pats: Seq<Seq<char>>, text: Seq<char>, i: int) -> Option<
    (int, Seq<char>),
>
    decreases pats.len() - i,
{
    if i < 0 || i >= pats.len() {
        None
    } else {
        match regex_first_captures(pats[i], text) {
            Some(c) => match group(c, 1) {
                Some(m) => Some((i, m)),
                None => first_group1_from(pats, text, i + 1),
            },
            None => first_group1_from(pats, text, i + 1),
        }
    }
}

/// Minutes in an amount of a unit.
pub open spec fn unit_minutes(value: int, unit: AdvanceUnit) -> int {
    match unit {
        AdvanceUnit::Minutes => value,
        AdvanceUnit::Hours => value * 60,
        AdvanceUnit::Days => value * 24 * 60,
    }
}

/// The alert times: the first advance-notice phrase in minutes, or the due
/// time itself (zero minutes ahead) when there is none.
pub open spec fn advance_of(text: Seq<char>) -> Result<Seq<i32>, ParseError> {
    match first_group1_from(advance_pattern_texts(), text, 0) {
        None => Ok(seq![0i32]),
        Some((i, m)) => {
            let minutes = unit_minutes(i32_or(m, 0) as int, advance_table()[i].1);
            if i32::MIN <= minutes <= i32::MAX {
                Ok(seq![minutes as i32])
            } else {
                Err(ParseError::AdvanceOverflow)
            }
        },
    }
}

fn find_advance(text: &str) -> (r: Result<Vec<i32>, ParseError>)
    ensures
        match r {
            Ok(v) => advance_of(text@) == Ok::<Seq<i32>, ParseError>(v@),
            Err(e) => advance_of(text@) == Err::<Seq<i32>, ParseError>(e),
        },
{
    let patterns = reminder_time_patterns();
    let mut i: usize = 0;
    while i < patterns.len()
        invariant
            crate::parser::patterns::pattern_views(patterns@) == advance_table(),
            i <= patterns@.len(),
            first_group1_from(advance_pattern_texts(), text@, 0) == first_group1_from(
                advance_pattern_texts(),
                text@,
                i as int,
            ),
        decreases patterns.len() - i,
    {
        assert(patterns@[i as int].0@ == advance_pattern_texts()[i as int]);
        assert(patterns@[i as int].1 == advance_table()[i as int].1);
        if let Some(caps) = regex_captures(patterns[i].0.as_str(), text) {
            if let Some(m) = get_group(&caps, 1) {
                let value = parse_i32_or(m.as_str(), 0);
                let minutes = match patterns[i].1 {
                    AdvanceUnit::Minutes => Some(value),
                    AdvanceUnit::Hours => value.checked_mul(60),
                    AdvanceUnit::Days => match value.checked_mul(24) {
                        Some(v) => v.checked_mul(60),
                        None => None,
                    },
                };
                return match minutes {
                    Some(mins) => {
                        let v = vec![mins];
                        assert(v@ =~= seq![mins]);
                        Ok(v)
                    },
                    None => Err(ParseError::AdvanceOverflow),
                };
            }
        }
        i = i + 1;
    }
    let v = vec![0i32];
    assert(v@ =~= seq![0i32]);
    Ok(v)
}

// ---------------------------------------------------------------------------
// The whole input
// ---------------------------------------------------------------------------

/// What the parser reads from `input` at `now`, the list defaulting to
/// `default_list`: tags are read from the trimmed input and then removed;
/// every other aspect is read from what remains.
pub open spec fn parse_spec(input: Seq<char>, default_list: Seq<char>, now: LocalDateTime) -> Result<
    SpecParsedReminder,
    ParseError,
> {
    let input = trim(input);
    let text = untagged(input);
    match advance_of(text) {
        Err(e) => Err(e),
        Ok(minutes) => match due_date_of(text, now) {
            Err(e) => Err(e),
            Ok(due) => Ok(
                SpecParsedReminder {
                    title: title_of(text),
                    due_date: due,
                    start_date: None,
                    priority: priority_of(text),
                    is_urgent: urgent_of(text),
                    recurrence: recurrence_of(text),
                    location: None,
                    reminder_minutes: minutes,
                    tags: tags_of(input),
                    list: list_of(text, default_list),
                },
            ),
        },
    }
}

/// Why parsing `input` at `now` fails with `e`: the advance notice does not
/// fit in an `i32` of minutes, or a date phrase points outside the
/// calendar's range. Parsing fails for no other reason.
pub open spec fn parse_failure(input: Seq<char>, now: LocalDateTime, e: ParseError) -> bool {
    let text = untagged(trim(input));
    ||| e == ParseError::AdvanceOverflow && advance_of(text) is Err
    ||| e == ParseError::DateOutOfRange && advance_of(text) is Ok && date_overflow(text, now)
}

/// Parses `input` as read at the local time `now`.
pub fn parse_input_at(input: &str, default_list: &str, now: LocalDateTime) -> (r: Result<
    ParsedReminder,
    ParseError,
>)
    requires
        now.valid(),
    ensures
        match r {
            Ok(p) => parse_spec(input@, default_list@, now) == Ok::<SpecParsedReminder, ParseError>(p@),
            Err(e) => parse_spec(input@, default_list@, now) == Err::<SpecParsedReminder, ParseError>(e),
        },
        r matches Ok(p) ==> (p.due_date matches Some(d) ==> d.valid()),
        r matches Err(e) ==> parse_failure(input@, now, e),
        parses_within_bounds(input@, now) ==> r is Ok,
{
    proof {
        if parses_within_bounds(input@, now) {
            parse_succeeds_within_bounds(input@, now, ParseError::DateOutOfRange);
            parse_succeeds_within_bounds(input@, now, ParseError::AdvanceOverflow);
        }
    }
    let input = trim_str(input);
    let tags = collect_tags(input.as_str());
    let text = remove_tags(input.as_str());
    let list = find_list(text.as_str(), default_list);
    let recurrence = find_recurrence(text.as_str());
    let lower = to_lowercase(text.as_str());
    let mut priority = Priority::NoPriority;
    if has_keyword(text.as_str(), lower.as_str(), high_priority_keywords()) {
        priority = Priority::High;
    }
    if has_keyword(text.as_str(), lower.as_str(), low_priority_keywords()) {
        priority = Priority::Low;
    }
    let mut is_urgent = false;
    if has_keyword(text.as_str(), lower.as_str(), urgent_keywords()) {
        is_urgent = true;
        if priority != Priority::High {
            priority = Priority::High;
        }
    }
    let reminder_minutes = match find_advance(text.as_str()) {
        Ok(v) => v,
        Err(e) => {
            return Err(e);
        },
    };
    let due_date = match parse_datetime(text.as_str(), now) {
        Ok(d) => d,
        Err(e) => {
            return Err(e);
        },
    };
    let title = extract_title(text.as_str());
    let result = ParsedReminder {
        title,
        due_date,
        start_date: None,
        priority,
        is_urgent,
        recurrence,
        location: None,
        reminder_minutes,
        tags,
        list,
    };
    Ok(result)
}

/// Parses `input` as read now (`Local::now()`), the list defaulting to
/// `default_list`.
pub fn parse_input(input: &str, default_list: &str) -> (r: Result<ParsedReminder, ParseError>)
    ensures
        exists|now: LocalDateTime|
            now.valid() && match r {
                Ok(p) => parse_spec(input@, default_list@, now) == Ok::<
                    SpecParsedReminder,
                    ParseError,
                >(p@),
                Err(e) => parse_spec(input@, default_list@, now) == Err::<
                    SpecParsedReminder,
                    ParseError,
                >(e) && parse_failure(input@, now, e),
            },
        r matches Ok(p) ==> (p.due_date matches Some(d) ==> d.valid()),
{
    let now = local_now();
    parse_input_at(input, default_list, now)
}

// ---------------------------------------------------------------------------
// Laws of the parser
// ---------------------------------------------------------------------------

/// What every successful parse looks like: a present title with no outer
/// whitespace, exactly one alert time, no start date and no location, an
/// urgent reminder of high priority, and as tags the words after `#` in
/// the trimmed input, in order.
pub proof fn parse_result_shape(input: Seq<char>, default_list: Seq<char>, now: LocalDateTime)
    ensures
        parse_spec(input, default_list, now) matches Ok(p) ==> {
            &&& p.title.len() > 0
            &&& !crate::text::is_ws(p.title[0]) && !crate::text::is_ws(p.title.last())
            &&& p.reminder_minutes.len() == 1
            &&& p.start_date is None && p.location is None
            &&& p.is_urgent ==> p.priority == Priority::High
            &&& p.tags == tags_of(trim(input))
        },
{
    title_is_present_and_trimmed(untagged(trim(input)));
}

/// The bounds within which parsing `input` at `now` cannot fail: a moment
/// in the years -10000 to 10000, an advance notice that fits in an `i32` of
/// minutes, and an "n天后" phrase of fewer than ten million days.
pub open spec fn parses_within_bounds(input: Seq<char>, now: LocalDateTime) -> bool {
    &&& now.valid()
    &&& -10000 <= now.year <= 10000
    &&& advance_of(untagged(trim(input))) is Ok
    &&& days_phrase_bounded(untagged(trim(input)))
}

/// Every "n天后" phrase of `text` names fewer than ten million days either way.
pub open spec fn days_phrase_bounded(text: Seq<char>) -> bool {
    match regex_first_captures(time_table()[5].0, text) {
        Some(caps) => match group(caps, 1) {
            Some(d) => -10000000 < i32_or(d, 0) < 10000000,
            None => true,
        },
        None => true,
    }
}

proof fn lemma_day_number_bounds(y: int, m: int, d: int)
    requires
        -10000 <= y <= 10000,
        1 <= m <= 12,
        1 <= d <= 31,
    ensures
        -4400000 <= day_number(y, m, d) <= 3000000,
{
    let yy = if m <= 2 {
        y - 1
    } else {
        y
    };
    let era = yy / 400;
    let yoe = yy - era * 400;
    assert(-26 <= era <= 25);
    assert(0 <= yoe < 400);
    let mp = (m + 9) % 12;
    assert(0 <= mp < 12);
    let doy = (153 * mp + 2) / 5 + d - 1;
    assert(0 <= doy <= 400);
    let doe = yoe * 365 + yoe / 4 - yoe / 100 + doy;
    assert(0 <= doe <= 146500) by (nonlinear_arith)
        requires
            0 <= yoe < 400,
            0 <= doy <= 400,
            doe == yoe * 365 + yoe / 4 - yoe / 100 + doy,
    ;
    assert(-26 * 146097 <= era * 146097 <= 25 * 146097) by (nonlinear_arith)
        requires
            -26 <= era <= 25,
    ;
}

proof fn lemma_day_offsets_bounded(text: Seq<char>, now: LocalDateTime, n: nat)
    requires
        days_phrase_bounded(text),
        n <= time_table().len(),
    ensures
        clues_after(text, now, n) matches Ok(c) ==> (c.day_offset matches Some(o) ==> -10000000 < o
            < 10000000),
    decreases n,
{
    if n > 0 {
        lemma_day_offsets_bounded(text, now, (n - 1) as nat);
    }
}

/// Within the bounds people write, parsing does not fail: when the moment
/// of reading lies in the years -10000 to 10000, the advance notice fits in
/// an `i32` of minutes and an "n天后" phrase names fewer than ten million
/// days, no reason for failure holds (so `parse_input_at` returns `Ok`).
pub proof fn parse_succeeds_within_bounds(input: Seq<char>, now: LocalDateTime, e: ParseError)
    requires
        now.valid(),
        -10000 <= now.year <= 10000,
        advance_of(untagged(trim(input))) is Ok,
        days_phrase_bounded(untagged(trim(input))),
    ensures
        !parse_failure(input, now, e),
{
    let text = untagged(trim(input));
    lemma_day_number_bounds(now.year as int, now.month as int, now.day as int);
    assert(first_day_number() == -96465292);
    assert(last_day_number() == 95026236);
    lemma_day_offsets_bounded(text, now, time_table().len());
    assert forall|i: nat|
        #![trigger clues_after(text, now, i)]
        i < time_table().len() && clues_after(text, now, i) is Ok && time_table()[i as int].1
            == TimeKind::HoursFromNow implies !(regex_first_captures(time_table()[i as int].0, text) matches Some(
        caps) && (group(caps, 1) matches Some(h) && day_out_of_range(
        now,
        (second_of_day(now) + i32_or(h, 0) * 3600) / 86400,
    ))) by {
        if let Some(caps) = regex_first_captures(time_table()[i as int].0, text) {
            if let Some(h) = group(caps, 1) {
                let hours = i32_or(h, 0) as int;
                let t = second_of_day(now) + hours * 3600;
                assert(-2147483648 * 3600 <= hours * 3600 <= 2147483647 * 3600) by (nonlinear_arith)
                    requires
                        -2147483648 <= hours <= 2147483647,
                ;
                assert(0 <= second_of_day(now) < 86400);
                assert(-89478486 <= t / 86400 <= 89478486);
            }
        }
    }
}

/// An urgent reminder is always of high priority: whatever else the input
/// says, an urgent word wins over priority words.
pub proof fn urgent_means_high_priority(input: Seq<char>, default_list: Seq<char>, now: LocalDateTime)
    ensures
        parse_spec(input, default_list, now) matches Ok(p) ==> (p.is_urgent ==> p.priority
            == Priority::High),
{
}

/// Every parse result alerts exactly once.
pub proof fn one_alert_time(input: Seq<char>, default_list: Seq<char>, now: LocalDateTime)
    ensures
        parse_spec(input, default_list, now) matches Ok(p) ==> p.reminder_minutes.len() == 1,
{
}

proof fn lemma_trim_start_shape(s: Seq<char>)
    ensures
        trim_start(s).len() <= s.len(),
        trim_start(s).len() > 0 ==> !crate::text::is_ws(trim_start(s)[0]),
        trim_start(s) == s.subrange(s.len() - trim_start(s).len(), s.len() as int),
    decreases s.len(),
{
    if s.len() > 0 && crate::text::is_ws(s[0]) {
        lemma_trim_start_shape(s.drop_first());
        assert(s.drop_first().subrange(
            s.drop_first().len() - trim_start(s).len(),
            s.drop_first().len() as int,
        ) =~= s.subrange(s.len() - trim_start(s).len(), s.len() as int));
    } else {
        assert(s.subrange(0, s.len() as int) =~= s);
    }
}

proof fn lemma_trim_end_shape(s: Seq<char>)
    ensures
        trim_end(s).len() <= s.len(),
        trim_end(s).len() > 0 ==> !crate::text::is_ws(trim_end(s).last()),
        trim_end(s) == s.subrange(0, trim_end(s).len() as int),
    decreases s.len(),
{
    if s.len() > 0 && crate::text::is_ws(s.last()) {
        lemma_trim_end_shape(s.drop_last());
        assert(s.drop_last().subrange(0, trim_end(s).len() as int) =~= s.subrange(
            0,
            trim_end(s).len() as int,
        ));
    } else {
        assert(s.subrange(0, s.len() as int) =~= s);
    }
}

/// A trimmed text that is not empty starts and ends with a character that
/// is not whitespace.
pub proof fn trimmed_has_no_outer_whitespace(s: Seq<char>)
    ensures
        trim(s).len() > 0 ==> !crate::text::is_ws(trim(s)[0]) && !crate::text::is_ws(trim(s).last()),
{
    let a = trim_start(s);
    lemma_trim_start_shape(s);
    lemma_trim_end_shape(a);
    if trim(s).len() > 0 {
        assert(trim(s)[0] == a[0]);
    }
}

/// Every parse result has a title, and the title neither starts nor ends
/// with whitespace.
pub proof fn title_is_present_and_trimmed(text: Seq<char>)
    ensures
        title_of(text).len() > 0,
        !crate::text::is_ws(title_of(text)[0]),
        !crate::text::is_ws(title_of(text).last()),
{
    reveal_strlit("新提醒");
    trimmed_has_no_outer_whitespace(strip_phrases(text, title_table().len()));
}

proof fn lemma_no_phrase_no_clue(text: Seq<char>, now: LocalDateTime, n: nat)
    requires
        n <= time_table().len(),
        forall|i: int| 0 <= i < time_table().len() ==> regex_first_captures(#[trigger] time_table()[i].0, text) is None,
    ensures
        clues_after(text, now, n) == Ok::<DateTimeClues, ParseError>(no_clues()),
    decreases n,
{
    if n > 0 {
        lemma_no_phrase_no_clue(text, now, (n - 1) as nat);
        assert(regex_first_captures(time_table()[n - 1].0, text) is None);
    }
}

/// Without any date or time phrase, there is no due date: the parser does
/// not make one up.
pub proof fn no_date_phrase_no_due_date(text: Seq<char>, now: LocalDateTime)
    requires
        forall|i: int| 0 <= i < time_table().len() ==> regex_first_captures(#[trigger] time_table()[i].0, text) is None,
    ensures
        due_date_of(text, now) == Ok::<Option<LocalDateTime>, ParseError>(None),
{
    lemma_no_phrase_no_clue(text, now, time_table().len());
}

// ---------------------------------------------------------------------------
// Laws of the clock time
// ---------------------------------------------------------------------------

/// A stated clock time keeps its hour, except that 下午 and 晚上 move an
/// hour before noon to the afternoon (3点 → 15:00); 上午, 早上, 凌晨 and 中午
/// never move it. Without a clock time, a part of the day stands for its
/// usual hour: 早上 8:00, 上午 10:00, 下午 14:00, 晚上 19:00, 中午 12:00,
/// 凌晨 5:00. The due date is set to that time of day.
pub proof fn stated_clock_time_is_kept(c: DateTimeClues, now: LocalDateTime)
    ensures
        c.time matches Some(t) ==> (t.0 < 24 && t.1 < 60 && c.period != Some(DayPeriod::Afternoon)
            && c.period != Some(DayPeriod::Evening) ==> settled_time(c) == Some(t)),
        c.time matches Some(t) ==> (t.0 < 12 && t.1 < 60 && (c.period == Some(DayPeriod::Afternoon)
            || c.period == Some(DayPeriod::Evening)) ==> settled_time(c) == Some(
            ((t.0 + 12) as u32, t.1),
        )),
        c.time matches Some(t) ==> (12 <= t.0 < 24 && t.1 < 60 ==> settled_time(c) == Some(t)),
        c.time is None ==> settled_time(c) == match c.period {
            Some(DayPeriod::Morning) => Some((8u32, 0u32)),
            Some(DayPeriod::Forenoon) => Some((10u32, 0u32)),
            Some(DayPeriod::Afternoon) => Some((14u32, 0u32)),
            Some(DayPeriod::Evening) => Some((19u32, 0u32)),
            Some(DayPeriod::Noon) => Some((12u32, 0u32)),
            Some(DayPeriod::EarlyMorning) => Some((5u32, 0u32)),
            None => None::<(u32, u32)>,
        },
        resolve_clues(c, now) matches Ok(Some(d)) ==> (settled_time(c) matches Some(t) ==> d.hour
            == t.0 && d.minute == t.1 && d.second == 0),
{
}

/// An "n点" phrase states hour n, moved to the afternoon only when 下午 or
/// 晚上 came before it and n is before noon.
pub proof fn hour_phrase_states_its_hour(
    c: DateTimeClues,
    caps: Seq<Option<Seq<char>>>,
    now: LocalDateTime,
    h: Seq<char>,
)
    requires
        group(caps, 1) == Some(h),
    ensures
        ({
            let n = u32_or(h, 9);
            let late = c.period == Some(DayPeriod::Afternoon) || c.period == Some(DayPeriod::Evening);
            &&& clue_step(c, TimeKind::TimeH, caps, now) matches Ok(x)
            &&& (n < 24 && !(late && n < 12) ==> clue_step(c, TimeKind::TimeH, caps, now)->Ok_0.time
                == Some((n, 0u32)))
            &&& (late && n < 12 ==> clue_step(c, TimeKind::TimeH, caps, now)->Ok_0.time == Some(
                ((n + 12) as u32, 0u32),
            ))
            &&& (n >= 24 ==> clue_step(c, TimeKind::TimeH, caps, now)->Ok_0.time is None)
        }),
{
}

// ---------------------------------------------------------------------------
// Laws of the recurrence
// ---------------------------------------------------------------------------

/// Some of the words `words` occurs in `text`, as the regex of the
/// alternatives finds it.
pub open spec fn says_any(text: Seq<char>, words: Seq<Seq<char>>) -> bool {
    regex_first_captures(escaped_alternatives(words), text) is Some
}

/// The recurrence is that of the first group of phrases the text uses, in
/// this order: 每天/每日 daily, 每周/每星期 weekly, 每月/每个月 monthly,
/// 每年 yearly, 每个工作日/工作日 on weekdays, 每个周末/周末 at weekends;
/// none when the text uses none of them.
pub proof fn recurrence_follows_first_phrase(text: Seq<char>)
    ensures
        says_any(text, seq!["每天"@, "每日"@]) ==> recurrence_of(text) == SpecRecurrence::Daily,
        !says_any(text, seq!["每天"@, "每日"@]) && says_any(text, seq!["每周"@, "每星期"@])
            ==> recurrence_of(text) == SpecRecurrence::Weekly,
        !says_any(text, seq!["每天"@, "每日"@]) && !says_any(text, seq!["每周"@, "每星期"@])
            && says_any(text, seq!["每月"@, "每个月"@]) ==> recurrence_of(text)
            == SpecRecurrence::Monthly,
        !says_any(text, seq!["每天"@, "每日"@]) && !says_any(text, seq!["每周"@, "每星期"@])
            && !says_any(text, seq!["每月"@, "每个月"@]) && says_any(text, seq!["每年"@])
            ==> recurrence_of(text) == SpecRecurrence::Yearly,
        !says_any(text, seq!["每天"@, "每日"@]) && !says_any(text, seq!["每周"@, "每星期"@])
            && !says_any(text, seq!["每月"@, "每个月"@]) && !says_any(text, seq!["每年"@])
            && says_any(text, seq!["每个工作日"@, "工作日"@]) ==> recurrence_of(text)
            == SpecRecurrence::Weekdays,
        !says_any(text, seq!["每天"@, "每日"@]) && !says_any(text, seq!["每周"@, "每星期"@])
            && !says_any(text, seq!["每月"@, "每个月"@]) && !says_any(text, seq!["每年"@])
            && !says_any(text, seq!["每个工作日"@, "工作日"@]) && says_any(
            text,
            seq!["每个周末"@, "周末"@],
        ) ==> recurrence_of(text) == SpecRecurrence::Weekends,
        !says_any(text, seq!["每天"@, "每日"@]) && !says_any(text, seq!["每周"@, "每星期"@])
            && !says_any(text, seq!["每月"@, "每个月"@]) && !says_any(text, seq!["每年"@])
            && !says_any(text, seq!["每个工作日"@, "工作日"@]) && !says_any(
            text,
            seq!["每个周末"@, "周末"@],
        ) ==> recurrence_of(text) == SpecRecurrence::NoRepeat,
{
    let p = recurrence_pattern_texts();
    assert(p.len() == 6);
    assert(p[0] == escaped_alternatives(seq!["每天"@, "每日"@]));
    assert(p[1] == escaped_alternatives(seq!["每周"@, "每星期"@]));
    assert(p[2] == escaped_alternatives(seq!["每月"@, "每个月"@]));
    assert(p[3] == escaped_alternatives(seq!["每年"@]));
    assert(p[4] == escaped_alternatives(seq!["每个工作日"@, "工作日"@]));
    assert(p[5] == escaped_alternatives(seq!["每个周末"@, "周末"@]));
    reveal_with_fuel(first_match_from, 7);
}

// ---------------------------------------------------------------------------
// Laws of the title
// ---------------------------------------------------------------------------

/// `text` with every match of the phrase pattern `p` removed (unchanged
/// when `p` does not compile).
pub open spec fn without_phrase(text: Seq<char>, p: Seq<char>) -> Seq<char> {
    match regex_replacement(p, text, ""@) {
        Some(u) => u,
        None => text,
    }
}

/// The title is what is left of the text once these phrases are removed,
/// one kind after another and none skipped: day words; 周X/下周X; n天后 and
/// n小时后; dates with and without a year; clock times; parts of the day;
/// recurrence words; urgency words; priority words; "加到…列表"; "列表：name";
/// "提前n分钟/小时/天"; punctuation. The rest is trimmed, and an empty rest
/// gives "新提醒".
pub proof fn title_removes_every_phrase(text: Seq<char>)
    ensures
        title_table().len() == 15,
        title_table()[0] == alt_spec(seq!["明天"@, "明日"@, "后天"@, "今天"@, "今日"@]),
        title_table()[1] == "下周[一二三四五六日天]|(?:下周)?周[一二三四五六日天]"@,
        title_table()[2] == "\\d+天后|\\d+小时后"@,
        title_table()[3] == "\\d{4}[-/.]\\d{1,2}[-/.]\\d{1,2}"@,
        title_table()[4] == "\\d{1,2}[-/.]\\d{1,2}"@,
        title_table()[5] == "\\d{1,2}:\\d{2}"@,
        title_table()[6] == "\\d{1,2}点\\d{1,2}分|\\d{1,2}点\\d{1,2}|\\d{1,2}点"@,
        title_table()[7] == alt_spec(
            seq!["早上"@, "早晨"@, "上午"@, "下午"@, "晚上"@, "晚间"@, "中午"@, "凌晨"@],
        ),
        title_table()[8] == alt_spec(
            seq![
                "每天"@,
                "每日"@,
                "每周"@,
                "每星期"@,
                "每月"@,
                "每个月"@,
                "每年"@,
                "每个工作日"@,
                "工作日"@,
                "每个周末"@,
                "周末"@,
            ],
        ),
        title_table()[9] == alt_spec(
            seq!["紧急"@, "马上"@, "立刻"@, "ASAP"@, "asap"@, "火烧眉毛"@, "十万火急"@],
        ),
        title_table()[10] == alt_spec(
            seq!["重要"@, "优先"@, "高优先级"@, "不重要"@, "低优先级"@, "有空再做"@],
        ),
        title_table()[11] == "(?:加到|放到|存到|添加到)\\s*[\\S]+?(?:列表|清单)?"@,
        title_table()[12] == "列表[:：]\\s*\\S+"@,
        title_table()[13] == "提前\\d+(?:分钟|小时|天)"@,
        title_table()[14] == alt_spec(seq!["，"@, "。"@, "！"@, "？"@, ","@, "."@, "!"@, "?"@]),
        strip_phrases(text, 0) == text,
        forall|k: int|
            0 <= k < 15 ==> #[trigger] strip_phrases(text, (k + 1) as nat) == without_phrase(
                strip_phrases(text, k as nat),
                title_table()[k],
            ),
        title_of(text) == if trim(strip_phrases(text, 15)).len() == 0 {
            "新提醒"@
        } else {
            trim(strip_phrases(text, 15))
        },
{
    assert forall|k: int|
        0 <= k < 15 implies #[trigger] strip_phrases(text, (k + 1) as nat) == without_phrase(
        strip_phrases(text, k as nat),
        title_table()[k],
    ) by {
        assert(((k + 1) as nat) - 1 == k);
    }
}

// ---------------------------------------------------------------------------
// Laws of urgency, priority, alert time, list and tags
// ---------------------------------------------------------------------------

/// Some word of `words` occurs in `text`, as written or in lower case.
pub open spec fn uses_word(text: Seq<char>, words: Seq<Seq<char>>) -> bool {
    exists|i: int|
        0 <= i < words.len() && (contains_seq(text, #[trigger] words[i]) || contains_seq(
            unicode_lowercase(text),
            unicode_lowercase(words[i]),
        ))
}

/// A reminder is urgent exactly when the text uses an urgency word: 紧急,
/// 急, 马上, 立刻, ASAP, asap, 火烧眉毛, 十万火急 or urgent. Its priority is
/// high when urgent; else low for 不重要, 低优先级, 有空再做 or "low
/// priority"; else high for 重要, 优先, 高优先级, critical or "high
/// priority"; else none.
pub proof fn priority_follows_words(text: Seq<char>)
    ensures
        urgent_of(text) == uses_word(
            text,
            seq!["紧急"@, "急"@, "马上"@, "立刻"@, "ASAP"@, "asap"@, "火烧眉毛"@, "十万火急"@, "urgent"@],
        ),
        uses_word(
            text,
            seq!["紧急"@, "急"@, "马上"@, "立刻"@, "ASAP"@, "asap"@, "火烧眉毛"@, "十万火急"@, "urgent"@],
        ) ==> priority_of(text) == Priority::High,
        !urgent_of(text) && uses_word(text, seq!["不重要"@, "低优先级"@, "有空再做"@, "low priority"@])
            ==> priority_of(text) == Priority::Low,
        !urgent_of(text) && !uses_word(text, seq!["不重要"@, "低优先级"@, "有空再做"@, "low priority"@])
            && uses_word(text, seq!["重要"@, "优先"@, "高优先级"@, "critical"@, "high priority"@])
            ==> priority_of(text) == Priority::High,
        !urgent_of(text) && !uses_word(text, seq!["不重要"@, "低优先级"@, "有空再做"@, "low priority"@])
            && !uses_word(text, seq!["重要"@, "优先"@, "高优先级"@, "critical"@, "high priority"@])
            ==> priority_of(text) == Priority::NoPriority,
{
    assert(urgent_table() =~= seq![
        "紧急"@,
        "急"@,
        "马上"@,
        "立刻"@,
        "ASAP"@,
        "asap"@,
        "火烧眉毛"@,
        "十万火急"@,
        "urgent"@,
    ]);
    assert(low_priority_table() =~= seq!["不重要"@, "低优先级"@, "有空再做"@, "low priority"@]);
    assert(high_priority_table() =~= seq!["重要"@, "优先"@, "高优先级"@, "critical"@, "high priority"@]);
}

/// The alert time comes from the first of 提前n分钟, 提前n小时, 提前n天 that
/// the text uses: n minutes, n hours or n days ahead, in minutes; an amount
/// that does not fit in an `i32` of minutes is an error; without such a
/// phrase the alert is at the due time itself.
pub proof fn alert_follows_advance_phrase(text: Seq<char>)
    ensures
        advance_pattern_texts() == seq!["提前(\\d+)分钟"@, "提前(\\d+)小时"@, "提前(\\d+)天"@],
        first_group1_from(advance_pattern_texts(), text, 0) is None ==> advance_of(text) == Ok::<
            Seq<i32>,
            ParseError,
        >(seq![0i32]),
        first_group1_from(advance_pattern_texts(), text, 0) matches Some((i, m)) ==> {
            let n = i32_or(m, 0) as int;
            let minutes = if i == 0 {
                n
            } else if i == 1 {
                n * 60
            } else {
                n * 1440
            };
            &&& 0 <= i < 3
            &&& (i32::MIN <= minutes <= i32::MAX ==> advance_of(text) == Ok::<Seq<i32>, ParseError>(
                seq![minutes as i32],
            ))
            &&& (!(i32::MIN <= minutes <= i32::MAX) ==> advance_of(text) == Err::<Seq<i32>, ParseError>(
                ParseError::AdvanceOverflow,
            ))
        },
{
    assert(advance_pattern_texts() =~= seq!["提前(\\d+)分钟"@, "提前(\\d+)小时"@, "提前(\\d+)天"@]);
    lemma_first_group1_index(advance_pattern_texts(), text, 0);
}

/// The first advance-notice phrase is the first pattern, in order, that
/// matches with an amount: it matches there with that amount, and no
/// earlier pattern matches with one; none is found only when no pattern
/// matches with an amount.
pub proof fn first_phrase_with_amount(pats: Seq<Seq<char>>, text: Seq<char>)
    ensures
        first_group1_from(pats, text, 0) matches Some((i, m)) ==> {
            &&& 0 <= i < pats.len()
            &&& regex_first_captures(pats[i], text) matches Some(c) && group(c, 1) == Some(m)
            &&& forall|j: int| 0 <= j < i ==> !(regex_first_captures(#[trigger] pats[j], text) matches Some(c)
                && group(c, 1) is Some)
        },
        first_group1_from(pats, text, 0) is None ==> forall|j: int|
            0 <= j < pats.len() ==> !(regex_first_captures(#[trigger] pats[j], text) matches Some(c) && group(
                c,
                1,
            ) is Some),
{
    lemma_first_group1_shape(pats, text, 0);
}

proof fn lemma_first_group1_shape(pats: Seq<Seq<char>>, text: Seq<char>, from: int)
    requires
        0 <= from,
    ensures
        first_group1_from(pats, text, from) matches Some((i, m)) ==> {
            &&& from <= i < pats.len()
            &&& regex_first_captures(pats[i], text) matches Some(c) && group(c, 1) == Some(m)
            &&& forall|j: int| from <= j < i ==> !(regex_first_captures(#[trigger] pats[j], text) matches Some(c)
                && group(c, 1) is Some)
        },
        first_group1_from(pats, text, from) is None ==> forall|j: int|
            from <= j < pats.len() ==> !(regex_first_captures(#[trigger] pats[j], text) matches Some(c) && group(
                c,
                1,
            ) is Some),
    decreases pats.len() - from,
{
    if from < pats.len() {
        lemma_first_group1_shape(pats, text, from + 1);
    }
}

proof fn lemma_first_group1_index(pats: Seq<Seq<char>>, text: Seq<char>, i: int)
    requires
        0 <= i,
    ensures
        first_group1_from(pats, text, i) matches Some((k, _)) ==> i <= k < pats.len(),
    decreases pats.len() - i,
{
    if i < pats.len() {
        lemma_first_group1_index(pats, text, i + 1);
    }
}

/// The target list is the name the first list phrase captures, trimmed:
/// "加到/放到/存到/添加到 name (列表/清单)" at the end of the text, else
/// "列表：name"; the default list when neither phrase is used.
pub proof fn list_follows_list_phrase(text: Seq<char>, default_list: Seq<char>)
    ensures
        list_table() == seq![
            "(?:"@ + alt_spec(seq!["加到"@, "放到"@, "存到"@, "添加到"@]) + ")\\s*([\\S]+?)(?:"@
                + alt_spec(seq!["列表"@, "清单"@]) + ")?$"@,
            "列表[:：]\\s*(\\S+)"@,
        ],
        regex_first_captures(list_table()[0], text) matches Some(c) ==> list_of(text, default_list)
            == match group(c, 1) {
            Some(m) => trim(m),
            None => default_list,
        },
        regex_first_captures(list_table()[0], text) is None ==> list_of(text, default_list)
            == match regex_first_captures(list_table()[1], text) {
            Some(c) => match group(c, 1) {
                Some(m) => trim(m),
                None => default_list,
            },
            None => default_list,
        },
{
    reveal_with_fuel(first_match_from, 3);
}

/// The tags are the words after `#` in the trimmed input (`#(\w+)`), in
/// order; the text the other rules read is the trimmed input with its tags
/// removed.
pub proof fn tags_are_hash_words(input: Seq<char>)
    ensures
        tags_of(input) == present(regex_all_group1("#(\\w+)"@, input)),
        untagged(input) == without_phrase(input, "#(\\w+)"@),
{
}

/// A parse reads the trimmed input: its tags from the whole of it, and
/// everything else from the text without the tags: the alert time, then the
/// due date, the title, the priority, the urgency, the recurrence and the
/// list; it never sets a start date or a place.
pub proof fn parse_reads_each_field(input: Seq<char>, default_list: Seq<char>, now: LocalDateTime)
    ensures
        ({
            let text = untagged(trim(input));
            match parse_spec(input, default_list, now) {
                Ok(p) => {
                    &&& advance_of(text) == Ok::<Seq<i32>, ParseError>(p.reminder_minutes)
                    &&& due_date_of(text, now) == Ok::<Option<LocalDateTime>, ParseError>(p.due_date)
                    &&& p.title == title_of(text)
                    &&& p.priority == priority_of(text)
                    &&& p.is_urgent == urgent_of(text)
                    &&& p.recurrence == recurrence_of(text)
                    &&& p.list == list_of(text, default_list)
                    &&& p.tags == tags_of(trim(input))
                    &&& p.start_date is None && p.location is None
                },
                Err(e) => advance_of(text) == Err::<Seq<i32>, ParseError>(e) || (advance_of(text) is Ok
                    && due_date_of(text, now) == Err::<Option<LocalDateTime>, ParseError>(e)),
            }
        }),
{
}

// ---------------------------------------------------------------------------
// Laws of the date phrases
// ---------------------------------------------------------------------------

/// The weekday characters: 一 Monday to 六 Saturday, 日 and 天 Sunday.
pub proof fn weekday_characters()
    ensures
        weekday_of("一"@) == Weekday::Mon,
        weekday_of("二"@) == Weekday::Tue,
        weekday_of("三"@) == Weekday::Wed,
        weekday_of("四"@) == Weekday::Thu,
        weekday_of("五"@) == Weekday::Fri,
        weekday_of("六"@) == Weekday::Sat,
        weekday_of("日"@) == Weekday::Sun,
        weekday_of("天"@) == Weekday::Sun,
{
    reveal_strlit("一");
    assert("一"@ =~= seq!['一']);
    reveal_strlit("二");
    assert("二"@ =~= seq!['二']);
    reveal_strlit("三");
    assert("三"@ =~= seq!['三']);
    reveal_strlit("四");
    assert("四"@ =~= seq!['四']);
    reveal_strlit("五");
    assert("五"@ =~= seq!['五']);
    reveal_strlit("六");
    assert("六"@ =~= seq!['六']);
    reveal_strlit("日");
    assert("日"@ =~= seq!['日']);
    reveal_strlit("天");
    assert("天"@ =~= seq!['天']);
    lemma_one_char_contains('一', '一');
    lemma_one_char_contains('一', '二');
    lemma_one_char_contains('一', '三');
    lemma_one_char_contains('一', '四');
    lemma_one_char_contains('一', '五');
    lemma_one_char_contains('一', '六');
    lemma_one_char_contains('一', '日');
    lemma_one_char_contains('一', '天');
    lemma_one_char_contains('二', '一');
    lemma_one_char_contains('二', '二');
    lemma_one_char_contains('二', '三');
    lemma_one_char_contains('二', '四');
    lemma_one_char_contains('二', '五');
    lemma_one_char_contains('二', '六');
    lemma_one_char_contains('二', '日');
    lemma_one_char_contains('二', '天');
    lemma_one_char_contains('三', '一');
    lemma_one_char_contains('三', '二');
    lemma_one_char_contains('三', '三');
    lemma_one_char_contains('三', '四');
    lemma_one_char_contains('三', '五');
    lemma_one_char_contains('三', '六');
    lemma_one_char_contains('三', '日');
    lemma_one_char_contains('三', '天');
    lemma_one_char_contains('四', '一');
    lemma_one_char_contains('四', '二');
    lemma_one_char_contains('四', '三');
    lemma_one_char_contains('四', '四');
    lemma_one_char_contains('四', '五');
    lemma_one_char_contains('四', '六');
    lemma_one_char_contains('四', '日');
    lemma_one_char_contains('四', '天');
    lemma_one_char_contains('五', '一');
    lemma_one_char_contains('五', '二');
    lemma_one_char_contains('五', '三');
    lemma_one_char_contains('五', '四');
    lemma_one_char_contains('五', '五');
    lemma_one_char_contains('五', '六');
    lemma_one_char_contains('五', '日');
    lemma_one_char_contains('五', '天');
    lemma_one_char_contains('六', '一');
    lemma_one_char_contains('六', '二');
    lemma_one_char_contains('六', '三');
    lemma_one_char_contains('六', '四');
    lemma_one_char_contains('六', '五');
    lemma_one_char_contains('六', '六');
    lemma_one_char_contains('六', '日');
    lemma_one_char_contains('六', '天');
    lemma_one_char_contains('日', '一');
    lemma_one_char_contains('日', '二');
    lemma_one_char_contains('日', '三');
    lemma_one_char_contains('日', '四');
    lemma_one_char_contains('日', '五');
    lemma_one_char_contains('日', '六');
    lemma_one_char_contains('日', '日');
    lemma_one_char_contains('日', '天');
    lemma_one_char_contains('天', '一');
    lemma_one_char_contains('天', '二');
    lemma_one_char_contains('天', '三');
    lemma_one_char_contains('天', '四');
    lemma_one_char_contains('天', '五');
    lemma_one_char_contains('天', '六');
    lemma_one_char_contains('天', '日');
    lemma_one_char_contains('天', '天');
}

proof fn lemma_one_char_contains(a: char, b: char)
    ensures
        contains_seq(seq![a], seq![b]) == (a == b),
{
    if a == b {
        assert(seq![a].subrange(0, 1) =~= seq![b]);
        assert(crate::text::occurs_at(seq![a], seq![b], 0));
    } else if contains_seq(seq![a], seq![b]) {
        let i = choose|i: int| crate::text::occurs_at(seq![a], seq![b], i);
        assert(i == 0);
        assert(seq![a].subrange(0, 1)[0] == a);
    }
}

/// 周X and 下周X count days from today to that weekday: 周X is the next such
/// day within a week (a week ahead when today is X), 下周X a week after it.
pub proof fn weekday_phrase_days(day: Seq<char>, now: LocalDateTime)
    ensures
        1 <= days_until(day, now) <= 7,
        (weekday_number(now.year as int, now.month as int, now.day as int) + days_until(day, now))
            % 7 == weekday_index(weekday_of(day)),
{
    let current = weekday_number(now.year as int, now.month as int, now.day as int);
    assert(0 <= current < 7);
}

/// What each date and time phrase tells, read at `now` from its captured
/// groups: 今天/明天/后天 are 0, 1 and 2 days ahead; "n天后" n days ahead;
/// "n小时后" the moment n hours after now; "y-m-d" and "m-d" (this year)
/// that day at 09:00 when it exists; "h:m", "h点m", "h点m分" that clock time
/// when it exists; a part of the day its part.
pub proof fn date_phrases_tell(c: DateTimeClues, caps: Seq<Option<Seq<char>>>, now: LocalDateTime)
    ensures
        clue_step(c, TimeKind::Today, caps, now) == Ok::<DateTimeClues, ParseError>(
            DateTimeClues { day_offset: Some(0), ..c },
        ),
        clue_step(c, TimeKind::Tomorrow, caps, now) == Ok::<DateTimeClues, ParseError>(
            DateTimeClues { day_offset: Some(1), ..c },
        ),
        clue_step(c, TimeKind::DayAfterTomorrow, caps, now) == Ok::<DateTimeClues, ParseError>(
            DateTimeClues { day_offset: Some(2), ..c },
        ),
        group(caps, 1) matches Some(n) ==> clue_step(c, TimeKind::DaysFromNow, caps, now) == Ok::<
            DateTimeClues,
            ParseError,
        >(DateTimeClues { day_offset: Some(i32_or(n, 0)), ..c }),
        group(caps, 1) matches Some(n) ==> clue_step(c, TimeKind::HoursFromNow, caps, now) == match chrono_shift_seconds(
            now,
            (i32_or(n, 0) * 3600) as i64,
        ) {
            Some(x) => Ok::<DateTimeClues, ParseError>(DateTimeClues { explicit_date: Some(x), ..c }),
            None => Err(ParseError::DateOutOfRange),
        },
        (group(caps, 1) matches Some(y) && (group(caps, 2) matches Some(m) && (group(caps, 3) matches Some(d)
            && calendar_date(i32_or(y, now.year) as int, u32_or(m, 1) as int, u32_or(d, 1) as int))))
            ==> clue_step(c, TimeKind::DateYmd, caps, now) == Ok::<DateTimeClues, ParseError>(
            DateTimeClues {
                explicit_date: Some(
                    LocalDateTime {
                        year: i32_or(group(caps, 1)->0, now.year),
                        month: u32_or(group(caps, 2)->0, 1),
                        day: u32_or(group(caps, 3)->0, 1),
                        hour: 9,
                        minute: 0,
                        second: 0,
                    },
                ),
                ..c
            },
        ),
        (group(caps, 1) matches Some(m) && (group(caps, 2) matches Some(d) && calendar_date(
            now.year as int,
            u32_or(m, 1) as int,
            u32_or(d, 1) as int,
        ))) ==> clue_step(c, TimeKind::DateMd, caps, now) == Ok::<DateTimeClues, ParseError>(
            DateTimeClues {
                explicit_date: Some(
                    LocalDateTime {
                        year: now.year,
                        month: u32_or(group(caps, 1)->0, 1),
                        day: u32_or(group(caps, 2)->0, 1),
                        hour: 9,
                        minute: 0,
                        second: 0,
                    },
                ),
                ..c
            },
        ),
        (group(caps, 1) matches Some(h) && (group(caps, 2) matches Some(m) && u32_or(h, 9) < 24 && u32_or(
            m,
            0,
        ) < 60)) ==> clue_step(c, TimeKind::TimeHm, caps, now) == Ok::<DateTimeClues, ParseError>(
            DateTimeClues { time: Some((u32_or(group(caps, 1)->0, 9), u32_or(group(caps, 2)->0, 0))), ..c },
        ),
        group(caps, 1) matches Some(w) ==> clue_step(c, TimeKind::ThisWeek, caps, now) == Ok::<
            DateTimeClues,
            ParseError,
        >(DateTimeClues { day_offset: Some(days_until(w, now)), ..c }),
        group(caps, 1) matches Some(w) ==> clue_step(c, TimeKind::NextWeek, caps, now) == Ok::<
            DateTimeClues,
            ParseError,
        >(DateTimeClues { day_offset: Some((days_until(w, now) + 7) as i32), ..c }),
        (group(caps, 1) matches Some(h) && (group(caps, 2) matches Some(m) && u32_or(h, 9) < 24 && u32_or(
            m,
            0,
        ) < 60)) ==> clue_step(c, TimeKind::TimeHCnM, caps, now) == Ok::<DateTimeClues, ParseError>(
            DateTimeClues { time: Some((u32_or(group(caps, 1)->0, 9), u32_or(group(caps, 2)->0, 0))), ..c },
        ),
        (group(caps, 1) matches Some(h) && (group(caps, 2) matches Some(m) && u32_or(h, 9) < 24 && u32_or(
            m,
            0,
        ) < 60)) ==> clue_step(c, TimeKind::TimeHmCn, caps, now) == Ok::<DateTimeClues, ParseError>(
            DateTimeClues { time: Some((u32_or(group(caps, 1)->0, 9), u32_or(group(caps, 2)->0, 0))), ..c },
        ),
        clue_step(c, TimeKind::Morning, caps, now) == Ok::<DateTimeClues, ParseError>(
            DateTimeClues { period: Some(DayPeriod::Morning), ..c },
        ),
        clue_step(c, TimeKind::Forenoon, caps, now) == Ok::<DateTimeClues, ParseError>(
            DateTimeClues { period: Some(DayPeriod::Forenoon), ..c },
        ),
        clue_step(c, TimeKind::Afternoon, caps, now) == Ok::<DateTimeClues, ParseError>(
            DateTimeClues { period: Some(DayPeriod::Afternoon), ..c },
        ),
        clue_step(c, TimeKind::Evening, caps, now) == Ok::<DateTimeClues, ParseError>(
            DateTimeClues { period: Some(DayPeriod::Evening), ..c },
        ),
        clue_step(c, TimeKind::Noon, caps, now) == Ok::<DateTimeClues, ParseError>(
            DateTimeClues { period: Some(DayPeriod::Noon), ..c },
        ),
        clue_step(c, TimeKind::EarlyMorning, caps, now) == Ok::<DateTimeClues, ParseError>(
            DateTimeClues { period: Some(DayPeriod::EarlyMorning), ..c },
        ),
{
}

/// The date and time phrases and the order they are read in: the day
/// words, 下周X, 周X, n天后, n小时后, y-m-d, m-d, h:m, h点, h点m, h点m分, then
/// the parts of the day.
pub proof fn date_phrase_order()
    ensures
        time_table().len() == 19,
        time_table()[0] == (escaped_alternatives(seq!["明天"@, "明日"@]), TimeKind::Tomorrow),
        time_table()[1] == (escaped_alternatives(seq!["后天"@, "後天"@]), TimeKind::DayAfterTomorrow),
        time_table()[2] == (escaped_alternatives(seq!["今天"@, "今日"@]), TimeKind::Today),
        time_table()[3].1 == TimeKind::NextWeek,
        time_table()[4].1 == TimeKind::ThisWeek,
        time_table()[5].1 == TimeKind::DaysFromNow,
        time_table()[6].1 == TimeKind::HoursFromNow,
        time_table()[7] == ("(\\d{4})[-/.](\\d{1,2})[-/.](\\d{1,2})"@, TimeKind::DateYmd),
        time_table()[8] == ("(\\d{1,2})[-/.](\\d{1,2})"@, TimeKind::DateMd),
        time_table()[9] == ("(\\d{1,2}):(\\d{2})"@, TimeKind::TimeHm),
        time_table()[10].1 == TimeKind::TimeH,
        time_table()[11] == ("(\\d{1,2})点(\\d{1,2})"@, TimeKind::TimeHCnM),
        time_table()[12] == ("(\\d{1,2})点(\\d{1,2})分"@, TimeKind::TimeHmCn),
        time_table()[13] == (escaped_alternatives(seq!["早上"@, "早晨"@]), TimeKind::Morning),
        time_table()[14] == (escaped_alternatives(seq!["上午"@]), TimeKind::Forenoon),
        time_table()[15] == (escaped_alternatives(seq!["下午"@]), TimeKind::Afternoon),
        time_table()[16] == (escaped_alternatives(seq!["晚上"@, "晚间"@]), TimeKind::Evening),
        time_table()[17] == (escaped_alternatives(seq!["中午"@]), TimeKind::Noon),
        time_table()[18] == (escaped_alternatives(seq!["凌晨"@]), TimeKind::EarlyMorning),
{
}

/// Every `#word` the tag regex finds becomes a tag, in the order found: when
/// every match has its word, the tags are those words one for one.
pub proof fn every_found_tag_is_kept(v: Seq<Option<Seq<char>>>)
    ensures
        present(v).len() <= v.len(),
        (forall|i: int| 0 <= i < v.len() ==> #[trigger] v[i] is Some) ==> {
            &&& present(v).len() == v.len()
            &&& forall|i: int| 0 <= i < v.len() ==> #[trigger] present(v)[i] == v[i]->0
        },
    decreases v.len(),
{
    if v.len() > 0 {
        every_found_tag_is_kept(v.drop_last());
        if forall|i: int| 0 <= i < v.len() ==> #[trigger] v[i] is Some {
            assert forall|i: int| 0 <= i < v.drop_last().len() implies #[trigger] v.drop_last()[i] is Some by {
                assert(v.drop_last()[i] == v[i]);
            }
            assert(v[v.len() - 1] is Some);
            assert forall|i: int| 0 <= i < v.len() implies #[trigger] present(v)[i] == v[i]->0 by {
                if i < v.len() - 1 {
                    assert(v.drop_last()[i] == v[i]);
                }
            }
        }
    }
}

/// The date and time phrases are read one after another, none skipped: a
/// phrase that matches updates what the earlier ones told (a later one of
/// the same sort wins), a phrase that does not match changes nothing, and
/// an error stops the reading.
pub proof fn date_phrases_read_in_turn(text: Seq<char>, now: LocalDateTime)
    ensures
        clues_after(text, now, 0) == Ok::<DateTimeClues, ParseError>(
            DateTimeClues { day_offset: None, explicit_date: None, time: None, period: None },
        ),
        forall|k: int|
            0 <= k < time_table().len() ==> #[trigger] clues_after(text, now, (k + 1) as nat) == match clues_after(
                text,
                now,
                k as nat,
            ) {
                Err(e) => Err(e),
                Ok(c) => match regex_first_captures(time_table()[k].0, text) {
                    Some(caps) => clue_step(c, time_table()[k].1, caps, now),
                    None => Ok(c),
                },
            },
{
    assert forall|k: int|
        0 <= k < time_table().len() implies #[trigger] clues_after(text, now, (k + 1) as nat) == match clues_after(
        text,
        now,
        k as nat,
    ) {
        Err(e) => Err(e),
        Ok(c) => match regex_first_captures(time_table()[k].0, text) {
            Some(caps) => clue_step(c, time_table()[k].1, caps, now),
            None => Ok(c),
        },
    } by {
        assert(((k + 1) as nat) - 1 == k);
    }
}

/// The due date the clues settle on: none when they tell neither a date, a
/// day nor a time of day; a date given outright, at the settled time of day
/// when there is one; else today at 09:00 moved by the days ahead, at the
/// settled time of day when there is one.
pub proof fn due_date_from_clues(c: DateTimeClues, now: LocalDateTime)
    ensures
        c.explicit_date is None && c.day_offset is None && settled_time(c) is None ==> resolve_clues(c, now)
            == Ok::<Option<LocalDateTime>, ParseError>(None),
        c.explicit_date matches Some(d) ==> resolve_clues(c, now) == Ok::<Option<LocalDateTime>, ParseError>(
            Some(
                match settled_time(c) {
                    Some(t) => d.spec_on_day_at(t.0, t.1),
                    None => d,
                },
            ),
        ),
        c.explicit_date is None && (c.day_offset is Some || settled_time(c) is Some) ==> resolve_clues(c, now)
            == match chrono_shift_seconds(
            now.spec_on_day_at(9, 0),
            (match c.day_offset {
                Some(o) => o,
                None => 0i32,
            } * 86400) as i64,
        ) {
            None => Err(ParseError::DateOutOfRange),
            Some(b) => Ok(
                Some(
                    match settled_time(c) {
                        Some(t) => b.spec_on_day_at(t.0, t.1),
                        None => b,
                    },
                ),
            ),
        },
{
}

/// Trimming removes whitespace from both ends and nothing else: the result
/// is a piece of the text, everything cut off before and after it is
/// whitespace (spaces, tabs, line breaks, the ideographic space among them),
/// and the piece neither starts nor ends with whitespace.
pub proof fn trim_cuts_only_outer_whitespace(s: Seq<char>)
    ensures
        crate::text::is_ws(' ') && crate::text::is_ws('\t') && crate::text::is_ws('\n')
            && crate::text::is_ws('\r') && crate::text::is_ws('\u{3000}'),
        !crate::text::is_ws('a') && !crate::text::is_ws('0') && !crate::text::is_ws('#'),
        exists|a: int|
            0 <= a && a + trim(s).len() <= s.len() && #[trigger] s.subrange(a, a + trim(s).len()) == trim(s)
                && (forall|i: int| 0 <= i < a ==> crate::text::is_ws(#[trigger] s[i])) && (forall|i: int|
                a + trim(s).len() <= i < s.len() ==> crate::text::is_ws(#[trigger] s[i])),
        trim(s).len() > 0 ==> !crate::text::is_ws(trim(s)[0]) && !crate::text::is_ws(trim(s).last()),
{
    trimmed_has_no_outer_whitespace(s);
    let t0 = trim_start(s);
    lemma_trim_start_shape(s);
    lemma_trim_end_shape(t0);
    lemma_trim_start_cut(s);
    lemma_trim_end_cut(t0);
    let a = s.len() - t0.len();
    let t = trim(s);
    assert(s.subrange(a, a + t.len()) =~= t);
    assert forall|i: int| a + t.len() <= i < s.len() implies crate::text::is_ws(#[trigger] s[i]) by {
        assert(s[i] == t0[i - a]);
    }
}

proof fn lemma_trim_start_cut(s: Seq<char>)
    ensures
        forall|i: int| 0 <= i < s.len() - trim_start(s).len() ==> crate::text::is_ws(#[trigger] s[i]),
    decreases s.len(),
{
    if s.len() > 0 && crate::text::is_ws(s[0]) {
        lemma_trim_start_cut(s.drop_first());
        assert forall|i: int| 0 <= i < s.len() - trim_start(s).len() implies crate::text::is_ws(
            #[trigger] s[i],
        ) by {
            if i > 0 {
                assert(s[i] == s.drop_first()[i - 1]);
            }
        }
    }
}

proof fn lemma_trim_end_cut(s: Seq<char>)
    ensures
        forall|i: int| trim_end(s).len() <= i < s.len() ==> crate::text::is_ws(#[trigger] s[i]),
    decreases s.len(),
{
    if s.len() > 0 && crate::text::is_ws(s.last()) {
        lemma_trim_end_cut(s.drop_last());
        assert forall|i: int| trim_end(s).len() <= i < s.len() implies crate::text::is_ws(#[trigger] s[i]) by {
            if i < s.len() - 1 {
                assert(s[i] == s.drop_last()[i]);
            }
        }
    }
}

} // verus!
