//! The Chinese phrases the rule-based parser recognises, as regular
//! expressions built from keyword lists.
use vstd::prelude::*;
use crate::cors::{Recurrence, SpecRecurrence};
use crate::parser::matching::{
    alt_spec, escape_spec, escaped_alternatives, push_alt, push_escaped, regex_from_strs,
    str_views, strs_to_alt,
};
use crate::text::{join_seqs, join_strings, owned, push_str_chars, string_from_chars, views};

verus! {

/// What a date/time phrase tells.
#[derive(Clone, Copy, Debug, PartialEq, Eq, Structural)]
pub enum TimeKind {
    Tomorrow,
    DayAfterTomorrow,
    Today,
    NextWeek,
    ThisWeek,
    DaysFromNow,
    HoursFromNow,
    DateYmd,
    DateMd,
    TimeHm,
    TimeH,
    TimeHCnM,
    TimeHmCn,
    Morning,
    Forenoon,
    Afternoon,
    Evening,
    Noon,
    EarlyMorning,
}

/// The unit of an advance-notice phrase.
#[derive(Clone, Copy, Debug, PartialEq, Eq, Structural)]
pub enum AdvanceUnit {
    Minutes,
    Hours,
    Days,
}

/// `capture` followed by the alternation of `suffixes`.
pub open spec fn suffix_pattern(suffixes: Seq<Seq<char>>, capture: Seq<char>) -> Seq<char> {
    capture + alt_spec(suffixes)
}

pub fn build_suffix_pattern(suffixes: &[&str], capture: &str) -> (r: String)
    ensures
        r@ == suffix_pattern(str_views(suffixes@), capture@),
{
    let mut out: Vec<char> = Vec::new();
    push_str_chars(&mut out, capture);
    push_alt(&mut out, suffixes);
    string_from_chars(&out)
}

/// A number followed by the hour marker.
pub open spec fn hour_pattern(marker: Seq<char>) -> Seq<char> {
    "(\\d+)"@ + escape_spec(marker)
}

pub fn build_hour_pattern(hour_marker: &str) -> (r: String)
    ensures
        r@ == hour_pattern(hour_marker@),
{
    let mut out: Vec<char> = Vec::new();
    push_str_chars(&mut out, "(\\d+)");
    push_escaped(&mut out, hour_marker);
    string_from_chars(&out)
}

/// The day names of a weekday table, in order.
pub open spec fn weekday_names(w: Seq<(&str, &[&str])>) -> Seq<Seq<char>>
    decreases w.len(),
{
    if w.len() == 0 {
        seq![]
    } else {
        weekday_names(w.drop_last()) + str_views(w.last().1@)
    }
}

/// All day names of a weekday table as owned strings.
fn all_day_names(weekdays: &[(&str, &[&str])]) -> (r: Vec<String>)
    ensures
        views(r@) == weekday_names(weekdays@),
{
    let mut out: Vec<String> = Vec::new();
    let mut i: usize = 0;
    while i < weekdays.len()
        invariant
            i <= weekdays@.len(),
            views(out@) == weekday_names(weekdays@.take(i as int)),
        decreases weekdays.len() - i,
    {
        let days = weekdays[i].1;
        let ghost before = out@;
        let mut k: usize = 0;
        while k < days.len()
            invariant
                i < weekdays@.len(),
                k <= days@.len(),
                days@ == weekdays@[i as int].1@,
                views(out@) == views(before) + str_views(days@).take(k as int),
            decreases days.len() - k,
        {
            let name = owned(days[k]);
            let ghost prev = out@;
            out.push(name);
            proof {
                assert(views(out@) =~= views(prev).push(name@));
                assert(str_views(days@).take(k + 1) =~= str_views(days@).take(k as int).push(
                    days@[k as int]@,
                ));
            }
            k = k + 1;
        }
        proof {
            let t = weekdays@.take(i + 1);
            assert(t.drop_last() =~= weekdays@.take(i as int));
            assert(str_views(days@).take(days@.len() as int) =~= str_views(days@));
        }
        i = i + 1;
    }
    assert(weekdays@.take(weekdays@.len() as int) =~= weekdays@);
    out
}

/// A prefix followed by one day character, the day captured.
pub open spec fn next_week_pattern(prefixes: Seq<Seq<char>>, days: Seq<Seq<char>>) -> Seq<char> {
    "(?:"@ + alt_spec(prefixes) + ")(["@ + join_seqs(days, "|"@) + "])"@
}

pub fn build_next_week_pattern(prefixes: &[&str], weekdays: &[(&str, &[&str])]) -> (r: String)
    ensures
        r@ == next_week_pattern(str_views(prefixes@), weekday_names(weekdays@)),
{
    let days = all_day_names(weekdays);
    let joined = join_strings(days.as_slice(), "|");
    let mut out: Vec<char> = Vec::new();
    push_str_chars(&mut out, "(?:");
    push_alt(&mut out, prefixes);
    push_str_chars(&mut out, ")([");
    push_str_chars(&mut out, joined.as_str());
    push_str_chars(&mut out, "])");
    string_from_chars(&out)
}

/// A prefix followed by one day character, nothing captured.
pub open spec fn this_week_pattern(prefixes: Seq<Seq<char>>, days: Seq<Seq<char>>) -> Seq<char> {
    "(?:"@ + alt_spec(prefixes) + "["@ + join_seqs(days, "|"@) + "])"@
}

pub fn build_this_week_pattern(prefixes: &[&str], weekdays: &[(&str, &[&str])]) -> (r: String)
    ensures
        r@ == this_week_pattern(str_views(prefixes@), weekday_names(weekdays@)),
{
    let days = all_day_names(weekdays);
    let joined = join_strings(days.as_slice(), "|");
    let mut out: Vec<char> = Vec::new();
    push_str_chars(&mut out, "(?:");
    push_alt(&mut out, prefixes);
    push_str_chars(&mut out, "[");
    push_str_chars(&mut out, joined.as_str());
    push_str_chars(&mut out, "])");
    string_from_chars(&out)
}

// ---------------------------------------------------------------------------
// Recurrence phrases
// ---------------------------------------------------------------------------

/// The recurrence phrases, in the order they are tried.
pub open spec fn recurrence_table() -> Seq<(Seq<char>, SpecRecurrence)> {
    seq![
        (escaped_alternatives(seq!["每天"@, "每日"@]), SpecRecurrence::Daily),
        (escaped_alternatives(seq!["每周"@, "每星期"@]), SpecRecurrence::Weekly),
        (escaped_alternatives(seq!["每月"@, "每个月"@]), SpecRecurrence::Monthly),
        (escaped_alternatives(seq!["每年"@]), SpecRecurrence::Yearly),
        (escaped_alternatives(seq!["每个工作日"@, "工作日"@]), SpecRecurrence::Weekdays),
        (escaped_alternatives(seq!["每个周末"@, "周末"@]), SpecRecurrence::Weekends),
    ]
}

pub open spec fn pattern_views<K>(v: Seq<(String, K)>) -> Seq<(Seq<char>, K)> {
    v.map_values(|p: (String, K)| (p.0@, p.1))
}

pub open spec fn recurrence_views(v: Seq<(String, Recurrence)>) -> Seq<(Seq<char>, SpecRecurrence)> {
    v.map_values(|p: (String, Recurrence)| (p.0@, p.1@))
}

pub fn recurrence_patterns() -> (r: Vec<(String, Recurrence)>)
    ensures
        recurrence_views(r@) == recurrence_table(),
{
    let mut v: Vec<(String, Recurrence)> = Vec::new();
    let a: &[&str] = &["每天", "每日"];
    assert(str_views(a@) =~= seq!["每天"@, "每日"@]);
    v.push((regex_from_strs(a), Recurrence::Daily));
    let a: &[&str] = &["每周", "每星期"];
    assert(str_views(a@) =~= seq!["每周"@, "每星期"@]);
    v.push((regex_from_strs(a), Recurrence::Weekly));
    let a: &[&str] = &["每月", "每个月"];
    assert(str_views(a@) =~= seq!["每月"@, "每个月"@]);
    v.push((regex_from_strs(a), Recurrence::Monthly));
    let a: &[&str] = &["每年"];
    assert(str_views(a@) =~= seq!["每年"@]);
    v.push((regex_from_strs(a), Recurrence::Yearly));
    let a: &[&str] = &["每个工作日", "工作日"];
    assert(str_views(a@) =~= seq!["每个工作日"@, "工作日"@]);
    v.push((regex_from_strs(a), Recurrence::Weekdays));
    let a: &[&str] = &["每个周末", "周末"];
    assert(str_views(a@) =~= seq!["每个周末"@, "周末"@]);
    v.push((regex_from_strs(a), Recurrence::Weekends));
    assert(recurrence_views(v@) =~= recurrence_table());
    v
}

// ---------------------------------------------------------------------------
// Date and time phrases
// ---------------------------------------------------------------------------

/// The characters that name a weekday after 周 or 下周.
pub open spec fn weekday_chars() -> Seq<Seq<char>> {
    seq!["一"@, "二"@, "三"@, "四"@, "五"@, "六"@, "日"@, "天"@]
}

/// The date and time phrases, in the order they are tried.
pub open spec fn time_table() -> Seq<(Seq<char>, TimeKind)> {
    seq![
        (escaped_alternatives(seq!["明天"@, "明日"@]), TimeKind::Tomorrow),
        (escaped_alternatives(seq!["后天"@, "後天"@]), TimeKind::DayAfterTomorrow),
        (escaped_alternatives(seq!["今天"@, "今日"@]), TimeKind::Today),
        (next_week_pattern(seq!["下周"@], weekday_chars()), TimeKind::NextWeek),
        (this_week_pattern(seq!["周"@], weekday_chars()), TimeKind::ThisWeek),
        (suffix_pattern(seq!["天后"@], "(\\d+)"@), TimeKind::DaysFromNow),
        (suffix_pattern(seq!["小时后"@], "(\\d+)"@), TimeKind::HoursFromNow),
        ("(\\d{4})[-/.](\\d{1,2})[-/.](\\d{1,2})"@, TimeKind::DateYmd),
        ("(\\d{1,2})[-/.](\\d{1,2})"@, TimeKind::DateMd),
        ("(\\d{1,2}):(\\d{2})"@, TimeKind::TimeHm),
        (hour_pattern("点"@), TimeKind::TimeH),
        ("(\\d{1,2})点(\\d{1,2})"@, TimeKind::TimeHCnM),
        ("(\\d{1,2})点(\\d{1,2})分"@, TimeKind::TimeHmCn),
        (escaped_alternatives(seq!["早上"@, "早晨"@]), TimeKind::Morning),
        (escaped_alternatives(seq!["上午"@]), TimeKind::Forenoon),
        (escaped_alternatives(seq!["下午"@]), TimeKind::Afternoon),
        (escaped_alternatives(seq!["晚上"@, "晚间"@]), TimeKind::Evening),
        (escaped_alternatives(seq!["中午"@]), TimeKind::Noon),
        (escaped_alternatives(seq!["凌晨"@]), TimeKind::EarlyMorning),
    ]
}

fn push_kw(v: &mut Vec<(String, TimeKind)>, strings: &[&str], kind: TimeKind)
    ensures
        pattern_views(final(v)@) == pattern_views(old(v)@).push(
            (escaped_alternatives(str_views(strings@)), kind),
        ),
{
    let p = regex_from_strs(strings);
    v.push((p, kind));
    assert(pattern_views(v@) =~= pattern_views(old(v)@).push(
        (escaped_alternatives(str_views(strings@)), kind),
    ));
}

fn push_raw(v: &mut Vec<(String, TimeKind)>, pattern: &str, kind: TimeKind)
    ensures
        pattern_views(final(v)@) == pattern_views(old(v)@).push((pattern@, kind)),
{
    v.push((owned(pattern), kind));
    assert(pattern_views(v@) =~= pattern_views(old(v)@).push((pattern@, kind)));
}

fn push_built(v: &mut Vec<(String, TimeKind)>, pattern: String, kind: TimeKind)
    ensures
        pattern_views(final(v)@) == pattern_views(old(v)@).push((pattern@, kind)),
{
    let ghost pv = pattern@;
    v.push((pattern, kind));
    assert(pattern_views(v@) =~= pattern_views(old(v)@).push((pv, kind)));
}

pub fn time_patterns() -> (r: Vec<(String, TimeKind)>)
    ensures
        pattern_views(r@) == time_table(),
{
    let weekdays: &[(&str, &[&str])] = &[
        ("mon", &["一"]),
        ("tue", &["二"]),
        ("wed", &["三"]),
        ("thu", &["四"]),
        ("fri", &["五"]),
        ("sat", &["六"]),
        ("sun", &["日", "天"]),
    ];
    proof {
        reveal_with_fuel(weekday_names, 8);
        assert(weekday_names(weekdays@) =~= weekday_chars());
    }
    let mut v: Vec<(String, TimeKind)> = Vec::new();
    let a: &[&str] = &["明天", "明日"];
    assert(str_views(a@) =~= seq!["明天"@, "明日"@]);
    push_kw(&mut v, a, TimeKind::Tomorrow);
    let a: &[&str] = &["后天", "後天"];
    assert(str_views(a@) =~= seq!["后天"@, "後天"@]);
    push_kw(&mut v, a, TimeKind::DayAfterTomorrow);
    let a: &[&str] = &["今天", "今日"];
    assert(str_views(a@) =~= seq!["今天"@, "今日"@]);
    push_kw(&mut v, a, TimeKind::Today);
    let a: &[&str] = &["下周"];
    assert(str_views(a@) =~= seq!["下周"@]);
    push_built(&mut v, build_next_week_pattern(a, weekdays), TimeKind::NextWeek);
    let a: &[&str] = &["周"];
    assert(str_views(a@) =~= seq!["周"@]);
    push_built(&mut v, build_this_week_pattern(a, weekdays), TimeKind::ThisWeek);
    let a: &[&str] = &["天后"];
    assert(str_views(a@) =~= seq!["天后"@]);
    push_built(&mut v, build_suffix_pattern(a, "(\\d+)"), TimeKind::DaysFromNow);
    let a: &[&str] = &["小时后"];
    assert(str_views(a@) =~= seq!["小时后"@]);
    push_built(&mut v, build_suffix_pattern(a, "(\\d+)"), TimeKind::HoursFromNow);
    push_raw(&mut v, "(\\d{4})[-/.](\\d{1,2})[-/.](\\d{1,2})", TimeKind::DateYmd);
    push_raw(&mut v, "(\\d{1,2})[-/.](\\d{1,2})", TimeKind::DateMd);
    push_raw(&mut v, "(\\d{1,2}):(\\d{2})", TimeKind::TimeHm);
    push_built(&mut v, build_hour_pattern("点"), TimeKind::TimeH);
    push_raw(&mut v, "(\\d{1,2})点(\\d{1,2})", TimeKind::TimeHCnM);
    push_raw(&mut v, "(\\d{1,2})点(\\d{1,2})分", TimeKind::TimeHmCn);
    let a: &[&str] = &["早上", "早晨"];
    assert(str_views(a@) =~= seq!["早上"@, "早晨"@]);
    push_kw(&mut v, a, TimeKind::Morning);
    let a: &[&str] = &["上午"];
    assert(str_views(a@) =~= seq!["上午"@]);
    push_kw(&mut v, a, TimeKind::Forenoon);
    let a: &[&str] = &["下午"];
    assert(str_views(a@) =~= seq!["下午"@]);
    push_kw(&mut v, a, TimeKind::Afternoon);
    let a: &[&str] = &["晚上", "晚间"];
    assert(str_views(a@) =~= seq!["晚上"@, "晚间"@]);
    push_kw(&mut v, a, TimeKind::Evening);
    let a: &[&str] = &["中午"];
    assert(str_views(a@) =~= seq!["中午"@]);
    push_kw(&mut v, a, TimeKind::Noon);
    let a: &[&str] = &["凌晨"];
    assert(str_views(a@) =~= seq!["凌晨"@]);
    push_kw(&mut v, a, TimeKind::EarlyMorning);
    assert(pattern_views(v@) =~= time_table());
    v
}

// ---------------------------------------------------------------------------
// List, advance-notice and title phrases
// ---------------------------------------------------------------------------

/// The phrases that name a target list, in the order they are tried; group
/// 1 holds the list's name.
pub open spec fn list_table() -> Seq<Seq<char>> {
    seq![
        "(?:"@ + alt_spec(seq!["加到"@, "放到"@, "存到"@, "添加到"@]) + ")\\s*([\\S]+?)(?:"@
            + alt_spec(seq!["列表"@, "清单"@]) + ")?$"@,
        "列表[:：]\\s*(\\S+)"@,
    ]
}

pub fn list_patterns() -> (r: Vec<String>)
    ensures
        views(r@) == list_table(),
{
    let a: &[&str] = &["加到", "放到", "存到", "添加到"];
    assert(str_views(a@) =~= seq!["加到"@, "放到"@, "存到"@, "添加到"@]);
    let b: &[&str] = &["列表", "清单"];
    assert(str_views(b@) =~= seq!["列表"@, "清单"@]);
    let verbs = strs_to_alt(a);
    let suffixes = strs_to_alt(b);
    let mut out: Vec<char> = Vec::new();
    push_str_chars(&mut out, "(?:");
    push_str_chars(&mut out, verbs.as_str());
    push_str_chars(&mut out, ")\\s*([\\S]+?)(?:");
    push_str_chars(&mut out, suffixes.as_str());
    push_str_chars(&mut out, ")?$");
    let first = string_from_chars(&out);
    let mut v: Vec<String> = Vec::new();
    v.push(first);
    v.push(owned("列表[:：]\\s*(\\S+)"));
    assert(views(v@) =~= list_table());
    v
}

/// The advance-notice phrases, in the order they are tried; group 1 holds
/// the amount.
pub open spec fn advance_table() -> Seq<(Seq<char>, AdvanceUnit)> {
    seq![
        ("提前(\\d+)分钟"@, AdvanceUnit::Minutes),
        ("提前(\\d+)小时"@, AdvanceUnit::Hours),
        ("提前(\\d+)天"@, AdvanceUnit::Days),
    ]
}

pub fn reminder_time_patterns() -> (r: Vec<(String, AdvanceUnit)>)
    ensures
        pattern_views(r@) == advance_table(),
{
    let mut v: Vec<(String, AdvanceUnit)> = Vec::new();
    v.push((owned("提前(\\d+)分钟"), AdvanceUnit::Minutes));
    v.push((owned("提前(\\d+)小时"), AdvanceUnit::Hours));
    v.push((owned("提前(\\d+)天"), AdvanceUnit::Days));
    assert(pattern_views(v@) =~= advance_table());
    v
}

/// The phrases removed from the input to leave the title, in order.
pub open spec fn title_table() -> Seq<Seq<char>> {
    seq![
        alt_spec(seq!["明天"@, "明日"@, "后天"@, "今天"@, "今日"@]),
        "下周[一二三四五六日天]|(?:下周)?周[一二三四五六日天]"@,
        "\\d+天后|\\d+小时后"@,
        "\\d{4}[-/.]\\d{1,2}[-/.]\\d{1,2}"@,
        "\\d{1,2}[-/.]\\d{1,2}"@,
        "\\d{1,2}:\\d{2}"@,
        "\\d{1,2}点\\d{1,2}分|\\d{1,2}点\\d{1,2}|\\d{1,2}点"@,
        alt_spec(seq!["早上"@, "早晨"@, "上午"@, "下午"@, "晚上"@, "晚间"@, "中午"@, "凌晨"@]),
        alt_spec(
            seq![
                "每天"@,
                "每日"@,
                "每周"@,
                "每星期"@,
                "每月"@,
                "每个月"@,
                "每年"@,
                "每个工作日"@,
                "工作日"@,
                "每个周末"@,
                "周末"@,
            ],
        ),
        alt_spec(seq!["紧急"@, "马上"@, "立刻"@, "ASAP"@, "asap"@, "火烧眉毛"@, "十万火急"@]),
        alt_spec(seq!["重要"@, "优先"@, "高优先级"@, "不重要"@, "低优先级"@, "有空再做"@]),
        "(?:加到|放到|存到|添加到)\\s*[\\S]+?(?:列表|清单)?"@,
        "列表[:：]\\s*\\S+"@,
        "提前\\d+(?:分钟|小时|天)"@,
        alt_spec(seq!["，"@, "。"@, "！"@, "？"@, ","@, "."@, "!"@, "?"@]),
    ]
}

pub fn title_patterns() -> (r: Vec<String>)
    ensures
        views(r@) == title_table(),
{
    let mut v: Vec<String> = Vec::new();
    let a: &[&str] = &["明天", "明日", "后天", "今天", "今日"];
    assert(str_views(a@) =~= seq!["明天"@, "明日"@, "后天"@, "今天"@, "今日"@]);
    v.push(strs_to_alt(a));
    v.push(owned("下周[一二三四五六日天]|(?:下周)?周[一二三四五六日天]"));
    v.push(owned("\\d+天后|\\d+小时后"));
    v.push(owned("\\d{4}[-/.]\\d{1,2}[-/.]\\d{1,2}"));
    v.push(owned("\\d{1,2}[-/.]\\d{1,2}"));
    v.push(owned("\\d{1,2}:\\d{2}"));
    v.push(owned("\\d{1,2}点\\d{1,2}分|\\d{1,2}点\\d{1,2}|\\d{1,2}点"));
    let a: &[&str] = &["早上", "早晨", "上午", "下午", "晚上", "晚间", "中午", "凌晨"];
    assert(str_views(a@) =~= seq!["早上"@, "早晨"@, "上午"@, "下午"@, "晚上"@, "晚间"@, "中午"@, "凌晨"@]);
    v.push(strs_to_alt(a));
    let a: &[&str] = &[
        "每天",
        "每日",
        "每周",
        "每星期",
        "每月",
        "每个月",
        "每年",
        "每个工作日",
        "工作日",
        "每个周末",
        "周末",
    ];
    assert(str_views(a@) =~= seq![
        "每天"@,
        "每日"@,
        "每周"@,
        "每星期"@,
        "每月"@,
        "每个月"@,
        "每年"@,
        "每个工作日"@,
        "工作日"@,
        "每个周末"@,
        "周末"@,
    ]);
    v.push(strs_to_alt(a));
    let a: &[&str] = &["紧急", "马上", "立刻", "ASAP", "asap", "火烧眉毛", "十万火急"];
    assert(str_views(a@) =~= seq!["紧急"@, "马上"@, "立刻"@, "ASAP"@, "asap"@, "火烧眉毛"@, "十万火急"@]);
    v.push(strs_to_alt(a));
    let a: &[&str] = &["重要", "优先", "高优先级", "不重要", "低优先级", "有空再做"];
    assert(str_views(a@) =~= seq!["重要"@, "优先"@, "高优先级"@, "不重要"@, "低优先级"@, "有空再做"@]);
    v.push(strs_to_alt(a));
    v.push(owned("(?:加到|放到|存到|添加到)\\s*[\\S]+?(?:列表|清单)?"));
    v.push(owned("列表[:：]\\s*\\S+"));
    v.push(owned("提前\\d+(?:分钟|小时|天)"));
    let a: &[&str] = &["，", "。", "！", "？", ",", ".", "!", "?"];
    assert(str_views(a@) =~= seq!["，"@, "。"@, "！"@, "？"@, ","@, "."@, "!"@, "?"@]);
    v.push(strs_to_alt(a));
    assert(views(v@) =~= title_table());
    v
}

// ---------------------------------------------------------------------------
// Keywords
// ---------------------------------------------------------------------------

pub open spec fn high_priority_table() -> Seq<Seq<char>> {
    seq!["重要"@, "优先"@, "高优先级"@, "critical"@, "high priority"@]
}

pub open spec fn low_priority_table() -> Seq<Seq<char>> {
    seq!["不重要"@, "低优先级"@, "有空再做"@, "low priority"@]
}

pub open spec fn urgent_table() -> Seq<Seq<char>> {
    seq!["紧急"@, "急"@, "马上"@, "立刻"@, "ASAP"@, "asap"@, "火烧眉毛"@, "十万火急"@, "urgent"@]
}

/// Words that mark a reminder as important.
pub fn high_priority_keywords() -> (r: &'static [&'static str])
    ensures
        str_views(r@) == high_priority_table(),
{
    let r: &'static [&'static str] = &["重要", "优先", "高优先级", "critical", "high priority"];
    assert(str_views(r@) =~= high_priority_table());
    r
}

/// Words that mark a reminder as unimportant.
pub fn low_priority_keywords() -> (r: &'static [&'static str])
    ensures
        str_views(r@) == low_priority_table(),
{
    let r: &'static [&'static str] = &["不重要", "低优先级", "有空再做", "low priority"];
    assert(str_views(r@) =~= low_priority_table());
    r
}

/// Words that mark a reminder as urgent.
pub fn urgent_keywords() -> (r: &'static [&'static str])
    ensures
        str_views(r@) == urgent_table(),
{
    let r: &'static [&'static str] = &[
        "紧急",
        "急",
        "马上",
        "立刻",
        "ASAP",
        "asap",
        "火烧眉毛",
        "十万火急",
        "urgent",
    ];
    assert(str_views(r@) =~= urgent_table());
    r
}

} // verus!
