//! A reminder as it is filed in a list.
use vstd::prelude::*;
use crate::cors::{location_view, Location, Priority, Recurrence, SpecLocation, SpecRecurrence};
use crate::datetime::{chrono_format_datetime, date_exists, format_datetime, minute_text, LocalDateTime};
use crate::text::{decimal_int, join_seqs, push_int, push_str_chars, str_chars, string_from_chars, views};

verus! {

/// A reminder.
#[derive(Debug, Clone)]
pub struct Reminder {
    /// The title.
    pub title: String,
    /// When it is due.
    pub due_date: Option<LocalDateTime>,
    /// When it starts.
    pub start_date: Option<LocalDateTime>,
    /// Whether it is done.
    pub completed: bool,
    pub priority: Priority,
    pub is_urgent: bool,
    pub recurrence: Recurrence,
    pub location: Option<Location>,
    /// Minutes before the due time at which to alert.
    pub reminder_minutes: Vec<i32>,
    pub tags: Vec<String>,
    /// The list it belongs to.
    pub list: String,
}

/// A `Reminder` with its texts as character sequences.
pub struct SpecReminder {
    pub title: Seq<char>,
    pub due_date: Option<LocalDateTime>,
    pub start_date: Option<LocalDateTime>,
    pub completed: bool,
    pub priority: Priority,
    pub is_urgent: bool,
    pub recurrence: SpecRecurrence,
    pub location: Option<SpecLocation>,
    pub reminder_minutes: Seq<i32>,
    pub tags: Seq<Seq<char>>,
    pub list: Seq<char>,
}

impl View for Reminder {
    type V = SpecReminder;

    open spec fn view(&self) -> SpecReminder {
        SpecReminder {
            title: self.title@,
            due_date: self.due_date,
            start_date: self.start_date,
            completed: self.completed,
            priority: self.priority,
            is_urgent: self.is_urgent,
            recurrence: self.recurrence@,
            location: location_view(self.location),
            reminder_minutes: self.reminder_minutes@,
            tags: views(self.tags@),
            list: self.list@,
        }
    }
}

impl Reminder {
    /// A new reminder with the given title: not done, medium priority, not
    /// urgent, not repeating, alerting at the due time, no tags, no list.
    pub fn new(title: String) -> (r: Reminder)
        ensures
            r@ == (SpecReminder {
                title: title@,
                due_date: None,
                start_date: None,
                completed: false,
                priority: Priority::Medium,
                is_urgent: false,
                recurrence: SpecRecurrence::NoRepeat,
                location: None,
                reminder_minutes: seq![0i32],
                tags: seq![],
                list: seq![],
            }),
    {
        let r = Reminder {
            title,
            due_date: None,
            start_date: None,
            completed: false,
            priority: Priority::Medium,
            is_urgent: false,
            recurrence: Recurrence::NoRepeat,
            location: None,
            reminder_minutes: vec![0],
            tags: Vec::new(),
            list: string_from_chars(&Vec::new()),
        };
        assert(r@.tags =~= seq![]);
        assert(r@.reminder_minutes =~= seq![0i32]);
        r
    }

    /// The same reminder due at `due_date`.
    pub fn with_due_date(self, due_date: Option<LocalDateTime>) -> (r: Reminder)
        ensures
            r@ == (SpecReminder { due_date: due_date, ..self@ }),
    {
        let mut s = self;
        s.due_date = due_date;
        s
    }

    /// The same reminder starting at `start_date`.
    pub fn with_start_date(self, start_date: Option<LocalDateTime>) -> (r: Reminder)
        ensures
            r@ == (SpecReminder { start_date: start_date, ..self@ }),
    {
        let mut s = self;
        s.start_date = start_date;
        s
    }

    /// The same reminder, done or not.
    pub fn with_completed(self, completed: bool) -> (r: Reminder)
        ensures
            r@ == (SpecReminder { completed: completed, ..self@ }),
    {
        let mut s = self;
        s.completed = completed;
        s
    }

    /// The same reminder with another priority.
    pub fn with_priority(self, priority: Priority) -> (r: Reminder)
        ensures
            r@ == (SpecReminder { priority: priority, ..self@ }),
    {
        let mut s = self;
        s.priority = priority;
        s
    }

    /// The same reminder, urgent or not.
    pub fn with_urgent(self, is_urgent: bool) -> (r: Reminder)
        ensures
            r@ == (SpecReminder { is_urgent: is_urgent, ..self@ }),
    {
        let mut s = self;
        s.is_urgent = is_urgent;
        s
    }

    /// The same reminder with another recurrence.
    pub fn with_recurrence(self, recurrence: Recurrence) -> (r: Reminder)
        ensures
            r@ == (SpecReminder { recurrence: recurrence@, ..self@ }),
    {
        let mut s = self;
        s.recurrence = recurrence;
        s
    }

    /// The same reminder with another location.
    pub fn with_location(self, location: Option<Location>) -> (r: Reminder)
        ensures
            r@ == (SpecReminder { location: location_view(location), ..self@ }),
    {
        let mut s = self;
        s.location = location;
        s
    }

    /// The same reminder with other alert times.
    pub fn with_reminder_minutes(self, reminder_minutes: Vec<i32>) -> (r: Reminder)
        ensures
            r@ == (SpecReminder { reminder_minutes: reminder_minutes@, ..self@ }),
    {
        let mut s = self;
        s.reminder_minutes = reminder_minutes;
        s
    }

    /// The same reminder with `tags` added after its own.
    pub fn with_tags(self, tags: Vec<String>) -> (r: Reminder)
        ensures
            r@ == (SpecReminder { tags: self@.tags + views(tags@), ..self@ }),
    {
        let mut s = self;
        let mut more = tags;
        let ghost old_tags = s.tags@;
        let ghost added = more@;
        s.tags.append(&mut more);
        assert(views(s.tags@) =~= views(old_tags) + views(added));
        s
    }

    /// The same reminder in another list.
    pub fn with_list(self, list: String) -> (r: Reminder)
        ensures
            r@ == (SpecReminder { list: list@, ..self@ }),
    {
        let mut s = self;
        s.list = list;
        s
    }
}

// ---------------------------------------------------------------------------
// Display texts
// ---------------------------------------------------------------------------

pub open spec fn priority_name(p: Priority) -> Seq<char> {
    match p {
        Priority::NoPriority => "不重要"@,
        Priority::Low => "低"@,
        Priority::Medium => "中"@,
        Priority::High => "高"@,
    }
}

impl Priority {
    /// The name a reminder shows for this priority.
    pub fn display_name(&self) -> (r: String)
        ensures
            r@ == priority_name(*self),
    {
        let s = match self {
            Priority::NoPriority => "不重要",
            Priority::Low => "低",
            Priority::Medium => "中",
            Priority::High => "高",
        };
        let v = str_chars(s);
        string_from_chars(&v)
    }
}

pub open spec fn recurrence_name(r: SpecRecurrence) -> Seq<char> {
    match r {
        SpecRecurrence::NoRepeat => "不重复"@,
        SpecRecurrence::Daily => "每天"@,
        SpecRecurrence::Weekly => "每周"@,
        SpecRecurrence::Monthly => "每月"@,
        SpecRecurrence::Yearly => "每年"@,
        SpecRecurrence::Weekdays => "工作日"@,
        SpecRecurrence::Weekends => "周末"@,
        SpecRecurrence::Custom(s) => "自定义: "@ + s,
    }
}

impl Recurrence {
    /// The name a reminder shows for this recurrence.
    pub fn display_name(&self) -> (r: String)
        ensures
            r@ == recurrence_name(self@),
    {
        let mut v: Vec<char> = Vec::new();
        match self {
            Recurrence::NoRepeat => push_str_chars(&mut v, "不重复"),
            Recurrence::Daily => push_str_chars(&mut v, "每天"),
            Recurrence::Weekly => push_str_chars(&mut v, "每周"),
            Recurrence::Monthly => push_str_chars(&mut v, "每月"),
            Recurrence::Yearly => push_str_chars(&mut v, "每年"),
            Recurrence::Weekdays => push_str_chars(&mut v, "工作日"),
            Recurrence::Weekends => push_str_chars(&mut v, "周末"),
            Recurrence::Custom(s) => {
                push_str_chars(&mut v, "自定义: ");
                push_str_chars(&mut v, s.as_str());
            },
        }
        string_from_chars(&v)
    }
}

/// The format in which reminders show a date and time.
pub open spec fn minute_format() -> Seq<char> {
    "%Y-%m-%d %H:%M"@
}

/// A date and time to the minute, as chrono writes it under
/// `%Y-%m-%d %H:%M` (for a year from 0 to 9999, `minute_text`); empty for an
/// invalid reading.
pub open spec fn datetime_text(dt: LocalDateTime) -> Seq<char> {
    if dt.valid() && 0 <= dt.year <= 9999 {
        minute_text(dt)
    } else if dt.valid() {
        match chrono_format_datetime(dt, minute_format()) {
            Some(t) => t,
            None => seq![],
        }
    } else {
        seq![]
    }
}

/// Whether a reading names an existing day and time of day.
pub fn is_valid_datetime(dt: LocalDateTime) -> (r: bool)
    ensures
        r == dt.valid(),
{
    date_exists(dt.year, dt.month, dt.day) && dt.hour < 24 && dt.minute < 60 && dt.second < 60
}

/// Appends `datetime_text(dt)` to `out`.
pub fn push_datetime(out: &mut Vec<char>, dt: LocalDateTime)
    ensures
        final(out)@ == old(out)@ + datetime_text(dt),
{
    if is_valid_datetime(dt) {
        let fmt = "%Y-%m-%d %H:%M";
        proof {
            assert(fmt@ == minute_format());
        }
        match format_datetime(dt, fmt) {
            Some(t) => push_str_chars(out, t.as_str()),
            None => {
                assert(old(out)@ + seq![] =~= old(out)@);
            },
        }
    } else {
        assert(old(out)@ + seq![] =~= old(out)@);
    }
}

pub open spec fn bool_text(b: bool) -> Seq<char> {
    if b {
        "true"@
    } else {
        "false"@
    }
}

/// `{:?}` of a list of integers: `[a, b, c]`.
pub open spec fn int_list_text(v: Seq<i32>) -> Seq<char> {
    seq!['['] + join_seqs(v.map_values(|x: i32| decimal_int(x as int)), ", "@) + seq![']']
}

/// Appends `int_list_text(v)` to `out`.
pub fn push_int_list(out: &mut Vec<char>, v: &Vec<i32>)
    ensures
        final(out)@ == old(out)@ + int_list_text(v@),
{
    let ghost start = out@;
    let ghost parts = v@.map_values(|x: i32| decimal_int(x as int));
    out.push('[');
    let mut i: usize = 0;
    while i < v.len()
        invariant
            i <= v@.len(),
            parts == v@.map_values(|x: i32| decimal_int(x as int)),
            out@ == start + seq!['['] + join_seqs(parts.take(i as int), ", "@),
        decreases v.len() - i,
    {
        if i > 0 {
            push_str_chars(out, ", ");
        }
        push_int(out, v[i] as i64);
        proof {
            let t = parts.take(i + 1);
            assert(t.drop_last() =~= parts.take(i as int));
            assert(t.last() == decimal_int(v@[i as int] as int));
            if i == 0 {
                assert(join_seqs(t, ", "@) == t[0]);
            }
            assert(out@ =~= start + seq!['['] + join_seqs(t, ", "@));
        }
        i = i + 1;
    }
    out.push(']');
    assert(parts.take(v@.len() as int) =~= parts);
    assert(out@ =~= start + int_list_text(v@));
}

/// An optional date line: the label and the date, or nothing.
pub open spec fn date_line(label: Seq<char>, d: Option<LocalDateTime>) -> Seq<char> {
    match d {
        Some(d) => label + datetime_text(d),
        None => seq![],
    }
}

/// The tag line, shown when there are tags.
pub open spec fn tags_line(tags: Seq<Seq<char>>) -> Seq<char> {
    if tags.len() > 0 {
        "\n标签: "@ + join_seqs(tags, ", "@)
    } else {
        seq![]
    }
}

/// The alert line, shown when there are alert times.
pub open spec fn minutes_line(m: Seq<i32>) -> Seq<char> {
    if m.len() > 0 {
        "\n提醒时间（提前分钟）: "@ + int_list_text(m)
    } else {
        seq![]
    }
}

/// The location line, shown when there is a location.
pub open spec fn location_line(l: Option<SpecLocation>) -> Seq<char> {
    match l {
        Some(l) => "\n位置: "@ + l.name + (match l.address {
            Some(a) => " ("@ + a + ")"@,
            None => seq![],
        }),
        None => seq![],
    }
}

/// The lines every reminder shows: priority, urgency, recurrence, list.
pub open spec fn status_lines(r: SpecReminder) -> Seq<char> {
    "\n优先级: "@ + priority_name(r.priority) + "\n紧急: "@ + bool_text(r.is_urgent)
        + "\n重复: "@ + recurrence_name(r.recurrence) + "\n列表: "@ + r.list
}

/// What a reminder shows of itself (its `Display`).
pub open spec fn reminder_text(r: SpecReminder) -> Seq<char> {
    "提醒事项: "@ + r.title + date_line("\n截止时间: "@, r.due_date) + date_line(
        "\n开始时间: "@,
        r.start_date,
    ) + status_lines(r) + tags_line(r.tags) + minutes_line(r.reminder_minutes) + location_line(
        r.location,
    )
}

fn push_date_line(out: &mut Vec<char>, label: &str, d: Option<LocalDateTime>)
    ensures
        final(out)@ == old(out)@ + date_line(label@, d),
{
    if let Some(d) = d {
        push_str_chars(out, label);
        push_datetime(out, d);
        assert(final(out)@ =~= old(out)@ + date_line(label@, Some(d)));
    } else {
        assert(old(out)@ + seq![] =~= old(out)@);
    }
}

fn push_status_lines(out: &mut Vec<char>, r: &Reminder)
    ensures
        final(out)@ == old(out)@ + status_lines(r@),
{
    push_str_chars(out, "\n优先级: ");
    let p = r.priority.display_name();
    push_str_chars(out, p.as_str());
    push_str_chars(out, "\n紧急: ");
    push_str_chars(out, if r.is_urgent { "true" } else { "false" });
    push_str_chars(out, "\n重复: ");
    let rn = r.recurrence.display_name();
    push_str_chars(out, rn.as_str());
    push_str_chars(out, "\n列表: ");
    push_str_chars(out, r.list.as_str());
    assert(final(out)@ =~= old(out)@ + status_lines(r@));
}

fn push_tags_line(out: &mut Vec<char>, tags: &Vec<String>)
    ensures
        final(out)@ == old(out)@ + tags_line(views(tags@)),
{
    if tags.len() > 0 {
        push_str_chars(out, "\n标签: ");
        let j = crate::text::join_strings(tags.as_slice(), ", ");
        push_str_chars(out, j.as_str());
        assert(final(out)@ =~= old(out)@ + tags_line(views(tags@)));
    } else {
        assert(old(out)@ + seq![] =~= old(out)@);
    }
}

fn push_minutes_line(out: &mut Vec<char>, m: &Vec<i32>)
    ensures
        final(out)@ == old(out)@ + minutes_line(m@),
{
    if m.len() > 0 {
        push_str_chars(out, "\n提醒时间（提前分钟）: ");
        push_int_list(out, m);
        assert(final(out)@ =~= old(out)@ + minutes_line(m@));
    } else {
        assert(old(out)@ + seq![] =~= old(out)@);
    }
}

fn push_location_line(out: &mut Vec<char>, l: &Option<Location>)
    ensures
        final(out)@ == old(out)@ + location_line(location_view(*l)),
{
    if let Some(l) = l {
        push_str_chars(out, "\n位置: ");
        push_str_chars(out, l.name.as_str());
        if let Some(a) = &l.address {
            push_str_chars(out, " (");
            push_str_chars(out, a.as_str());
            push_str_chars(out, ")");
        }
        assert(final(out)@ =~= old(out)@ + location_line(location_view(Some(*l))));
    } else {
        assert(old(out)@ + seq![] =~= old(out)@);
    }
}

impl Reminder {
    /// The text the reminder shows of itself.
    pub fn to_display_string(&self) -> (r: String)
        ensures
            r@ == reminder_text(self@),
    {
        let mut out: Vec<char> = Vec::new();
        push_str_chars(&mut out, "提醒事项: ");
        push_str_chars(&mut out, self.title.as_str());
        push_date_line(&mut out, "\n截止时间: ", self.due_date);
        push_date_line(&mut out, "\n开始时间: ", self.start_date);
        push_status_lines(&mut out, self);
        push_tags_line(&mut out, &self.tags);
        push_minutes_line(&mut out, &self.reminder_minutes);
        push_location_line(&mut out, &self.location);
        assert(out@ =~= reminder_text(self@));
        string_from_chars(&out)
    }
}

/// The names reminders show: priorities 不重要, 低, 中, 高; recurrences
/// 不重复, 每天, 每周, 每月, 每年, 工作日, 周末, and "自定义: " with a custom
/// rule.
pub proof fn shown_names()
    ensures
        priority_name(Priority::NoPriority) == "不重要"@,
        priority_name(Priority::Low) == "低"@,
        priority_name(Priority::Medium) == "中"@,
        priority_name(Priority::High) == "高"@,
        recurrence_name(SpecRecurrence::NoRepeat) == "不重复"@,
        recurrence_name(SpecRecurrence::Daily) == "每天"@,
        recurrence_name(SpecRecurrence::Weekly) == "每周"@,
        recurrence_name(SpecRecurrence::Monthly) == "每月"@,
        recurrence_name(SpecRecurrence::Yearly) == "每年"@,
        recurrence_name(SpecRecurrence::Weekdays) == "工作日"@,
        recurrence_name(SpecRecurrence::Weekends) == "周末"@,
        forall|s: Seq<char>| #[trigger] recurrence_name(SpecRecurrence::Custom(s)) == "自定义: "@ + s,
{
}

} // verus!
