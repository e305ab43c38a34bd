//! The AppleScript that files reminders in Apple's Reminders app, and how
//! the app's answers are read.
//!
//! Running `osascript` is left to the caller; this module builds the
//! scripts and interprets their output.
use vstd::prelude::*;
use crate::cors::{Priority, Recurrence, SpecRecurrence};
use crate::datetime::{
    chrono_shift_seconds, day_of, first_day_number, instant, last_day_number, second_of_day, shift_seconds,
    LocalDateTime,
};
use crate::reminder::{is_valid_datetime, Reminder, SpecReminder};
use crate::text::{
    contains_seq, contains_str, decimal_int, occurs_at, occurs_at_exec, owned, push_int, push_str_chars, str_chars,
    string_from_chars, to_lowercase, trim, trim_str, unicode_lowercase,
};

verus! {

/// Apple's Reminders app, reached through AppleScript.
pub struct AppleReminders;

// ---------------------------------------------------------------------------
// Escaping
// ---------------------------------------------------------------------------

/// How one character is written inside an AppleScript string literal.
pub open spec fn escape_char(c: char) -> Seq<char> {
    if c == '"' {
        seq!['\\', '"']
    } else if c == '\\' {
        seq!['\\', '\\']
    } else {
        seq![c]
    }
}

/// `s` written inside an AppleScript string literal: each `"` and `\`
/// preceded by a backslash.
pub open spec fn escape_text(s: Seq<char>) -> Seq<char>
    decreases s.len(),
{
    if s.len() == 0 {
        seq![]
    } else {
        escape_char(s[0]) + escape_text(s.drop_first())
    }
}

/// What AppleScript reads from the inside of a string literal: a backslash
/// stands for the character after it.
pub open spec fn unescape_text(s: Seq<char>) -> Seq<char>
    decreases s.len(),
{
    if s.len() == 0 {
        seq![]
    } else if s[0] == '\\' && s.len() >= 2 {
        seq![s[1]] + unescape_text(s.subrange(2, s.len() as int))
    } else {
        seq![s[0]] + unescape_text(s.drop_first())
    }
}

proof fn lemma_escape_append(a: Seq<char>, c: char)
    ensures
        escape_text(a.push(c)) == escape_text(a) + escape_char(c),
    decreases a.len(),
{
    if a.len() == 0 {
        assert(a.push(c).drop_first() =~= seq![]);
        assert(escape_text(seq![]) == Seq::<char>::empty());
        assert(escape_text(a.push(c)) =~= escape_char(c) + escape_text(seq![]));
    } else {
        lemma_escape_append(a.drop_first(), c);
        assert(a.push(c).drop_first() =~= a.drop_first().push(c));
        assert(escape_text(a.push(c)) =~= escape_text(a) + escape_char(c));
    }
}

/// Reading an escaped text gives back the text: what one call of
/// `escape_string` writes, AppleScript reads back as the same characters.
pub proof fn escape_round_trip(s: Seq<char>)
    ensures
        unescape_text(escape_text(s)) == s,
    decreases s.len(),
{
    if s.len() > 0 {
        escape_round_trip(s.drop_first());
        let e = escape_text(s);
        let rest = escape_text(s.drop_first());
        let c = s[0];
        if c == '"' || c == '\\' {
            assert(e =~= seq!['\\', c] + rest);
            assert(e.subrange(2, e.len() as int) =~= rest);
        } else {
            assert(e =~= seq![c] + rest);
            assert(e.drop_first() =~= rest);
        }
        assert(s =~= seq![c] + s.drop_first());
    }
}

/// `s` escaped for an AppleScript string literal (`escape_string`).
pub fn escape_string(s: &str) -> (r: String)
    ensures
        r@ == escape_text(s@),
{
    let cs = str_chars(s);
    let mut out: Vec<char> = Vec::new();
    let mut i: usize = 0;
    while i < cs.len()
        invariant
            i <= cs@.len(),
            out@ == escape_text(cs@.take(i as int)),
        decreases cs.len() - i,
    {
        let c = cs[i];
        proof {
            assert(cs@.take(i + 1) =~= cs@.take(i as int).push(c));
            lemma_escape_append(cs@.take(i as int), c);
        }
        if c == '"' {
            out.push('\\');
            out.push('"');
        } else if c == '\\' {
            out.push('\\');
            out.push('\\');
        } else {
            out.push(c);
        }
        proof {
            assert(out@ =~= escape_text(cs@.take(i + 1)));
        }
        i = i + 1;
    }
    assert(cs@.take(cs@.len() as int) =~= cs@);
    string_from_chars(&out)
}

// ---------------------------------------------------------------------------
// Recurrence rules
// ---------------------------------------------------------------------------

/// The iCalendar recurrence rule for a recurrence; none for a reminder that
/// does not repeat, the text itself for a custom rule.
pub open spec fn rrule_of(r: SpecRecurrence) -> Option<Seq<char>> {
    match r {
        SpecRecurrence::NoRepeat => None,
        SpecRecurrence::Daily => Some("FREQ=DAILY;INTERVAL=1"@),
        SpecRecurrence::Weekly => Some("FREQ=WEEKLY;INTERVAL=1"@),
        SpecRecurrence::Monthly => Some("FREQ=MONTHLY;INTERVAL=1"@),
        SpecRecurrence::Yearly => Some("FREQ=YEARLY;INTERVAL=1"@),
        SpecRecurrence::Weekdays => Some("FREQ=WEEKLY;BYDAY=MO,TU,WE,TH,FR"@),
        SpecRecurrence::Weekends => Some("FREQ=WEEKLY;BYDAY=SA,SU"@),
        SpecRecurrence::Custom(s) => Some(s),
    }
}

pub fn recurrence_to_rrule(recurrence: &Recurrence) -> (r: Option<String>)
    ensures
        match r {
            Some(s) => rrule_of(recurrence@) == Some(s@),
            None => rrule_of(recurrence@) is None,
        },
{
    match recurrence {
        Recurrence::NoRepeat => None,
        Recurrence::Daily => Some(owned("FREQ=DAILY;INTERVAL=1")),
        Recurrence::Weekly => Some(owned("FREQ=WEEKLY;INTERVAL=1")),
        Recurrence::Monthly => Some(owned("FREQ=MONTHLY;INTERVAL=1")),
        Recurrence::Yearly => Some(owned("FREQ=YEARLY;INTERVAL=1")),
        Recurrence::Weekdays => Some(owned("FREQ=WEEKLY;BYDAY=MO,TU,WE,TH,FR")),
        Recurrence::Weekends => Some(owned("FREQ=WEEKLY;BYDAY=SA,SU")),
        Recurrence::Custom(s) => Some(s.clone()),
    }
}

// ---------------------------------------------------------------------------
// Scripts
// ---------------------------------------------------------------------------

/// Lines that set the date-valued property `prop` of the object `var` to
/// `dt`, field by field (independent of the machine's date format). The day
/// is first set to 1, so that a month shorter than today's day of the month
/// does not push the date into the next month.
pub open spec fn set_date_lines(prop: Seq<char>, dt: LocalDateTime, var: Seq<char>) -> Seq<char> {
    "    set tmpDate to current date\n    set day of tmpDate to 1\n    set year of tmpDate to "@ + decimal_int(dt.year as int)
        + "\n    set month of tmpDate to "@ + decimal_int(dt.month as int)
        + "\n    set day of tmpDate to "@ + decimal_int(dt.day as int)
        + "\n    set hours of tmpDate to "@ + decimal_int(dt.hour as int)
        + "\n    set minutes of tmpDate to "@ + decimal_int(dt.minute as int)
        + "\n    set seconds of tmpDate to 0\n    set "@ + prop + " of "@ + var + " to tmpDate\n"@
}

fn push_set_date_lines(out: &mut Vec<char>, prop: &str, dt: LocalDateTime, var: &str)
    ensures
        final(out)@ == old(out)@ + set_date_lines(prop@, dt, var@),
{
    push_str_chars(out, "    set tmpDate to current date\n    set day of tmpDate to 1\n    set year of tmpDate to ");
    push_int(out, dt.year as i64);
    push_str_chars(out, "\n    set month of tmpDate to ");
    push_int(out, dt.month as i64);
    push_str_chars(out, "\n    set day of tmpDate to ");
    push_int(out, dt.day as i64);
    push_str_chars(out, "\n    set hours of tmpDate to ");
    push_int(out, dt.hour as i64);
    push_str_chars(out, "\n    set minutes of tmpDate to ");
    push_int(out, dt.minute as i64);
    push_str_chars(out, "\n    set seconds of tmpDate to 0\n    set ");
    push_str_chars(out, prop);
    push_str_chars(out, " of ");
    push_str_chars(out, var);
    push_str_chars(out, " to tmpDate\n");
    assert(final(out)@ =~= old(out)@ + set_date_lines(prop@, dt, var@));
}

pub fn build_set_date_script(prop: &str, dt: &LocalDateTime, var: &str) -> (r: String)
    ensures
        r@ == set_date_lines(prop@, *dt, var@),
{
    let mut out: Vec<char> = Vec::new();
    push_set_date_lines(&mut out, prop, *dt, var);
    assert(out@ =~= set_date_lines(prop@, *dt, var@));
    string_from_chars(&out)
}

/// The priority number the Reminders app uses.
pub open spec fn apple_priority(p: Priority) -> int {
    match p {
        Priority::NoPriority => 0,
        Priority::Low => 1,
        Priority::Medium => 5,
        Priority::High => 9,
    }
}

/// Why a reminder cannot be written as a script.
#[derive(Clone, Copy, Debug, PartialEq, Eq, Structural)]
pub enum ScriptError {
    /// The due date is not a real date, or the alert time before it lies
    /// outside the dates the calendar holds.
    AlarmOutOfRange,
}

/// The script's opening: the target list and the new reminder with its
/// title and priority.
pub open spec fn script_head(r: SpecReminder) -> Seq<char> {
    "tell application \"Reminders\"\n    set targetList to list \""@ + escape_text(r.list)
        + "\"\n    set newReminder to (make new reminder in targetList with properties {name:\""@
        + escape_text(r.title) + "\", priority:"@ + decimal_int(apple_priority(r.priority))
        + "})\n"@
}

pub open spec fn due_lines(r: SpecReminder) -> Seq<char> {
    match r.due_date {
        Some(d) => set_date_lines("due date"@, d, "newReminder"@),
        None => seq![],
    }
}

pub open spec fn recurrence_line(r: SpecReminder) -> Seq<char> {
    match rrule_of(r.recurrence) {
        Some(rule) => "    set recurrence of newReminder to \""@ + rule + "\"\n"@,
        None => seq![],
    }
}

/// When the alert goes off: the first alert time's minutes before the due
/// date; none without a due date, an alert time or with a negative one.
/// `Some(None)` marks an alert that cannot be placed.
pub open spec fn alarm_of(r: SpecReminder) -> Option<Option<LocalDateTime>> {
    match r.due_date {
        Some(d) => if r.reminder_minutes.len() > 0 && r.reminder_minutes[0] >= 0 {
            if d.valid() {
                Some(chrono_shift_seconds(d, (-(r.reminder_minutes[0] * 60)) as i64))
            } else {
                Some(None)
            }
        } else {
            None
        },
        None => None,
    }
}

/// When the alert goes off relative to the due date: `minutes` before it,
/// to the second; and an alert that cannot be placed is one whose due date
/// is not a real date or whose moment falls on a day outside the calendar.
pub open spec fn alarm_timing(r: SpecReminder) -> bool {
    match (r.due_date, alarm_of(r)) {
        (Some(d), Some(Some(a))) => a.valid() && instant(a) == instant(d) - r.reminder_minutes[0] * 60,
        (Some(d), Some(None)) => !d.valid() || !(first_day_number() <= day_of(d) + (second_of_day(d)
            - r.reminder_minutes[0] * 60) / 86400 <= last_day_number()),
        _ => true,
    }
}

/// The whole script that files reminder `r`.
pub open spec fn reminder_script(r: SpecReminder) -> Result<Seq<char>, ScriptError> {
    let body = script_head(r) + due_lines(r) + recurrence_line(r);
    match alarm_of(r) {
        None => Ok(body + "end tell"@),
        Some(None) => Err(ScriptError::AlarmOutOfRange),
        Some(Some(a)) => Ok(body + set_date_lines("remind me date"@, a, "newReminder"@) + "end tell"@),
    }
}

/// The shape of every script that files a reminder: it talks to the
/// Reminders app, names the target list with its escaped name, creates the
/// reminder with its escaped title and the app's priority number, and ends
/// the conversation.
pub proof fn script_shape(r: SpecReminder)
    ensures
        reminder_script(r) matches Ok(s) ==> {
            &&& "tell application \"Reminders\""@.is_prefix_of(s)
            &&& contains_seq(s, "set targetList to list \""@ + escape_text(r.list) + "\""@)
            &&& contains_seq(
                s,
                "{name:\""@ + escape_text(r.title) + "\", priority:"@ + decimal_int(
                    apple_priority(r.priority),
                ) + "}"@,
            )
            &&& "end tell"@.is_suffix_of(s)
        },
{
    if let Ok(s) = reminder_script(r) {
        let body = script_head(r) + due_lines(r) + recurrence_line(r);
        let middle = match alarm_of(r) {
            Some(Some(a)) => due_lines(r) + recurrence_line(r) + set_date_lines(
                "remind me date"@,
                a,
                "newReminder"@,
            ),
            _ => due_lines(r) + recurrence_line(r),
        };
        assert(s =~= script_head(r) + middle + "end tell"@);
        lemma_head_shape(r);
        lemma_shape_of_parts(
            escape_text(r.list),
            escape_text(r.title),
            decimal_int(apple_priority(r.priority)),
            middle,
            s,
        );
    }
}

/// The opening of the script, cut into its words and the reminder's texts.
proof fn lemma_head_shape(r: SpecReminder)
    ensures
        script_head(r) == "tell application \"Reminders\""@ + "\n    "@ + ("set targetList to list \""@
            + escape_text(r.list) + "\""@)
            + "\n    set newReminder to (make new reminder in targetList with properties "@ + (
        "{name:\""@ + escape_text(r.title) + "\", priority:"@ + decimal_int(apple_priority(r.priority))
            + "}"@) + ")\n"@,
{
    reveal_strlit("tell application \"Reminders\"\n    set targetList to list \"");
    reveal_strlit("tell application \"Reminders\"");
    reveal_strlit("\n    ");
    reveal_strlit("set targetList to list \"");
    reveal_strlit("\"\n    set newReminder to (make new reminder in targetList with properties {name:\"");
    reveal_strlit("\"");
    reveal_strlit("\n    set newReminder to (make new reminder in targetList with properties ");
    reveal_strlit("{name:\"");
    reveal_strlit("})\n");
    reveal_strlit("}");
    reveal_strlit(")\n");
    assert(script_head(r) =~= "tell application \"Reminders\""@ + "\n    "@ + ("set targetList to list \""@
        + escape_text(r.list) + "\""@)
        + "\n    set newReminder to (make new reminder in targetList with properties "@ + (
    "{name:\""@ + escape_text(r.title) + "\", priority:"@ + decimal_int(apple_priority(r.priority))
        + "}"@) + ")\n"@);
}

proof fn lemma_shape_of_parts(
    l: Seq<char>,
    t: Seq<char>,
    p: Seq<char>,
    middle: Seq<char>,
    s: Seq<char>,
)
    requires
        s == "tell application \"Reminders\""@ + "\n    "@ + ("set targetList to list \""@ + l + "\""@)
            + "\n    set newReminder to (make new reminder in targetList with properties "@ + (
        "{name:\""@ + t + "\", priority:"@ + p + "}"@) + ")\n"@ + middle + "end tell"@,
    ensures
        "tell application \"Reminders\""@.is_prefix_of(s),
        contains_seq(s, "set targetList to list \""@ + l + "\""@),
        contains_seq(s, "{name:\""@ + t + "\", priority:"@ + p + "}"@),
        "end tell"@.is_suffix_of(s),
{
    let opening = "tell application \"Reminders\""@;
    let indent = "\n    "@;
    let list_part = "set targetList to list \""@ + l + "\""@;
    let make = "\n    set newReminder to (make new reminder in targetList with properties "@;
    let name_part = "{name:\""@ + t + "\", priority:"@ + p + "}"@;
    let tail = ")\n"@;
    let end_word = "end tell"@;
    let rest1 = make + name_part + tail + middle + end_word;
    assert(s =~= (opening + indent) + list_part + rest1);
    lemma_occurs_in_middle(opening + indent, list_part, rest1);
    let pre2 = opening + indent + list_part + make;
    let rest2 = tail + middle + end_word;
    assert(s =~= pre2 + name_part + rest2);
    lemma_occurs_in_middle(pre2, name_part, rest2);
    assert(s.subrange(0, opening.len() as int) =~= opening);
    assert(s.subrange(s.len() - end_word.len(), s.len() as int) =~= end_word);
}

proof fn lemma_occurs_in_middle(x: Seq<char>, y: Seq<char>, z: Seq<char>)
    ensures
        occurs_at(x + y + z, y, x.len() as int),
{
    assert((x + y + z).subrange(x.len() as int, (x.len() + y.len()) as int) =~= y);
}

fn push_escaped_text(out: &mut Vec<char>, s: &str)
    ensures
        final(out)@ == old(out)@ + escape_text(s@),
{
    let e = escape_string(s);
    push_str_chars(out, e.as_str());
}

/// The AppleScript that creates `reminder` in its list
/// (`build_reminder_script`; the list is made beforehand).
pub fn build_reminder_script(reminder: &Reminder) -> (r: Result<String, ScriptError>)
    ensures
        match r {
            Ok(s) => reminder_script(reminder@) == Ok::<Seq<char>, ScriptError>(s@),
            Err(e) => reminder_script(reminder@) == Err::<Seq<char>, ScriptError>(e),
        },
        alarm_timing(reminder@),
{
    let ghost m = reminder@;
    let apple: u8 = match reminder.priority {
        Priority::NoPriority => 0,
        Priority::Low => 1,
        Priority::Medium => 5,
        Priority::High => 9,
    };
    let mut out: Vec<char> = Vec::new();
    push_str_chars(&mut out, "tell application \"Reminders\"\n    set targetList to list \"");
    push_escaped_text(&mut out, reminder.list.as_str());
    push_str_chars(
        &mut out,
        "\"\n    set newReminder to (make new reminder in targetList with properties {name:\"",
    );
    push_escaped_text(&mut out, reminder.title.as_str());
    push_str_chars(&mut out, "\", priority:");
    push_int(&mut out, apple as i64);
    push_str_chars(&mut out, "})\n");
    assert(out@ =~= script_head(m));
    if let Some(due) = reminder.due_date {
        push_set_date_lines(&mut out, "due date", due, "newReminder");
    }
    assert(out@ =~= script_head(m) + due_lines(m));
    if let Some(rule) = recurrence_to_rrule(&reminder.recurrence) {
        push_str_chars(&mut out, "    set recurrence of newReminder to \"");
        push_str_chars(&mut out, rule.as_str());
        push_str_chars(&mut out, "\"\n");
    }
    assert(out@ =~= script_head(m) + due_lines(m) + recurrence_line(m));
    if let Some(due) = reminder.due_date {
        if reminder.reminder_minutes.len() > 0 && reminder.reminder_minutes[0] >= 0 {
            let minutes = reminder.reminder_minutes[0];
            if !is_valid_datetime(due) {
                return Err(ScriptError::AlarmOutOfRange);
            }
            let shifted = shift_seconds(due, -((minutes as i64) * 60));
            proof {
                if let Some(a) = shifted {
                    let secs = -(minutes * 60);
                    let t = second_of_day(due) + secs;
                    assert(t == (t / 86400) * 86400 + t % 86400) by (nonlinear_arith);
                    assert(instant(a) == instant(due) + secs) by (nonlinear_arith)
                        requires
                            second_of_day(a) == t % 86400,
                            day_of(a) == day_of(due) + t / 86400,
                            t == second_of_day(due) + secs,
                            t == (t / 86400) * 86400 + t % 86400,
                            instant(a) == day_of(a) * 86400 + second_of_day(a),
                            instant(due) == day_of(due) * 86400 + second_of_day(due),
                    ;
                }
            }
            match shifted {
                Some(alarm) => {
                    push_set_date_lines(&mut out, "remind me date", alarm, "newReminder");
                },
                None => {
                    return Err(ScriptError::AlarmOutOfRange);
                },
            }
        }
    }
    push_str_chars(&mut out, "end tell");
    assert(out@ =~= reminder_script(m)->Ok_0);
    Ok(string_from_chars(&out))
}

/// The script that makes a list named `name`.
pub open spec fn create_list_script(name: Seq<char>) -> Seq<char> {
    "tell application \"Reminders\"\n    make new list with properties {name:\""@ + escape_text(
        name,
    ) + "\"}\nend tell"@
}

pub fn build_create_list_script(list_name: &str) -> (r: String)
    ensures
        r@ == create_list_script(list_name@),
{
    let mut out: Vec<char> = Vec::new();
    push_str_chars(&mut out, "tell application \"Reminders\"\n    make new list with properties {name:\"");
    push_escaped_text(&mut out, list_name);
    push_str_chars(&mut out, "\"}\nend tell");
    assert(out@ =~= create_list_script(list_name@));
    string_from_chars(&out)
}

/// The script that asks for the names of all lists.
pub open spec fn list_names_script() -> Seq<char> {
    "tell application \"Reminders\"\n    set listNames to name of every list\n    return listNames\nend tell"@
}

pub fn build_list_names_script() -> (r: String)
    ensures
        r@ == list_names_script(),
{
    owned("tell application \"Reminders\"\n    set listNames to name of every list\n    return listNames\nend tell")
}

// ---------------------------------------------------------------------------
// Reading the app's answers
// ---------------------------------------------------------------------------

/// A line break or a comma: what separates list names in the app's answer.
pub open spec fn is_name_separator(c: char) -> bool {
    c == '\n' || c == ','
}

/// The app's answer without the one line break that ends it.
pub open spec fn names_body(output: Seq<char>) -> Seq<char> {
    if output.len() > 0 && output.last() == '\n' {
        output.drop_last()
    } else {
        output
    }
}

/// Where the name in the piece starting at `i` begins: after the one space
/// that follows a comma, if there is one.
pub open spec fn piece_start(body: Seq<char>, i: int) -> int {
    if 0 < i < body.len() && body[i - 1] == ',' && body[i] == ' ' {
        i + 1
    } else {
        i
    }
}

/// `name` is one of the pieces of `body` cut at every separator, a piece
/// after a comma read without the space that follows the comma.
pub open spec fn piece_found(body: Seq<char>, name: Seq<char>) -> bool {
    exists|i: int, j: int|
        0 <= i <= j <= body.len() && body.subrange(piece_start(body, i), j) == name && (i == 0
            || is_name_separator(body[i - 1])) && (j == body.len() || is_name_separator(body[j]))
            && (forall|k: int| i <= k < j ==> !is_name_separator(#[trigger] body[k]))
}

/// `name` is one of the list names in the app's answer: the answer, without
/// its final line break, lists the names separated by `", "` (or by line
/// breaks); an empty answer names no list.
pub open spec fn names_include(output: Seq<char>, name: Seq<char>) -> bool {
    names_body(output).len() > 0 && piece_found(names_body(output), name)
}

/// The entry of `output` that starts at `i`: up to the next separator.
pub open spec fn entry_end(output: Seq<char>, i: int) -> int
    decreases output.len() - i,
{
    if i >= output.len() || is_name_separator(output[i]) {
        i
    } else {
        entry_end(output, i + 1)
    }
}

proof fn lemma_entry_end(output: Seq<char>, i: int)
    requires
        0 <= i <= output.len(),
    ensures
        i <= entry_end(output, i) <= output.len(),
        entry_end(output, i) == output.len() || is_name_separator(output[entry_end(output, i)]),
        forall|k: int| i <= k < entry_end(output, i) ==> !is_name_separator(#[trigger] output[k]),
    decreases output.len() - i,
{
    if i < output.len() && !is_name_separator(output[i]) {
        lemma_entry_end(output, i + 1);
    }
}

/// The characters of `cs` from `start` up to `end`.
fn copy_range(cs: &Vec<char>, start: usize, end: usize) -> (r: Vec<char>)
    requires
        start <= end <= cs.len(),
    ensures
        r@ == cs@.subrange(start as int, end as int),
{
    let mut r: Vec<char> = Vec::new();
    let mut k: usize = start;
    while k < end
        invariant
            start <= k <= end <= cs.len(),
            r@ == cs@.subrange(start as int, k as int),
        decreases end - k,
    {
        r.push(cs[k]);
        k = k + 1;
        assert(r@ =~= cs@.subrange(start as int, k as int));
    }
    r
}

fn pieces_contain(cs: &Vec<char>, name: &Vec<char>) -> (r: bool)
    ensures
        r == piece_found(cs@, name@),
{
    let n = cs.len();
    let mut start: usize = 0;
    let ghost s = cs@;
    loop
        invariant
            n == s.len(),
            cs@ == s,
            start <= n,
            start == 0 || is_name_separator(s[start - 1]),
            forall|i: int, j: int|
                0 <= i < start && i <= j <= n && (i == 0 || is_name_separator(s[i - 1])) && (j
                    == n || is_name_separator(s[j])) && (forall|k: int|
                    i <= k < j ==> !is_name_separator(#[trigger] s[k])) ==> s.subrange(piece_start(s, i), j)
                    != name@,
        decreases n - start,
    {
        let mut end: usize = start;
        while end < n && !(cs[end] == '\n' || cs[end] == ',')
            invariant
                start <= end <= n,
                n == s.len(),
                cs@ == s,
                forall|k: int| start <= k < end ==> !is_name_separator(#[trigger] s[k]),
            decreases n - end,
        {
            end = end + 1;
        }
        let st: usize = if 0 < start && start < n && cs[start - 1] == ',' && cs[start] == ' ' {
            start + 1
        } else {
            start
        };
        assert(st as int == piece_start(s, start as int));
        let entry = copy_range(&cs, st, end);
        let same = entry.len() == name.len() && occurs_at_exec(&entry, &name, 0);
        proof {
            if same {
                assert(entry@.subrange(0, entry@.len() as int) =~= entry@);
            }
            if entry@ == name@ {
                assert(entry@.subrange(0, name@.len() as int) =~= entry@);
            }
        }
        let ghost is_entry = end == n || is_name_separator(s[end as int]);
        proof {
            assert(is_entry);
            if !same {
                assert(s.subrange(piece_start(s, start as int), end as int) != name@);
            }
        }
        if same {
            assert(piece_found(s, name@)) by {
                assert(s.subrange(piece_start(s, start as int), end as int) == name@);
            }
            return true;
        }
        proof {
            assert forall|i: int, j: int|
                0 <= i < (if end < n { end + 1 } else { n + 1 }) && i <= j <= n && (i == 0
                    || is_name_separator(s[i - 1])) && (j == n || is_name_separator(s[j]))
                    && (forall|k: int| i <= k < j ==> !is_name_separator(#[trigger] s[k]))
                implies s.subrange(piece_start(s, i), j) != name@ by {
                if i < start {
                } else if i == start {
                    if j < end {
                        assert(!is_name_separator(s[j]));
                    } else if j > end {
                        assert(is_name_separator(s[end as int]));
                    }
                } else {
                    assert(i - 1 < end);
                    assert(!is_name_separator(s[i - 1]));
                }
            }
        }
        if end == n {
            assert(!piece_found(s, name@)) by {
                if piece_found(s, name@) {
                    let (i, j) = choose|i: int, j: int|
                        0 <= i <= j <= s.len() && s.subrange(piece_start(s, i), j) == name@ && (i == 0
                            || is_name_separator(s[i - 1])) && (j == s.len() || is_name_separator(
                            s[j],
                        )) && (forall|k: int| i <= k < j ==> !is_name_separator(#[trigger] s[k]));
                    assert(i < n + 1);
                }
            }
            return false;
        }
        start = end + 1;
    }
}

/// Whether the app's answer to `build_list_names_script` names `list_name`
/// (`list_exists` once the script has run).
pub fn list_names_contain(output: &str, list_name: &str) -> (r: bool)
    ensures
        r == names_include(output@, list_name@),
{
    let cs = str_chars(output);
    let name = str_chars(list_name);
    let n = cs.len();
    let body = if n > 0 && cs[n - 1] == '\n' {
        copy_range(&cs, 0, n - 1)
    } else {
        copy_range(&cs, 0, n)
    };
    proof {
        assert(cs@.subrange(0, n as int) =~= cs@);
        assert(body@ =~= names_body(output@));
    }
    if body.len() == 0 {
        return false;
    }
    pieces_contain(&body, &name)
}

// ---------------------------------------------------------------------------
// Filing: what to run next
// ---------------------------------------------------------------------------

/// What to do next when filing: run an AppleScript, or stop with a result.
pub enum AppleStep {
    Run(String),
    Finished(Result<(), String>),
}

pub enum SpecAppleStep {
    Run(Seq<char>),
    Finished(Result<(), Seq<char>>),
}

impl View for AppleStep {
    type V = SpecAppleStep;

    open spec fn view(&self) -> SpecAppleStep {
        match self {
            AppleStep::Run(s) => SpecAppleStep::Run(s@),
            AppleStep::Finished(Ok(())) => SpecAppleStep::Finished(Ok(())),
            AppleStep::Finished(Err(e)) => SpecAppleStep::Finished(Err(e@)),
        }
    }
}

/// `create_list_if_not_exists` once the existence check has answered: a
/// failed check is the result; an existing list needs nothing; a missing
/// one is made by `create_list_script`, whose run `check_create_list_output`
/// then reads.
pub open spec fn create_list_plan(name: Seq<char>, exists: Result<bool, Seq<char>>) -> SpecAppleStep {
    match exists {
        Err(e) => SpecAppleStep::Finished(Err(e)),
        Ok(true) => SpecAppleStep::Finished(Ok(())),
        Ok(false) => SpecAppleStep::Run(create_list_script(name)),
    }
}

pub fn create_list_step(list_name: &str, exists: Result<bool, String>) -> (r: AppleStep)
    ensures
        r@ == create_list_plan(
            list_name@,
            match exists {
                Ok(b) => Ok(b),
                Err(e) => Err(e@),
            },
        ),
{
    match exists {
        Err(e) => AppleStep::Finished(Err(e)),
        Ok(true) => AppleStep::Finished(Ok(())),
        Ok(false) => AppleStep::Run(build_create_list_script(list_name)),
    }
}

/// The message for a reminder that cannot be written as a script.
pub open spec fn script_error_text(e: ScriptError) -> Seq<char> {
    "提醒时间超出可表示的范围"@
}

/// `create_reminder` once its list is there: a reminder that cannot be
/// written as a script is the result; otherwise its script is run, and
/// `check_create_output` reads the run.
pub open spec fn create_reminder_plan(r: SpecReminder) -> SpecAppleStep {
    match reminder_script(r) {
        Err(e) => SpecAppleStep::Finished(Err(script_error_text(e))),
        Ok(s) => SpecAppleStep::Run(s),
    }
}

pub fn create_reminder_step(reminder: &Reminder) -> (r: AppleStep)
    ensures
        r@ == create_reminder_plan(reminder@),
{
    match build_reminder_script(reminder) {
        Err(_) => AppleStep::Finished(Err(owned("提醒时间超出可表示的范围"))),
        Ok(s) => AppleStep::Run(s),
    }
}

/// Filing succeeds exactly when the script ran successfully and its output
/// mentions no error in any letter case.
pub proof fn create_succeeds_iff(success: bool, stderr: Seq<char>, stdout: Seq<char>)
    ensures
        create_outcome(success, stderr, stdout) is Ok <==> success && !contains_seq(
            unicode_lowercase(stdout),
            "error"@,
        ),
{
}

/// Making a missing list succeeds exactly when its script ran successfully.
pub proof fn create_list_succeeds_iff(success: bool, stderr: Seq<char>)
    ensures
        create_list_outcome(success, stderr) is Ok <==> success,
{
}

/// What a run of the create-reminder script means: failure with the error
/// output when the run failed; failure when its output mentions an error
/// (in any letter case); success otherwise.
pub open spec fn create_outcome(success: bool, stderr: Seq<char>, stdout: Seq<char>) -> Result<
    (),
    Seq<char>,
> {
    if !success {
        Err("创建提醒事项失败: "@ + trim(stderr))
    } else if contains_seq(unicode_lowercase(stdout), "error"@) {
        Err("AppleScript 错误: "@ + trim(stdout))
    } else {
        Ok(())
    }
}

/// Reads a run of the create-reminder script (`create_reminder` once the
/// script has run).
pub fn check_create_output(success: bool, stderr: &str, stdout: &str) -> (r: Result<(), String>)
    ensures
        match r {
            Ok(()) => create_outcome(success, stderr@, stdout@) == Ok::<(), Seq<char>>(()),
            Err(m) => create_outcome(success, stderr@, stdout@) == Err::<(), Seq<char>>(m@),
        },
{
    if !success {
        let mut out: Vec<char> = Vec::new();
        push_str_chars(&mut out, "创建提醒事项失败: ");
        let t = trim_str(stderr);
        push_str_chars(&mut out, t.as_str());
        return Err(string_from_chars(&out));
    }
    let lower = to_lowercase(stdout);
    if contains_str(lower.as_str(), "error") {
        let mut out: Vec<char> = Vec::new();
        push_str_chars(&mut out, "AppleScript 错误: ");
        let t = trim_str(stdout);
        push_str_chars(&mut out, t.as_str());
        return Err(string_from_chars(&out));
    }
    Ok(())
}

/// What a run of the create-list script means.
pub open spec fn create_list_outcome(success: bool, stderr: Seq<char>) -> Result<(), Seq<char>> {
    if !success {
        Err("创建列表失败: "@ + trim(stderr))
    } else {
        Ok(())
    }
}

/// Reads a run of the create-list script (`create_list_if_not_exists` once
/// the script has run).
pub fn check_create_list_output(success: bool, stderr: &str) -> (r: Result<(), String>)
    ensures
        match r {
            Ok(()) => create_list_outcome(success, stderr@) == Ok::<(), Seq<char>>(()),
            Err(m) => create_list_outcome(success, stderr@) == Err::<(), Seq<char>>(m@),
        },
{
    if !success {
        let mut out: Vec<char> = Vec::new();
        push_str_chars(&mut out, "创建列表失败: ");
        let t = trim_str(stderr);
        push_str_chars(&mut out, t.as_str());
        return Err(string_from_chars(&out));
    }
    Ok(())
}

/// The Reminders app's priority numbers: none 0, low 1, medium 5, high 9;
/// different priorities are filed with different numbers, and the script
/// carries the number of the reminder's priority.
pub proof fn apple_priority_numbers(r: SpecReminder)
    ensures
        apple_priority(Priority::NoPriority) == 0,
        apple_priority(Priority::Low) == 1,
        apple_priority(Priority::Medium) == 5,
        apple_priority(Priority::High) == 9,
        forall|p: Priority, q: Priority| apple_priority(p) == apple_priority(q) ==> p == q,
        reminder_script(r) matches Ok(s) ==> contains_seq(
            s,
            "{name:\""@ + escape_text(r.title) + "\", priority:"@ + decimal_int(
                apple_priority(r.priority),
            ) + "}"@,
        ),
{
    script_shape(r);
}

/// The recurrence rules written into the script: daily, weekly, monthly
/// and yearly repeat every period; weekdays Monday to Friday; weekends
/// Saturday and Sunday; a custom rule as given; no rule for no repeat.
pub proof fn recurrence_rules()
    ensures
        rrule_of(SpecRecurrence::NoRepeat) is None,
        rrule_of(SpecRecurrence::Daily) == Some("FREQ=DAILY;INTERVAL=1"@),
        rrule_of(SpecRecurrence::Weekly) == Some("FREQ=WEEKLY;INTERVAL=1"@),
        rrule_of(SpecRecurrence::Monthly) == Some("FREQ=MONTHLY;INTERVAL=1"@),
        rrule_of(SpecRecurrence::Yearly) == Some("FREQ=YEARLY;INTERVAL=1"@),
        rrule_of(SpecRecurrence::Weekdays) == Some("FREQ=WEEKLY;BYDAY=MO,TU,WE,TH,FR"@),
        rrule_of(SpecRecurrence::Weekends) == Some("FREQ=WEEKLY;BYDAY=SA,SU"@),
        forall|c: Seq<char>| rrule_of(SpecRecurrence::Custom(c)) == Some(c),
{
}

/// AppleScript string escaping: a `"` becomes `\\"`, a `\\` becomes `\\\\`,
/// every other character stays; a text without either is written as it is,
/// and escaping never shortens a text.
pub proof fn escaping_touches_only_quotes_and_backslashes(s: Seq<char>)
    ensures
        escape_char('"') == seq!['\\', '"'],
        escape_char('\\') == seq!['\\', '\\'],
        forall|c: char| c != '"' && c != '\\' ==> #[trigger] escape_char(c) == seq![c],
        (forall|i: int| 0 <= i < s.len() ==> s[i] != '"' && s[i] != '\\') ==> escape_text(s) == s,
        escape_text(s).len() >= s.len(),
    decreases s.len(),
{
    if s.len() > 0 {
        escaping_touches_only_quotes_and_backslashes(s.drop_first());
        if forall|i: int| 0 <= i < s.len() ==> s[i] != '"' && s[i] != '\\' {
            assert forall|i: int| 0 <= i < s.drop_first().len() implies s.drop_first()[i] != '"'
                && s.drop_first()[i] != '\\' by {
                assert(s.drop_first()[i] == s[i + 1]);
            }
            assert(escape_text(s) =~= seq![s[0]] + s.drop_first());
            assert(seq![s[0]] + s.drop_first() =~= s);
        }
    }
}

/// The lines that set a date write each field of the reading in its own
/// line: the year, month, day, hours and minutes, with the seconds at 0,
/// after first setting the day to 1; then they set `prop` of `var` to it.
pub proof fn date_lines_set_each_field(prop: Seq<char>, dt: LocalDateTime, var: Seq<char>)
    ensures
        ({
            let l = set_date_lines(prop, dt, var);
            &&& "    set tmpDate to current date\n    set day of tmpDate to 1\n"@.is_prefix_of(l)
            &&& contains_seq(l, "set year of tmpDate to "@ + decimal_int(dt.year as int) + "\n"@)
            &&& contains_seq(l, "set month of tmpDate to "@ + decimal_int(dt.month as int) + "\n"@)
            &&& contains_seq(l, "set day of tmpDate to "@ + decimal_int(dt.day as int) + "\n"@)
            &&& contains_seq(l, "set hours of tmpDate to "@ + decimal_int(dt.hour as int) + "\n"@)
            &&& contains_seq(l, "set minutes of tmpDate to "@ + decimal_int(dt.minute as int) + "\n"@)
            &&& contains_seq(l, "set seconds of tmpDate to 0\n"@)
            &&& ("set "@ + prop + " of "@ + var + " to tmpDate\n"@).is_suffix_of(l)
        }),
{
    let y = decimal_int(dt.year as int);
    let mo = decimal_int(dt.month as int);
    let d = decimal_int(dt.day as int);
    let h = decimal_int(dt.hour as int);
    let mi = decimal_int(dt.minute as int);
    let nl = "\n"@;
    let ind = "    "@;
    let head = "    set tmpDate to current date\n    set day of tmpDate to 1\n"@;
    let wy = "set year of tmpDate to "@;
    let wmo = "set month of tmpDate to "@;
    let wd = "set day of tmpDate to "@;
    let wh = "set hours of tmpDate to "@;
    let wmi = "set minutes of tmpDate to "@;
    let ws = "set seconds of tmpDate to 0\n"@;
    let fy = wy + y + nl;
    let fmo = wmo + mo + nl;
    let fd = wd + d + nl;
    let fh = wh + h + nl;
    let fmi = wmi + mi + nl;
    let last = "set "@ + prop + " of "@ + var + " to tmpDate\n"@;
    assert("    set tmpDate to current date\n    set day of tmpDate to 1\n    set year of tmpDate to "@ =~= head + ind + wy) by {
        reveal_strlit("    set tmpDate to current date\n    set day of tmpDate to 1\n    set year of tmpDate to ");
        reveal_strlit("    set tmpDate to current date\n    set day of tmpDate to 1\n");
        reveal_strlit("    ");
        reveal_strlit("set year of tmpDate to ");
    }
    assert("\n    set month of tmpDate to "@ =~= nl + ind + wmo) by {
        reveal_strlit("\n    set month of tmpDate to ");
        reveal_strlit("\n");
        reveal_strlit("    ");
        reveal_strlit("set month of tmpDate to ");
    }
    assert("\n    set day of tmpDate to "@ =~= nl + ind + wd) by {
        reveal_strlit("\n    set day of tmpDate to ");
        reveal_strlit("\n");
        reveal_strlit("    ");
        reveal_strlit("set day of tmpDate to ");
    }
    assert("\n    set hours of tmpDate to "@ =~= nl + ind + wh) by {
        reveal_strlit("\n    set hours of tmpDate to ");
        reveal_strlit("\n");
        reveal_strlit("    ");
        reveal_strlit("set hours of tmpDate to ");
    }
    assert("\n    set minutes of tmpDate to "@ =~= nl + ind + wmi) by {
        reveal_strlit("\n    set minutes of tmpDate to ");
        reveal_strlit("\n");
        reveal_strlit("    ");
        reveal_strlit("set minutes of tmpDate to ");
    }
    assert("\n    set seconds of tmpDate to 0\n    set "@ =~= nl + ind + ws + ind + "set "@) by {
        reveal_strlit("\n    set seconds of tmpDate to 0\n    set ");
        reveal_strlit("\n");
        reveal_strlit("    ");
        reveal_strlit("set seconds of tmpDate to 0\n");
        reveal_strlit("set ");
    }
    let l = set_date_lines(prop, dt, var);
    lemma_regroup_date_lines(head, ind, nl, wy, wmo, wd, wh, wmi, ws, y, mo, d, h, mi, prop, var, l);
    lemma_shape_of_date_lines(head, ind, fy, fmo, fd, fh, fmi, ws, last, l);
}

#[verifier::rlimit(60)]
proof fn lemma_regroup_date_lines(
    head: Seq<char>,
    ind: Seq<char>,
    nl: Seq<char>,
    wy: Seq<char>,
    wmo: Seq<char>,
    wd: Seq<char>,
    wh: Seq<char>,
    wmi: Seq<char>,
    ws: Seq<char>,
    y: Seq<char>,
    mo: Seq<char>,
    d: Seq<char>,
    h: Seq<char>,
    mi: Seq<char>,
    prop: Seq<char>,
    var: Seq<char>,
    l: Seq<char>,
)
    requires
        l == (head + ind + wy) + y + (nl + ind + wmo) + mo + (nl + ind + wd) + d + (nl + ind + wh) + h + (
        nl + ind + wmi) + mi + (nl + ind + ws + ind + "set "@) + prop + " of "@ + var + " to tmpDate\n"@,
    ensures
        l == head + ind + (wy + y + nl) + ind + (wmo + mo + nl) + ind + (wd + d + nl) + ind + (wh + h
            + nl) + ind + (wmi + mi + nl) + ind + ws + ind + ("set "@ + prop + " of "@ + var
            + " to tmpDate\n"@),
{
    assert(l =~= head + ind + (wy + y + nl) + ind + (wmo + mo + nl) + ind + (wd + d + nl) + ind + (wh
        + h + nl) + ind + (wmi + mi + nl) + ind + ws + ind + ("set "@ + prop + " of "@ + var
        + " to tmpDate\n"@));
}

proof fn lemma_shape_of_date_lines(
    head: Seq<char>,
    ind: Seq<char>,
    fy: Seq<char>,
    fmo: Seq<char>,
    fd: Seq<char>,
    fh: Seq<char>,
    fmi: Seq<char>,
    ws: Seq<char>,
    last: Seq<char>,
    l: Seq<char>,
)
    requires
        l == head + ind + fy + ind + fmo + ind + fd + ind + fh + ind + fmi + ind + ws + ind + last,
    ensures
        head.is_prefix_of(l),
        contains_seq(l, fy),
        contains_seq(l, fmo),
        contains_seq(l, fd),
        contains_seq(l, fh),
        contains_seq(l, fmi),
        contains_seq(l, ws),
        last.is_suffix_of(l),
{
    let a1 = head + ind;
    let a2 = a1 + fy + ind;
    let a3 = a2 + fmo + ind;
    let a4 = a3 + fd + ind;
    let a5 = a4 + fh + ind;
    let a6 = a5 + fmi + ind;
    let tail6 = ind + last;
    assert(l =~= a6 + ws + tail6);
    lemma_occurs_in_middle(a6, ws, tail6);
    assert(l =~= a5 + fmi + (ind + ws + tail6));
    lemma_occurs_in_middle(a5, fmi, ind + ws + tail6);
    assert(l =~= a4 + fh + (ind + fmi + ind + ws + tail6));
    lemma_occurs_in_middle(a4, fh, ind + fmi + ind + ws + tail6);
    assert(l =~= a3 + fd + (ind + fh + ind + fmi + ind + ws + tail6));
    lemma_occurs_in_middle(a3, fd, ind + fh + ind + fmi + ind + ws + tail6);
    assert(l =~= a2 + fmo + (ind + fd + ind + fh + ind + fmi + ind + ws + tail6));
    lemma_occurs_in_middle(a2, fmo, ind + fd + ind + fh + ind + fmi + ind + ws + tail6);
    assert(l =~= a1 + fy + (ind + fmo + ind + fd + ind + fh + ind + fmi + ind + ws + tail6));
    lemma_occurs_in_middle(a1, fy, ind + fmo + ind + fd + ind + fh + ind + fmi + ind + ws + tail6);
    assert(l.subrange(0, head.len() as int) =~= head);
    assert(l.subrange(l.len() - last.len(), l.len() as int) =~= last);
}

/// A reminder gets an alert exactly when it has a due date and a first
/// alert time that is not negative; the alert is that many minutes before
/// the due date.
pub proof fn alert_needs_due_date_and_time(r: SpecReminder)
    ensures
        alarm_of(r) is Some <==> (r.due_date is Some && r.reminder_minutes.len() > 0
            && r.reminder_minutes[0] >= 0),
        alarm_of(r) matches Some(Some(a)) ==> r.due_date matches Some(d) && a == chrono_shift_seconds(
            d,
            (-(r.reminder_minutes[0] * 60)) as i64,
        )->0,
{
}

/// The script files the due date, when there is one, under "due date" of the
/// new reminder, and the recurrence rule, when there is one, as its
/// recurrence; the alert time, when there is one, under "remind me date".
pub proof fn script_carries_dates_and_rule(r: SpecReminder)
    ensures
        reminder_script(r) matches Ok(s) ==> (r.due_date matches Some(d) ==> contains_seq(
            s,
            set_date_lines("due date"@, d, "newReminder"@),
        )),
        reminder_script(r) matches Ok(s) ==> (rrule_of(r.recurrence) matches Some(rule) ==> contains_seq(
            s,
            "    set recurrence of newReminder to \""@ + rule + "\"\n"@,
        )),
        reminder_script(r) matches Ok(s) ==> (alarm_of(r) matches Some(Some(a)) ==> contains_seq(
            s,
            set_date_lines("remind me date"@, a, "newReminder"@),
        )),
{
    if let Ok(s) = reminder_script(r) {
        let head = script_head(r);
        let due = due_lines(r);
        let rec = recurrence_line(r);
        let tail = match alarm_of(r) {
            Some(Some(a)) => set_date_lines("remind me date"@, a, "newReminder"@) + "end tell"@,
            _ => "end tell"@,
        };
        assert(s =~= head + due + (rec + tail));
        lemma_occurs_in_middle(head, due, rec + tail);
        assert(s =~= (head + due) + rec + tail);
        lemma_occurs_in_middle(head + due, rec, tail);
        if let Some(Some(a)) = alarm_of(r) {
            let al = set_date_lines("remind me date"@, a, "newReminder"@);
            assert(s =~= (head + due + rec) + al + "end tell"@);
            lemma_occurs_in_middle(head + due + rec, al, "end tell"@);
        }
    }
}

/// The script that makes a list names it with its escaped name.
pub proof fn list_script_names_the_list(name: Seq<char>)
    ensures
        contains_seq(create_list_script(name), "{name:\""@ + escape_text(name) + "\"}"@),
        "tell application \"Reminders\""@.is_prefix_of(create_list_script(name)),
        "end tell"@.is_suffix_of(create_list_script(name)),
{
    let a = "tell application \"Reminders\""@;
    let b = "\n    make new list with properties "@;
    let n = "{name:\""@ + escape_text(name) + "\"}"@;
    let e = "\n"@;
    let t = "end tell"@;
    assert("tell application \"Reminders\"\n    make new list with properties {name:\""@ =~= a + b
        + "{name:\""@) by {
        reveal_strlit("tell application \"Reminders\"\n    make new list with properties {name:\"");
        reveal_strlit("tell application \"Reminders\"");
        reveal_strlit("\n    make new list with properties ");
        reveal_strlit("{name:\"");
    }
    assert("\"}\nend tell"@ =~= "\"}"@ + e + t) by {
        reveal_strlit("\"}\nend tell");
        reveal_strlit("\"}");
        reveal_strlit("\n");
        reveal_strlit("end tell");
    }
    let l = create_list_script(name);
    assert(l =~= (a + b) + n + (e + t));
    lemma_occurs_in_middle(a + b, n, e + t);
    assert(l.subrange(0, a.len() as int) =~= a);
    assert(l.subrange(l.len() - t.len(), l.len() as int) =~= t);
}

} // verus!
