//! Reading what the language model answers.
//!
//! Sending the request and decoding JSON are left to the caller; this
//! module writes the prompt, cuts the JSON object out of the model's reply
//! and turns the decoded fields into a `ParsedReminder`.
use vstd::prelude::*;
use crate::cors::{Location, Priority, Recurrence, SpecLocation, SpecRecurrence};
use crate::datetime::{chrono_parse_datetime, parse_datetime_with_format, LocalDateTime};
use crate::config::{ai_configured, ConfigManager};
use crate::parser::cors::{ParsedReminder, SpecParsedReminder};
use crate::text::{
    owned, push_seq, replace_all, replace_str, str_chars, string_from_chars, to_lowercase, trim,
    trim_chars, unicode_lowercase, views,
};

verus! {

// ---------------------------------------------------------------------------
// Words the model answers with
// ---------------------------------------------------------------------------

/// The priority a lower-case word names; medium for any other word.
pub open spec fn priority_named(lower: Seq<char>) -> Priority {
    if lower == "none"@ {
        Priority::NoPriority
    } else if lower == "low"@ {
        Priority::Low
    } else if lower == "medium"@ {
        Priority::Medium
    } else if lower == "high"@ {
        Priority::High
    } else {
        Priority::Medium
    }
}

fn is_word(s: &str, word: &str) -> (r: bool)
    ensures
        r == (s@ == word@),
{
    let a = owned(s);
    let b = owned(word);
    a == b
}

/// The priority a lower-case word names.
pub fn priority_from_lowercase(lower: &str) -> (r: Priority)
    ensures
        r == priority_named(lower@),
{
    if is_word(lower, "none") {
        Priority::NoPriority
    } else if is_word(lower, "low") {
        Priority::Low
    } else if is_word(lower, "medium") {
        Priority::Medium
    } else if is_word(lower, "high") {
        Priority::High
    } else {
        Priority::Medium
    }
}

/// The priority the model's word names, in any letter case.
pub fn parse_priority(priority_str: &str) -> (r: Priority)
    ensures
        r == priority_named(unicode_lowercase(priority_str@)),
{
    let lower = to_lowercase(priority_str);
    priority_from_lowercase(lower.as_str())
}

/// The recurrence a lower-case word names; none for any other word.
pub open spec fn recurrence_named(lower: Seq<char>) -> SpecRecurrence {
    if lower == "daily"@ {
        SpecRecurrence::Daily
    } else if lower == "weekly"@ {
        SpecRecurrence::Weekly
    } else if lower == "monthly"@ {
        SpecRecurrence::Monthly
    } else if lower == "yearly"@ {
        SpecRecurrence::Yearly
    } else if lower == "weekdays"@ {
        SpecRecurrence::Weekdays
    } else if lower == "weekends"@ {
        SpecRecurrence::Weekends
    } else if lower == "custom"@ {
        SpecRecurrence::Custom("custom"@)
    } else {
        SpecRecurrence::NoRepeat
    }
}

/// The recurrence a lower-case word names.
pub fn recurrence_from_lowercase(lower: &str) -> (r: Recurrence)
    ensures
        r@ == recurrence_named(lower@),
{
    if is_word(lower, "daily") {
        Recurrence::Daily
    } else if is_word(lower, "weekly") {
        Recurrence::Weekly
    } else if is_word(lower, "monthly") {
        Recurrence::Monthly
    } else if is_word(lower, "yearly") {
        Recurrence::Yearly
    } else if is_word(lower, "weekdays") {
        Recurrence::Weekdays
    } else if is_word(lower, "weekends") {
        Recurrence::Weekends
    } else if is_word(lower, "custom") {
        Recurrence::Custom(owned("custom"))
    } else {
        Recurrence::NoRepeat
    }
}

/// The recurrence the model's word names, in any letter case.
pub fn parse_recurrence(recurrence_str: &str) -> (r: Recurrence)
    ensures
        r@ == recurrence_named(unicode_lowercase(recurrence_str@)),
{
    let lower = to_lowercase(recurrence_str);
    recurrence_from_lowercase(lower.as_str())
}

/// The formats the model's date-times are read in, in the order tried.
pub open spec fn datetime_formats() -> Seq<Seq<char>> {
    seq!["%Y-%m-%d %H:%M:%S"@, "%Y-%m-%d %H:%M"@, "%Y/%m/%d %H:%M:%S"@, "%Y/%m/%d %H:%M"@]
}

/// The first format, from index `i` on, under which chrono reads `s`.
pub open spec fn first_reading_from(s: Seq<char>, i: int) -> Option<LocalDateTime>
    decreases datetime_formats().len() - i,
{
    if i < 0 || i >= datetime_formats().len() {
        None
    } else {
        match chrono_parse_datetime(s, datetime_formats()[i]) {
            Some(d) => Some(d),
            None => first_reading_from(s, i + 1),
        }
    }
}

/// The date-time the model wrote: none for a missing, empty or `null`
/// value; else the reading under the first format that fits.
pub open spec fn model_datetime(s: Option<Seq<char>>) -> Option<LocalDateTime> {
    match s {
        None => None,
        Some(t) => if unicode_lowercase(t) == "null"@ || t.len() == 0 {
            None
        } else {
            first_reading_from(t, 0)
        },
    }
}

/// The reading of `s` under the first format that fits.
fn first_reading(s: &str) -> (r: Option<LocalDateTime>)
    ensures
        r == first_reading_from(s@, 0),
        r matches Some(d) ==> d.valid(),
{
    let formats: &[&str] = &[
        "%Y-%m-%d %H:%M:%S",
        "%Y-%m-%d %H:%M",
        "%Y/%m/%d %H:%M:%S",
        "%Y/%m/%d %H:%M",
    ];
    assert(formats@.map_values(|f: &str| f@) =~= datetime_formats());
    let mut i: usize = 0;
    while i < formats.len()
        invariant
            formats@.map_values(|f: &str| f@) == datetime_formats(),
            i <= formats@.len(),
            first_reading_from(s@, 0) == first_reading_from(s@, i as int),
        decreases formats.len() - i,
    {
        assert(formats@[i as int]@ == datetime_formats()[i as int]);
        if let Some(d) = parse_datetime_with_format(s, formats[i]) {
            assert(first_reading_from(s@, i as int) == Some(d));
            return Some(d);
        }
        i = i + 1;
    }
    None
}

/// The date-time the model wrote (`parse_datetime_string`).
pub fn parse_datetime_string(datetime_str: &Option<String>) -> (r: Option<LocalDateTime>)
    ensures
        r == model_datetime(match datetime_str {
            Some(s) => Some(s@),
            None => None,
        }),
        r matches Some(d) ==> d.valid(),
{
    match datetime_str {
        None => None,
        Some(s) => {
            let lower = to_lowercase(s.as_str());
            if is_word(lower.as_str(), "null") || s.as_str().is_empty() {
                return None;
            }
            first_reading(s.as_str())
        },
    }
}

// ---------------------------------------------------------------------------
// The prompt
// ---------------------------------------------------------------------------

/// The instructions sent to the model, with `{input}`, `{current_time}` and
/// `{default_list}` to be filled in.
pub open spec fn prompt_template() -> Seq<char> {
    "你是一个智能提醒事项解析器。请将用户输入的自然语言解析为结构化的提醒事项信息。\n\n输入：{input}\n\n请按照以下 JSON 格式返回解析结果：\n\n{{\n  \"title\": \"提醒事项标题\",\n  \"description\": \"可选描述\",\n  \"due_date\": \"截止日期时间，格式：YYYY-MM-DD HH:MM:SS，如果无法确定则为 null\",\n  \"start_date\": \"开始日期时间，格式：YYYY-MM-DD HH:MM:SS，可选\",\n  \"priority\": \"优先级，可选值：none, low, medium, high\",\n  \"is_urgent\": \"是否紧急，布尔值\",\n  \"recurrence\": \"重复模式，可选：none, daily, weekly, monthly, yearly, weekdays, weekends\",\n  \"location\": {{\n    \"name\": \"位置名称\",\n    \"address\": \"详细地址，可选\"\n  }},\n  \"reminder_minutes\": [0],\n  \"tags\": [\"标签1\", \"标签2\"],\n  \"list\": \"列表名称\"\n}}\n\n注意：\n1. 当前时间：{current_time}\n2. 如果用户没有指定时间，请根据上下文推断合理的时间\n3. 标题应该简洁明了\n4. 优先使用中文标签\n5. 如果用户指定了列表，使用用户指定的列表，否则使用 \"{default_list}\"\n6. 日期时间请使用 24 小时制\n7. 如果无法确定某些字段，请使用合理的默认值\n8. 请确保返回的是有效的 JSON 格式"@
}

/// The template with the input, the current time and the default list
/// filled in, in that order.
pub open spec fn prompt_text(input: Seq<char>, current_time: Seq<char>, default_list: Seq<char>) -> Seq<char> {
    replace_all(
        replace_all(replace_all(prompt_template(), "{input}"@, input), "{current_time}"@, current_time),
        "{default_list}"@,
        default_list,
    )
}

/// The prompt sent to the model (`generate_prompt`, the current time given
/// as text).
pub fn generate_prompt(input: &str, current_time: &str, default_list: &str) -> (r: String)
    ensures
        r@ == prompt_text(input@, current_time@, default_list@),
{
    let template = "你是一个智能提醒事项解析器。请将用户输入的自然语言解析为结构化的提醒事项信息。\n\n输入：{input}\n\n请按照以下 JSON 格式返回解析结果：\n\n{{\n  \"title\": \"提醒事项标题\",\n  \"description\": \"可选描述\",\n  \"due_date\": \"截止日期时间，格式：YYYY-MM-DD HH:MM:SS，如果无法确定则为 null\",\n  \"start_date\": \"开始日期时间，格式：YYYY-MM-DD HH:MM:SS，可选\",\n  \"priority\": \"优先级，可选值：none, low, medium, high\",\n  \"is_urgent\": \"是否紧急，布尔值\",\n  \"recurrence\": \"重复模式，可选：none, daily, weekly, monthly, yearly, weekdays, weekends\",\n  \"location\": {{\n    \"name\": \"位置名称\",\n    \"address\": \"详细地址，可选\"\n  }},\n  \"reminder_minutes\": [0],\n  \"tags\": [\"标签1\", \"标签2\"],\n  \"list\": \"列表名称\"\n}}\n\n注意：\n1. 当前时间：{current_time}\n2. 如果用户没有指定时间，请根据上下文推断合理的时间\n3. 标题应该简洁明了\n4. 优先使用中文标签\n5. 如果用户指定了列表，使用用户指定的列表，否则使用 \"{default_list}\"\n6. 日期时间请使用 24 小时制\n7. 如果无法确定某些字段，请使用合理的默认值\n8. 请确保返回的是有效的 JSON 格式";
    proof {
        reveal_strlit("{input}");
        reveal_strlit("{current_time}");
        reveal_strlit("{default_list}");
    }
    let a = replace_str(template, "{input}", input);
    let b = replace_str(a.as_str(), "{current_time}", current_time);
    replace_str(b.as_str(), "{default_list}", default_list)
}

// ---------------------------------------------------------------------------
// The model's reply
// ---------------------------------------------------------------------------

/// The first position of `c` in `s`.
pub open spec fn first_index_of(s: Seq<char>, c: char) -> Option<int> {
    if exists|i: int| 0 <= i < s.len() && s[i] == c {
        Some(choose|i: int| 0 <= i < s.len() && s[i] == c && forall|j: int| 0 <= j < i ==> s[j] != c)
    } else {
        None
    }
}

/// The last position of `c` in `s`.
pub open spec fn last_index_of(s: Seq<char>, c: char) -> Option<int> {
    if exists|i: int| 0 <= i < s.len() && s[i] == c {
        Some(choose|i: int| 0 <= i < s.len() && s[i] == c && forall|j: int| i < j < s.len() ==> s[j] != c)
    } else {
        None
    }
}

fn find_first(cs: &Vec<char>, c: char) -> (r: Option<usize>)
    ensures
        match r {
            Some(i) => first_index_of(cs@, c) == Some(i as int) && i < cs@.len(),
            None => first_index_of(cs@, c) is None,
        },
{
    let mut i: usize = 0;
    while i < cs.len()
        invariant
            i <= cs@.len(),
            forall|j: int| 0 <= j < i ==> cs@[j] != c,
        decreases cs.len() - i,
    {
        if cs[i] == c {
            proof {
                let p = |w: int| 0 <= w < cs@.len() && cs@[w] == c && forall|j: int| 0 <= j < w ==> cs@[j] != c;
                assert(p(i as int));
                let w = choose|w: int| 0 <= w < cs@.len() && cs@[w] == c && forall|j: int| 0 <= j < w ==> cs@[j] != c;
                assert(p(w));
                if w < i {
                    assert(cs@[w] != c);
                } else if w > i {
                    assert(cs@[i as int] != c);
                }
            }
            return Some(i);
        }
        i = i + 1;
    }
    None
}

fn find_last(cs: &Vec<char>, c: char) -> (r: Option<usize>)
    ensures
        match r {
            Some(i) => last_index_of(cs@, c) == Some(i as int) && i < cs@.len(),
            None => last_index_of(cs@, c) is None,
        },
{
    let mut k: usize = cs.len();
    while k > 0
        invariant
            k <= cs@.len(),
            forall|j: int| k <= j < cs@.len() ==> cs@[j] != c,
        decreases k,
    {
        let i = k - 1;
        if cs[i] == c {
            proof {
                let p = |w: int| 0 <= w < cs@.len() && cs@[w] == c && forall|j: int| w < j < cs@.len() ==> cs@[j] != c;
                assert(p(i as int));
                let w = choose|w: int| 0 <= w < cs@.len() && cs@[w] == c && forall|j: int| w < j < cs@.len() ==> cs@[j] != c;
                assert(p(w));
                if w < i {
                    assert(cs@[i as int] != c);
                } else if w > i {
                    assert(cs@[w] != c);
                }
            }
            return Some(i);
        }
        k = i;
    }
    None
}

/// The JSON object in the model's reply: the trimmed reply when it is
/// braced; else from the first `{` (or the start) to just after the last
/// `}` (or the end). `None` where that span would end before it starts.
pub open spec fn json_span(content: Seq<char>) -> Option<Seq<char>> {
    let t = trim(content);
    if t.len() > 0 && t[0] == '{' && t[t.len() - 1] == '}' {
        Some(t)
    } else {
        let start = match first_index_of(content, '{') {
            Some(i) => i,
            None => 0,
        };
        let end = match last_index_of(content, '}') {
            Some(i) => i + 1,
            None => content.len() as int,
        };
        if start <= end {
            Some(content.subrange(start, end))
        } else {
            None
        }
    }
}

/// The JSON object in the model's reply (what `parse_ai_response` decodes);
/// `None` where the reply's last `}` comes before its first `{`.
pub fn extract_json_content(content: &str) -> (r: Option<String>)
    ensures
        match r {
            Some(s) => json_span(content@) == Some(s@),
            None => json_span(content@) is None,
        },
{
    let cs = str_chars(content);
    let t = trim_chars(&cs);
    if t.len() > 0 && t[0] == '{' && t[t.len() - 1] == '}' {
        return Some(string_from_chars(&t));
    }
    let n = cs.len();
    let start: usize = match find_first(&cs, '{') {
        Some(i) => i,
        None => 0,
    };
    let end: usize = match find_last(&cs, '}') {
        Some(i) => i + 1,
        None => n,
    };
    if start > end {
        return None;
    }
    let mut out: Vec<char> = Vec::new();
    let mut m: usize = start;
    while m < end
        invariant
            start <= m <= end <= n,
            n == cs@.len(),
            out@ == cs@.subrange(start as int, m as int),
        decreases end - m,
    {
        out.push(cs[m]);
        m = m + 1;
        assert(out@ =~= cs@.subrange(start as int, m as int));
    }
    Some(string_from_chars(&out))
}

/// The JSON object to decode from the model's reply, or the error for a
/// reply with no object in it (the last `}` before the first `{`).
pub fn ai_json_content(content: &str) -> (r: Result<String, String>)
    ensures
        match r {
            Ok(s) => json_span(content@) == Some(s@),
            Err(m) => json_span(content@) is None && m@ == "AI 返回的内容中没有 JSON 对象"@,
        },
{
    match extract_json_content(content) {
        Some(s) => Ok(s),
        None => Err(owned("AI 返回的内容中没有 JSON 对象")),
    }
}

/// What the service's answer gives, as the JSON object to decode into the
/// reminder's fields: a refused request is an error with the body; a body
/// that did not decode is that decoding's error; then the reply's first
/// answer (`reply_content`) and the JSON object in it (`json_span`).
pub open spec fn reply_plan(
    success: bool,
    body: Seq<char>,
    decoded: Result<(Option<Seq<char>>, Seq<Seq<char>>), Seq<char>>,
) -> Result<Seq<char>, Seq<char>> {
    if !success {
        Err("AI API 请求失败: "@ + body)
    } else {
        match decoded {
            Err(m) => Err(m),
            Ok((error, contents)) => match reply_content(error, contents) {
                Err(m) => Err(m),
                Ok(content) => match json_span(content) {
                    Some(j) => Ok(j),
                    None => Err("AI 返回的内容中没有 JSON 对象"@),
                },
            },
        }
    }
}

/// `parse_with_ai` once the service has answered: `success` is whether the
/// request succeeded, `body` the answer's text and `decoded` what decoding
/// it as a reply gave (its error field and its answers' texts).
pub fn ai_reply_json(
    success: bool,
    body: &str,
    decoded: Result<(Option<String>, Vec<String>), String>,
) -> (r: Result<String, String>)
    ensures
        ({
            let plan = reply_plan(
                success,
                body@,
                match decoded {
                    Ok((e, c)) => Ok((
                        match e {
                            Some(m) => Some(m@),
                            None => None,
                        },
                        views(c@),
                    )),
                    Err(m) => Err(m@),
                },
            );
            match r {
                Ok(j) => plan == Ok::<Seq<char>, Seq<char>>(j@),
                Err(m) => plan == Err::<Seq<char>, Seq<char>>(m@),
            }
        }),
{
    if !success {
        return Err(ai_request_failure(body));
    }
    match decoded {
        Err(m) => Err(m),
        Ok((error, contents)) => match ai_reply_content(error, contents) {
            Err(m) => Err(m),
            Ok(content) => ai_json_content(content.as_str()),
        },
    }
}

/// Whether the model may be asked under these settings (the check
/// `parse_with_ai` makes first): an error when no model is configured.
pub fn ai_ready(config_manager: &ConfigManager) -> (r: Result<(), String>)
    ensures
        match r {
            Ok(()) => ai_configured(config_manager@),
            Err(m) => !ai_configured(config_manager@) && m@ == "AI 未配置"@,
        },
{
    if config_manager.is_ai_configured() {
        Ok(())
    } else {
        Err(owned("AI 未配置"))
    }
}

/// The error for a request the model's service refused, with the body it
/// answered.
pub fn ai_request_failure(body: &str) -> (r: String)
    ensures
        r@ == "AI API 请求失败: "@ + body@,
{
    let mut out = str_chars("AI API 请求失败: ");
    let b = str_chars(body);
    push_seq(&mut out, &b);
    string_from_chars(&out)
}

/// The first answer's text from a decoded reply: the model's error message
/// when the reply carries one; an error when it carries no answer.
pub open spec fn reply_content(error: Option<Seq<char>>, contents: Seq<Seq<char>>) -> Result<
    Seq<char>,
    Seq<char>,
> {
    match error {
        Some(m) => Err("AI API 错误: "@ + m),
        None => if contents.len() == 0 {
            Err("AI 未返回有效结果"@)
        } else {
            Ok(contents[0])
        },
    }
}

/// The first answer's text from a decoded reply (the checks
/// `parse_with_ai` makes after decoding).
pub fn ai_reply_content(error: Option<String>, contents: Vec<String>) -> (r: Result<String, String>)
    ensures
        match r {
            Ok(s) => reply_content(match error {
                Some(m) => Some(m@),
                None => None,
            }, views(contents@)) == Ok::<Seq<char>, Seq<char>>(s@),
            Err(m) => reply_content(match error {
                Some(m) => Some(m@),
                None => None,
            }, views(contents@)) == Err::<Seq<char>, Seq<char>>(m@),
        },
{
    match error {
        Some(m) => {
            let mut out = str_chars("AI API 错误: ");
            let mv = str_chars(m.as_str());
            push_seq(&mut out, &mv);
            Err(string_from_chars(&out))
        },
        None => {
            if contents.len() == 0 {
                Err(owned("AI 未返回有效结果"))
            } else {
                let mut contents = contents;
                let first = contents.swap_remove(0);
                Ok(first)
            }
        },
    }
}

/// A location as the model gives it.
#[derive(Debug, Clone)]
pub struct AiLocation {
    pub name: String,
    pub address: Option<String>,
}

/// The fields of the model's decoded answer.
#[derive(Debug, Clone)]
pub struct AiReminderFields {
    pub title: String,
    pub due_date: Option<String>,
    pub start_date: Option<String>,
    pub priority: String,
    pub is_urgent: bool,
    pub recurrence: String,
    pub location: Option<AiLocation>,
    pub reminder_minutes: Vec<i32>,
    pub tags: Vec<String>,
    pub list: String,
}

pub open spec fn opt_text(s: Option<String>) -> Option<Seq<char>> {
    match s {
        Some(t) => Some(t@),
        None => None,
    }
}

pub open spec fn ai_location_view(l: Option<AiLocation>) -> Option<SpecLocation> {
    match l {
        Some(x) => Some(SpecLocation { name: x.name@, address: opt_text(x.address) }),
        None => None,
    }
}

/// The parse result the model's answer describes.
pub open spec fn reminder_from_ai(f: AiReminderFields) -> SpecParsedReminder {
    SpecParsedReminder {
        title: f.title@,
        due_date: model_datetime(opt_text(f.due_date)),
        start_date: model_datetime(opt_text(f.start_date)),
        priority: priority_named(unicode_lowercase(f.priority@)),
        is_urgent: f.is_urgent,
        recurrence: recurrence_named(unicode_lowercase(f.recurrence@)),
        location: ai_location_view(f.location),
        reminder_minutes: f.reminder_minutes@,
        tags: views(f.tags@),
        list: f.list@,
    }
}

/// The parse result the model's decoded answer describes (the mapping at
/// the end of `parse_ai_response`).
pub fn parsed_from_ai(fields: AiReminderFields) -> (r: ParsedReminder)
    ensures
        r@ == reminder_from_ai(fields),
        r.due_date matches Some(d) ==> d.valid(),
        r.start_date matches Some(d) ==> d.valid(),
{
    let ghost f = fields;
    let due_date = parse_datetime_string(&fields.due_date);
    let start_date = parse_datetime_string(&fields.start_date);
    let priority = parse_priority(fields.priority.as_str());
    let recurrence = parse_recurrence(fields.recurrence.as_str());
    let location = match fields.location {
        Some(loc) => Some(Location { name: loc.name, address: loc.address }),
        None => None,
    };
    let r = ParsedReminder {
        title: fields.title,
        due_date,
        start_date,
        priority,
        is_urgent: fields.is_urgent,
        recurrence,
        location,
        reminder_minutes: fields.reminder_minutes,
        tags: fields.tags,
        list: fields.list,
    };
    proof {
        assert(r@.location == ai_location_view(f.location));
    }
    r
}

/// The reminder read from the model's answer keeps the answer's title,
/// urgency, alert times and list as given, and all of its tags, in order;
/// it reads the priority and recurrence words in any letter case.
pub proof fn model_answer_is_kept(f: AiReminderFields)
    ensures
        reminder_from_ai(f).title == f.title@,
        reminder_from_ai(f).is_urgent == f.is_urgent,
        reminder_from_ai(f).reminder_minutes == f.reminder_minutes@,
        reminder_from_ai(f).list == f.list@,
        reminder_from_ai(f).tags.len() == f.tags@.len(),
        forall|i: int| 0 <= i < f.tags@.len() ==> #[trigger] reminder_from_ai(f).tags[i] == f.tags@[i]@,
        reminder_from_ai(f).priority == priority_named(unicode_lowercase(f.priority@)),
        reminder_from_ai(f).recurrence == recurrence_named(unicode_lowercase(f.recurrence@)),
{
}

/// The priority and recurrence words of the model's answer: none, low,
/// medium and high; daily, weekly, monthly, yearly, weekdays, weekends and
/// custom. An unknown priority word means medium; an unknown recurrence
/// word means no repeat.
pub proof fn model_words()
    ensures
        priority_named("none"@) == Priority::NoPriority,
        priority_named("low"@) == Priority::Low,
        priority_named("medium"@) == Priority::Medium,
        priority_named("high"@) == Priority::High,
        forall|w: Seq<char>|
            w != "none"@ && w != "low"@ && w != "medium"@ && w != "high"@ ==> #[trigger] priority_named(w)
                == Priority::Medium,
        recurrence_named("daily"@) == SpecRecurrence::Daily,
        recurrence_named("weekly"@) == SpecRecurrence::Weekly,
        recurrence_named("monthly"@) == SpecRecurrence::Monthly,
        recurrence_named("yearly"@) == SpecRecurrence::Yearly,
        recurrence_named("weekdays"@) == SpecRecurrence::Weekdays,
        recurrence_named("weekends"@) == SpecRecurrence::Weekends,
        recurrence_named("custom"@) == SpecRecurrence::Custom("custom"@),
        forall|w: Seq<char>|
            w != "daily"@ && w != "weekly"@ && w != "monthly"@ && w != "yearly"@ && w != "weekdays"@
                && w != "weekends"@ && w != "custom"@ ==> #[trigger] recurrence_named(w)
                == SpecRecurrence::NoRepeat,
{
    reveal_strlit("none");
    reveal_strlit("low");
    reveal_strlit("medium");
    reveal_strlit("high");
    reveal_strlit("daily");
    reveal_strlit("weekly");
    reveal_strlit("monthly");
    reveal_strlit("yearly");
    reveal_strlit("weekdays");
    reveal_strlit("weekends");
    reveal_strlit("custom");
    assert("low"@ != "none"@) by {
        assert("low"@.len() != "none"@.len());
    }
    assert("medium"@ != "none"@) by {
        assert("medium"@.len() != "none"@.len());
    }
    assert("medium"@ != "low"@) by {
        assert("medium"@.len() != "low"@.len());
    }
    assert("high"@ != "none"@) by {
        assert("high"@[0] != "none"@[0]);
    }
    assert("high"@ != "low"@) by {
        assert("high"@.len() != "low"@.len());
    }
    assert("high"@ != "medium"@) by {
        assert("high"@.len() != "medium"@.len());
    }
    assert("weekly"@ != "daily"@) by {
        assert("weekly"@.len() != "daily"@.len());
    }
    assert("monthly"@ != "daily"@) by {
        assert("monthly"@.len() != "daily"@.len());
    }
    assert("monthly"@ != "weekly"@) by {
        assert("monthly"@.len() != "weekly"@.len());
    }
    assert("yearly"@ != "daily"@) by {
        assert("yearly"@.len() != "daily"@.len());
    }
    assert("yearly"@ != "weekly"@) by {
        assert("yearly"@[0] != "weekly"@[0]);
    }
    assert("yearly"@ != "monthly"@) by {
        assert("yearly"@.len() != "monthly"@.len());
    }
    assert("weekdays"@ != "daily"@) by {
        assert("weekdays"@.len() != "daily"@.len());
    }
    assert("weekdays"@ != "weekly"@) by {
        assert("weekdays"@.len() != "weekly"@.len());
    }
    assert("weekdays"@ != "monthly"@) by {
        assert("weekdays"@.len() != "monthly"@.len());
    }
    assert("weekdays"@ != "yearly"@) by {
        assert("weekdays"@.len() != "yearly"@.len());
    }
    assert("weekends"@ != "daily"@) by {
        assert("weekends"@.len() != "daily"@.len());
    }
    assert("weekends"@ != "weekly"@) by {
        assert("weekends"@.len() != "weekly"@.len());
    }
    assert("weekends"@ != "monthly"@) by {
        assert("weekends"@.len() != "monthly"@.len());
    }
    assert("weekends"@ != "yearly"@) by {
        assert("weekends"@.len() != "yearly"@.len());
    }
    assert("weekends"@ != "weekdays"@) by {
        assert("weekends"@[4] != "weekdays"@[4]);
    }
    assert("custom"@ != "daily"@) by {
        assert("custom"@.len() != "daily"@.len());
    }
    assert("custom"@ != "weekly"@) by {
        assert("custom"@[0] != "weekly"@[0]);
    }
    assert("custom"@ != "monthly"@) by {
        assert("custom"@.len() != "monthly"@.len());
    }
    assert("custom"@ != "yearly"@) by {
        assert("custom"@[0] != "yearly"@[0]);
    }
    assert("custom"@ != "weekdays"@) by {
        assert("custom"@.len() != "weekdays"@.len());
    }
    assert("custom"@ != "weekends"@) by {
        assert("custom"@.len() != "weekends"@.len());
    }
}

/// The model's date-times are read under these formats, in order:
/// "%Y-%m-%d %H:%M:%S", "%Y-%m-%d %H:%M", "%Y/%m/%d %H:%M:%S",
/// "%Y/%m/%d %H:%M"; a missing, empty or "null" value is no date.
pub proof fn model_datetime_formats(s: Option<Seq<char>>)
    ensures
        datetime_formats() == seq![
            "%Y-%m-%d %H:%M:%S"@,
            "%Y-%m-%d %H:%M"@,
            "%Y/%m/%d %H:%M:%S"@,
            "%Y/%m/%d %H:%M"@,
        ],
        s is None ==> model_datetime(s) is None,
        s matches Some(t) ==> (t.len() == 0 || unicode_lowercase(t) == "null"@ ==> model_datetime(s) is None),
        s matches Some(t) ==> (t.len() > 0 && unicode_lowercase(t) != "null"@ ==> model_datetime(s)
            == first_reading_from(t, 0)),
        forall|t: Seq<char>|
            #![trigger first_reading_from(t, 0)]
            first_reading_from(t, 0) == match chrono_parse_datetime(t, "%Y-%m-%d %H:%M:%S"@) {
                Some(d) => Some(d),
                None => match chrono_parse_datetime(t, "%Y-%m-%d %H:%M"@) {
                    Some(d) => Some(d),
                    None => match chrono_parse_datetime(t, "%Y/%m/%d %H:%M:%S"@) {
                        Some(d) => Some(d),
                        None => chrono_parse_datetime(t, "%Y/%m/%d %H:%M"@),
                    },
                },
            },
{
    assert forall|t: Seq<char>|
        #![trigger first_reading_from(t, 0)]
        first_reading_from(t, 0) == match chrono_parse_datetime(t, "%Y-%m-%d %H:%M:%S"@) {
            Some(d) => Some(d),
            None => match chrono_parse_datetime(t, "%Y-%m-%d %H:%M"@) {
                Some(d) => Some(d),
                None => match chrono_parse_datetime(t, "%Y/%m/%d %H:%M:%S"@) {
                    Some(d) => Some(d),
                    None => chrono_parse_datetime(t, "%Y/%m/%d %H:%M"@),
                },
            },
        } by {
        reveal_with_fuel(first_reading_from, 5);
    }
}

/// The JSON object cut from the model's reply: the trimmed reply when it is
/// wrapped in braces; else the span from the first `{` to the last `}`,
/// both included (empty when that `}` comes just before that `{`); there is
/// none when the `}` comes earlier still.
pub proof fn json_is_cut_between_braces(content: Seq<char>)
    ensures
        ({
            let t = trim(content);
            t.len() > 0 && t[0] == '{' && t[t.len() - 1] == '}' ==> json_span(content) == Some(t)
        }),
        ({
            let t = trim(content);
            !(t.len() > 0 && t[0] == '{' && t[t.len() - 1] == '}') && (exists|i: int|
                0 <= i < content.len() && content[i] == '{') && (exists|k: int|
                0 <= k < content.len() && content[k] == '}') ==> match json_span(content) {
                Some(j) => (j.len() == 0 || (j.len() >= 2 && j[0] == '{' && j[j.len() - 1] == '}'))
                    && exists|a: int|
                    0 <= a && a + j.len() <= content.len() && #[trigger] content.subrange(a, a + j.len())
                        == j,
                None => exists|i: int, k: int|
                    0 <= k < i < content.len() && content[i] == '{' && content[k] == '}' && (forall|
                        m: int,
                    | 0 <= m < i ==> content[m] != '{') && (forall|m: int|
                        k < m < content.len() ==> content[m] != '}'),
            }
        }),
{
    let t = trim(content);
    if !(t.len() > 0 && t[0] == '{' && t[t.len() - 1] == '}') && (exists|i: int|
        0 <= i < content.len() && content[i] == '{') && (exists|k: int|
        0 <= k < content.len() && content[k] == '}') {
        lemma_first_index(content, '{');
        lemma_last_index(content, '}');
        let s = first_index_of(content, '{')->0;
        let e = last_index_of(content, '}')->0;
        if s <= e + 1 {
            let j = content.subrange(s, e + 1);
            if s < e + 1 {
                assert(content[s] != '}');
                assert(j[0] == content[s]);
                assert(j[j.len() - 1] == content[e]);
            }
            assert(content.subrange(s, s + j.len()) == j);
            assert(json_span(content) == Some(j));
            assert(j.len() == 0 || (j.len() >= 2 && j[0] == '{' && j[j.len() - 1] == '}'));
            assert(exists|a: int|
                0 <= a && a + j.len() <= content.len() && #[trigger] content.subrange(a, a + j.len())
                    == j);
        } else {
            assert(json_span(content) is None);
            assert(0 <= e < s < content.len() && content[s] == '{' && content[e] == '}' && (forall|m: int|
                0 <= m < s ==> content[m] != '{') && (forall|m: int|
                e < m < content.len() ==> content[m] != '}'));
        }
    }
}

proof fn lemma_first_index(s: Seq<char>, c: char)
    ensures
        (exists|i: int| 0 <= i < s.len() && s[i] == c) ==> (first_index_of(s, c) matches Some(f) && 0
            <= f < s.len() && s[f] == c && forall|j: int| 0 <= j < f ==> s[j] != c),
{
    if exists|i: int| 0 <= i < s.len() && s[i] == c {
        let i = choose|i: int| 0 <= i < s.len() && s[i] == c;
        lemma_some_first(s, c, i);
    }
}

proof fn lemma_some_first(s: Seq<char>, c: char, i: int)
    requires
        0 <= i < s.len(),
        s[i] == c,
    ensures
        exists|f: int| 0 <= f < s.len() && s[f] == c && forall|j: int| 0 <= j < f ==> s[j] != c,
    decreases i,
{
    if exists|j: int| 0 <= j < i && s[j] == c {
        let j = choose|j: int| 0 <= j < i && s[j] == c;
        lemma_some_first(s, c, j);
    } else {
        assert(forall|j: int| 0 <= j < i ==> s[j] != c);
    }
}

proof fn lemma_last_index(s: Seq<char>, c: char)
    ensures
        (exists|i: int| 0 <= i < s.len() && s[i] == c) ==> (last_index_of(s, c) matches Some(f) && 0
            <= f < s.len() && s[f] == c && forall|j: int| f < j < s.len() ==> s[j] != c),
{
    if exists|i: int| 0 <= i < s.len() && s[i] == c {
        let i = choose|i: int| 0 <= i < s.len() && s[i] == c;
        lemma_some_last(s, c, i);
    }
}

proof fn lemma_some_last(s: Seq<char>, c: char, i: int)
    requires
        0 <= i < s.len(),
        s[i] == c,
    ensures
        exists|f: int| 0 <= f < s.len() && s[f] == c && forall|j: int| f < j < s.len() ==> s[j] != c,
    decreases s.len() - i,
{
    if exists|j: int| i < j < s.len() && s[j] == c {
        let j = choose|j: int| i < j < s.len() && s[j] == c;
        lemma_some_last(s, c, j);
    } else {
        assert(forall|j: int| i < j < s.len() ==> s[j] != c);
    }
}

/// What a decoded reply gives: its error message, as "AI API 错误: " and the
/// message, when it carries one; else the text of its first answer; else
/// "AI 未返回有效结果". A refused request gives "AI API 请求失败: " and the
/// body, whatever the body holds.
pub proof fn reply_gives_first_answer(error: Option<Seq<char>>, contents: Seq<Seq<char>>)
    ensures
        error matches Some(m) ==> reply_content(error, contents) == Err::<Seq<char>, Seq<char>>(
            "AI API 错误: "@ + m,
        ),
        error is None && contents.len() > 0 ==> reply_content(error, contents) == Ok::<
            Seq<char>,
            Seq<char>,
        >(contents[0]),
        error is None && contents.len() == 0 ==> reply_content(error, contents) == Err::<
            Seq<char>,
            Seq<char>,
        >("AI 未返回有效结果"@),
        forall|body: Seq<char>, d: Result<(Option<Seq<char>>, Seq<Seq<char>>), Seq<char>>|
            #[trigger] reply_plan(false, body, d) == Err::<Seq<char>, Seq<char>>(
                "AI API 请求失败: "@ + body,
            ),
{
}

} // verus!
