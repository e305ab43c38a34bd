//! What the command line shows and decides.
//!
//! Argument parsing, reading the answer to a question and printing are left
//! to the caller; this module decides what to say and what to do next.
use vstd::prelude::*;
use crate::parser::cors::{ParsedReminder, SpecParsedReminder};
use crate::reminder::{datetime_text, priority_name, push_datetime, recurrence_name};
use crate::text::{
    join_seqs, join_strings, owned, push_str_chars, string_from_chars, to_lowercase,
    trim, trim_str, unicode_lowercase, views,
};

verus! {

/// A command given on the command line.
pub enum ParsedCommand {
    /// Parse a description and file it as a reminder.
    Add {
        description: Vec<String>,
        force: bool,
        list: Option<String>,
        test: bool,
        quiet: bool,
    },
    /// Parse a description and show everything read from it.
    Parse { description: Vec<String>, quiet: bool },
}

/// The description's words joined by single spaces.
pub fn parse_description_args(args: &[String]) -> (r: String)
    ensures
        r@ == join_seqs(views(args@), " "@),
{
    join_strings(args, " ")
}

/// The question asked before filing, with the default answer marked.
pub open spec fn confirm_prompt_text(prompt: Seq<char>, default_yes: bool) -> Seq<char> {
    prompt + if default_yes {
        " [Y/n]: "@
    } else {
        " [y/N]: "@
    }
}

pub fn confirm_prompt(prompt: &str, default_yes: bool) -> (r: String)
    ensures
        r@ == confirm_prompt_text(prompt@, default_yes),
{
    let mut v: Vec<char> = Vec::new();
    push_str_chars(&mut v, prompt);
    push_str_chars(&mut v, if default_yes { " [Y/n]: " } else { " [y/N]: " });
    string_from_chars(&v)
}

/// Whether an answer means yes: `y` or `yes` in any letter case around
/// whitespace, or nothing at all when yes is the default.
pub open spec fn confirms(answer: Seq<char>, default_yes: bool) -> bool {
    let a = unicode_lowercase(trim(answer));
    if default_yes {
        a.len() == 0 || a == "y"@ || a == "yes"@
    } else {
        a == "y"@ || a == "yes"@
    }
}

/// Reads the answer to the question (`confirm` once the line is read).
pub fn confirm_answer(input: &str, default_yes: bool) -> (r: bool)
    ensures
        r == confirms(input@, default_yes),
{
    let t = trim_str(input);
    let a = to_lowercase(t.as_str());
    let y = owned("y");
    let yes = owned("yes");
    if default_yes {
        a.as_str().is_empty() || a == y || a == yes
    } else {
        a == y || a == yes
    }
}

/// The box's top edge.
pub open spec fn box_top() -> Seq<char> {
    "  ┌─────────────────────────────────────────────┐"@
}

/// The box's bottom edge.
pub open spec fn box_bottom() -> Seq<char> {
    "  └─────────────────────────────────────────────┘"@
}

/// The lines of the summary shown after parsing.
pub open spec fn summary_lines(p: SpecParsedReminder) -> Seq<Seq<char>> {
    let a = seq!["\n📋 解析结果:"@, box_top(), "  │ 标题: "@ + p.title];
    let b = match p.due_date {
        Some(d) => a.push("  │ 截止时间: "@ + datetime_text(d)),
        None => a,
    };
    let c = b.push("  │ 优先级: "@ + priority_name(p.priority));
    let d = if p.is_urgent {
        c.push("  │ 是否紧急: 是"@)
    } else {
        c
    };
    let e = if !(p.recurrence is NoRepeat) {
        d.push("  │ 重复: "@ + recurrence_name(p.recurrence))
    } else {
        d
    };
    let f = e.push("  │ 列表: "@ + p.list);
    let g = if p.tags.len() > 0 {
        f.push("  │ 标签: "@ + join_seqs(p.tags, ", "@))
    } else {
        f
    };
    let h = match p.location {
        Some(l) => g.push("  │ 位置: "@ + l.name),
        None => g,
    };
    h.push(box_bottom())
}

fn line_of(parts: &Vec<char>) -> (r: String)
    ensures
        r@ == parts@,
{
    string_from_chars(parts)
}

fn labelled(label: &str, value: &str) -> (r: String)
    ensures
        r@ == label@ + value@,
{
    let mut v: Vec<char> = Vec::new();
    push_str_chars(&mut v, label);
    push_str_chars(&mut v, value);
    string_from_chars(&v)
}

/// The summary shown after parsing (`show_parsed_summary`, one string per
/// printed line).
pub fn parsed_summary_lines(parsed: &ParsedReminder) -> (r: Vec<String>)
    ensures
        views(r@) == summary_lines(parsed@),
{
    let ghost p = parsed@;
    let mut lines: Vec<String> = Vec::new();
    lines.push(owned("\n📋 解析结果:"));
    lines.push(owned("  ┌─────────────────────────────────────────────┐"));
    lines.push(labelled("  │ 标题: ", parsed.title.as_str()));
    if let Some(d) = parsed.due_date {
        let mut v: Vec<char> = Vec::new();
        push_str_chars(&mut v, "  │ 截止时间: ");
        push_datetime(&mut v, d);
        lines.push(line_of(&v));
    }
    let pn = parsed.priority.display_name();
    lines.push(labelled("  │ 优先级: ", pn.as_str()));
    if parsed.is_urgent {
        lines.push(owned("  │ 是否紧急: 是"));
    }
    if !matches!(parsed.recurrence, crate::cors::Recurrence::NoRepeat) {
        let rn = parsed.recurrence.display_name();
        lines.push(labelled("  │ 重复: ", rn.as_str()));
    }
    lines.push(labelled("  │ 列表: ", parsed.list.as_str()));
    if parsed.tags.len() > 0 {
        let j = join_strings(parsed.tags.as_slice(), ", ");
        lines.push(labelled("  │ 标签: ", j.as_str()));
    }
    if let Some(l) = &parsed.location {
        lines.push(labelled("  │ 位置: ", l.name.as_str()));
    }
    lines.push(owned("  └─────────────────────────────────────────────┘"));
    assert(views(lines@) =~= summary_lines(p));
    lines
}

/// The message shown once a reminder is filed.
pub open spec fn add_success_text(title: Seq<char>, list: Seq<char>) -> Seq<char> {
    "已添加 '"@ + title + "' 到列表 '"@ + list + "'"@
}

/// The message `show_add_success` shows.
pub fn add_success_message(title: &str, list: &str) -> (r: String)
    ensures
        r@ == add_success_text(title@, list@),
{
    let mut v: Vec<char> = Vec::new();
    push_str_chars(&mut v, "已添加 '");
    push_str_chars(&mut v, title);
    push_str_chars(&mut v, "' 到列表 '");
    push_str_chars(&mut v, list);
    push_str_chars(&mut v, "'");
    string_from_chars(&v)
}

/// The answer to the question before filing: `y` or `yes`, in any letter
/// case and with surrounding spaces, means yes; an empty answer takes the
/// default; anything else means no.
pub proof fn answer_meaning(answer: Seq<char>, default_yes: bool)
    ensures
        ({
            let a = unicode_lowercase(trim(answer));
            &&& (a == "y"@ || a == "yes"@) ==> confirms(answer, default_yes)
            &&& a.len() == 0 ==> confirms(answer, default_yes) == default_yes
            &&& (a.len() > 0 && a != "y"@ && a != "yes"@) ==> !confirms(answer, default_yes)
        }),
{
    reveal_strlit("y");
    reveal_strlit("yes");
}

/// The summary shows, in a box, the title, the priority and the list of the
/// parse result, the due date when there is one, the urgency when urgent,
/// the recurrence when it repeats, the tags when there are any and the
/// place when there is one.
pub proof fn summary_shows_the_result(p: SpecParsedReminder)
    ensures
        summary_lines(p)[0] == "\n📋 解析结果:"@,
        summary_lines(p)[1] == box_top(),
        summary_lines(p)[2] == "  │ 标题: "@ + p.title,
        summary_lines(p).last() == box_bottom(),
        summary_lines(p).contains("  │ 优先级: "@ + priority_name(p.priority)),
        summary_lines(p).contains("  │ 列表: "@ + p.list),
        p.due_date matches Some(d) ==> summary_lines(p).contains("  │ 截止时间: "@ + datetime_text(d)),
        p.is_urgent ==> summary_lines(p).contains("  │ 是否紧急: 是"@),
        !(p.recurrence is NoRepeat) ==> summary_lines(p).contains("  │ 重复: "@ + recurrence_name(p.recurrence)),
        p.tags.len() > 0 ==> summary_lines(p).contains("  │ 标签: "@ + join_seqs(p.tags, ", "@)),
        p.location matches Some(l) ==> summary_lines(p).contains("  │ 位置: "@ + l.name),
{
    let a = seq!["\n📋 解析结果:"@, box_top(), "  │ 标题: "@ + p.title];
    let b = match p.due_date {
        Some(d) => a.push("  │ 截止时间: "@ + datetime_text(d)),
        None => a,
    };
    let c = b.push("  │ 优先级: "@ + priority_name(p.priority));
    let d = if p.is_urgent {
        c.push("  │ 是否紧急: 是"@)
    } else {
        c
    };
    let e = if !(p.recurrence is NoRepeat) {
        d.push("  │ 重复: "@ + recurrence_name(p.recurrence))
    } else {
        d
    };
    let f = e.push("  │ 列表: "@ + p.list);
    let g = if p.tags.len() > 0 {
        f.push("  │ 标签: "@ + join_seqs(p.tags, ", "@))
    } else {
        f
    };
    let h = match p.location {
        Some(l) => g.push("  │ 位置: "@ + l.name),
        None => g,
    };
    let all = h.push(box_bottom());
    assert(all == summary_lines(p));
    if let Some(dd) = p.due_date {
        assert(all[3] == "  │ 截止时间: "@ + datetime_text(dd));
    }
    assert(all[c.len() - 1] == "  │ 优先级: "@ + priority_name(p.priority));
    if p.is_urgent {
        assert(all[d.len() - 1] == "  │ 是否紧急: 是"@);
    }
    if !(p.recurrence is NoRepeat) {
        assert(all[e.len() - 1] == "  │ 重复: "@ + recurrence_name(p.recurrence));
    }
    assert(all[f.len() - 1] == "  │ 列表: "@ + p.list);
    if p.tags.len() > 0 {
        assert(all[g.len() - 1] == "  │ 标签: "@ + join_seqs(p.tags, ", "@));
    }
    if let Some(l) = p.location {
        assert(all[h.len() - 1] == "  │ 位置: "@ + l.name);
    }
}

} // verus!
