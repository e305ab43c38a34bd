//! The steps of the `add` and `parse` commands.
//!
//! Each command alternates work that only the caller can do (building the
//! parser, calling the model, asking the user, running AppleScript) with
//! decisions; the decisions are the functions here. Each returns the
//! notices to show, in order, and what to do next.
use vstd::prelude::*;
use crate::parser::cors::{ParsedReminder, SpecParsedReminder};
use crate::cli::{add_success_message, add_success_text};
use crate::text::{join_seqs, join_strings, owned, push_str_chars, string_from_chars, views};

verus! {

/// How a notice is shown.
#[derive(Clone, Copy, Debug, PartialEq, Eq, Structural)]
pub enum NoticeKind {
    /// Printed as it is.
    Plain,
    /// Information (already left out in quiet mode).
    Info,
    Success,
    Error,
    Progress,
}

/// A message for the user.
#[derive(Debug, Clone)]
pub struct Notice {
    pub kind: NoticeKind,
    pub text: String,
}

pub open spec fn notice_views(v: Seq<Notice>) -> Seq<(NoticeKind, Seq<char>)> {
    v.map_values(|n: Notice| (n.kind, n.text@))
}

fn notice(kind: NoticeKind, text: String) -> (r: Notice)
    ensures
        r.kind == kind,
        r.text@ == text@,
{
    Notice { kind, text }
}

fn concat3(a: &str, b: &str, c: &str) -> (r: String)
    ensures
        r@ == a@ + b@ + c@,
{
    let mut v: Vec<char> = Vec::new();
    push_str_chars(&mut v, a);
    push_str_chars(&mut v, b);
    push_str_chars(&mut v, c);
    string_from_chars(&v)
}

/// The first step of either command: what to show, and the text to parse
/// when parsing is to go ahead. An empty description is refused; otherwise
/// the joined description is announced (unless quiet) and parsing goes
/// ahead when the parser could be made.
pub open spec fn start_spec(description: Seq<Seq<char>>, quiet: bool, parser_ready: Result<(), Seq<char>>) -> (
    Seq<(NoticeKind, Seq<char>)>,
    Option<Seq<char>>,
) {
    if description.len() == 0 {
        (seq![(NoticeKind::Error, "请提供提醒事项的描述"@)], None)
    } else {
        let input = join_seqs(description, " "@);
        let info: Seq<(NoticeKind, Seq<char>)> = if quiet {
            seq![]
        } else {
            seq![(NoticeKind::Info, "ℹ️ 正在解析: '"@ + input + "'"@)]
        };
        match parser_ready {
            Err(e) => (info.push((NoticeKind::Error, "❌ 初始化解析器失败: "@ + e)), None),
            Ok(()) => (info, Some(input)),
        }
    }
}

pub open spec fn unit_result_view(r: Result<(), String>) -> Result<(), Seq<char>> {
    match r {
        Ok(()) => Ok(()),
        Err(e) => Err(e@),
    }
}

/// The first step of `add` and `parse` (`handle_add`/`handle_parse` up to
/// parsing); `parser_ready` tells whether the parser could be made.
pub fn start_command(description: &[String], quiet: bool, parser_ready: &Result<(), String>) -> (r: (
    Vec<Notice>,
    Option<String>,
))
    ensures
        ({
            let (notices, input) = start_spec(views(description@), quiet, unit_result_view(*parser_ready));
            &&& notice_views(r.0@) == notices
            &&& match r.1 {
                Some(s) => input == Some(s@),
                None => input is None,
            }
        }),
{
    let mut notices: Vec<Notice> = Vec::new();
    if description.len() == 0 {
        notices.push(notice(NoticeKind::Error, owned("请提供提醒事项的描述")));
        assert(notice_views(notices@) =~= start_spec(views(description@), quiet, unit_result_view(*parser_ready)).0);
        return (notices, None);
    }
    let input = join_strings(description, " ");
    if !quiet {
        notices.push(notice(NoticeKind::Info, concat3("ℹ️ 正在解析: '", input.as_str(), "'")));
    }
    match parser_ready {
        Err(e) => {
            notices.push(notice(NoticeKind::Error, concat3("❌ 初始化解析器失败: ", e.as_str(), "")));
            proof {
                reveal_strlit("");
                assert(notice_views(notices@) =~= start_spec(views(description@), quiet, unit_result_view(*parser_ready)).0);
            }
            (notices, None)
        },
        Ok(()) => {
            assert(notice_views(notices@) =~= start_spec(views(description@), quiet, unit_result_view(*parser_ready)).0);
            (notices, Some(input))
        },
    }
}

pub open spec fn parsed_result_view(r: Result<ParsedReminder, String>) -> Result<SpecParsedReminder, Seq<char>> {
    match r {
        Ok(p) => Ok(p@),
        Err(e) => Err(e@),
    }
}

/// What `add` does with the parse: on failure, say so and stop; otherwise
/// move the result to the list named on the command line (if any) and
/// show it, asking before filing unless forced or testing.
pub open spec fn inspect_spec(
    parsed: Result<SpecParsedReminder, Seq<char>>,
    list: Option<Seq<char>>,
    force: bool,
    test: bool,
) -> (Seq<(NoticeKind, Seq<char>)>, Option<(SpecParsedReminder, bool)>) {
    match parsed {
        Err(e) => (seq![(NoticeKind::Error, "❌ 解析失败: "@ + e)], None),
        Ok(p) => {
            let q = match list {
                Some(l) => SpecParsedReminder { list: l, ..p },
                None => p,
            };
            (seq![], Some((q, !force && !test)))
        },
    }
}

/// The step of `add` after parsing: the notices, and the parse result to
/// show with whether to ask before filing it.
pub fn inspect_add(parsed: Result<ParsedReminder, String>, list: Option<String>, force: bool, test: bool) -> (r: (
    Vec<Notice>,
    Option<(ParsedReminder, bool)>,
))
    ensures
        ({
            let (notices, next) = inspect_spec(
                parsed_result_view(parsed),
                match list {
                    Some(l) => Some(l@),
                    None => None,
                },
                force,
                test,
            );
            &&& notice_views(r.0@) == notices
            &&& match r.1 {
                Some((p, ask)) => next == Some((p@, ask)),
                None => next is None,
            }
        }),
{
    let mut notices: Vec<Notice> = Vec::new();
    match parsed {
        Err(e) => {
            notices.push(notice(NoticeKind::Error, concat3("❌ 解析失败: ", e.as_str(), "")));
            proof {
                reveal_strlit("");
            }
            assert(notice_views(notices@) =~= seq![(NoticeKind::Error, "❌ 解析失败: "@ + e@)]);
            (notices, None)
        },
        Ok(p) => {
            let q = match list {
                Some(l) => p.with_list(l),
                None => p,
            };
            assert(notice_views(notices@) =~= seq![]);
            (notices, Some((q, !force && !test)))
        },
    }
}

/// What `add` does once the user has been asked (`answer` is `None` when
/// not asked): stop on a no (saying so unless quiet); in test mode report
/// success without filing; otherwise announce filing and file.
pub open spec fn decide_spec(answer: Option<bool>, test: bool, quiet: bool) -> (
    Seq<(NoticeKind, Seq<char>)>,
    bool,
) {
    if answer == Some(false) {
        (
            if quiet {
                seq![]
            } else {
                seq![(NoticeKind::Info, "已取消"@)]
            },
            false,
        )
    } else if test {
        (seq![(NoticeKind::Success, "测试模式 - 解析成功，不会实际创建提醒事项"@)], false)
    } else {
        (seq![(NoticeKind::Progress, "⏳ 正在创建提醒事项..."@)], true)
    }
}

/// The step of `add` after asking: the notices, and whether to file.
pub fn decide_add(answer: Option<bool>, test: bool, quiet: bool) -> (r: (Vec<Notice>, bool))
    ensures
        notice_views(r.0@) == decide_spec(answer, test, quiet).0,
        r.1 == decide_spec(answer, test, quiet).1,
{
    let mut notices: Vec<Notice> = Vec::new();
    let declined = match answer {
        Some(a) => !a,
        None => false,
    };
    if declined {
        if !quiet {
            notices.push(notice(NoticeKind::Info, owned("已取消")));
        }
        assert(notice_views(notices@) =~= decide_spec(answer, test, quiet).0);
        return (notices, false);
    }
    if test {
        notices.push(notice(NoticeKind::Success, owned("测试模式 - 解析成功，不会实际创建提醒事项")));
        assert(notice_views(notices@) =~= decide_spec(answer, test, quiet).0);
        return (notices, false);
    }
    notices.push(notice(NoticeKind::Progress, owned("⏳ 正在创建提醒事项...")));
    assert(notice_views(notices@) =~= decide_spec(answer, test, quiet).0);
    (notices, true)
}

/// The last step of `add`: success with the title and list, or the
/// failure.
pub open spec fn finish_add_spec(title: Seq<char>, list: Seq<char>, created: Result<(), Seq<char>>) -> Seq<
    (NoticeKind, Seq<char>),
> {
    match created {
        Ok(()) => seq![(NoticeKind::Success, add_success_text(title, list))],
        Err(e) => seq![(NoticeKind::Error, "❌ 创建失败: "@ + e)],
    }
}

pub fn finish_add(title: &str, list: &str, created: &Result<(), String>) -> (r: Vec<Notice>)
    ensures
        notice_views(r@) == finish_add_spec(title@, list@, unit_result_view(*created)),
{
    let mut notices: Vec<Notice> = Vec::new();
    match created {
        Ok(()) => {
            notices.push(notice(NoticeKind::Success, add_success_message(title, list)));
        },
        Err(e) => {
            notices.push(notice(NoticeKind::Error, concat3("❌ 创建失败: ", e.as_str(), "")));
            proof {
                reveal_strlit("");
            }
        },
    }
    assert(notice_views(notices@) =~= finish_add_spec(title@, list@, unit_result_view(*created)));
    notices
}

/// What `parse` shows of the parse: a heading before the full result, or
/// the failure.
pub open spec fn report_spec(parsed: Result<SpecParsedReminder, Seq<char>>) -> Seq<
    (NoticeKind, Seq<char>),
> {
    match parsed {
        Ok(_) => seq![(NoticeKind::Plain, "\n📋 详细解析结果:"@)],
        Err(e) => seq![(NoticeKind::Error, "❌ 解析失败: "@ + e)],
    }
}

/// The step of `parse` after parsing (the full result is shown after the
/// notices when the parse succeeded).
pub fn report_parse(parsed: &Result<ParsedReminder, String>) -> (r: Vec<Notice>)
    ensures
        notice_views(r@) == report_spec(parsed_result_view(*parsed)),
{
    let mut notices: Vec<Notice> = Vec::new();
    match parsed {
        Ok(_) => {
            notices.push(notice(NoticeKind::Plain, owned("\n📋 详细解析结果:")));
        },
        Err(e) => {
            notices.push(notice(NoticeKind::Error, concat3("❌ 解析失败: ", e.as_str(), "")));
            proof {
                reveal_strlit("");
            }
        },
    }
    assert(notice_views(notices@) =~= report_spec(parsed_result_view(*parsed)));
    notices
}

// ---------------------------------------------------------------------------
// Laws of the `add` command
// ---------------------------------------------------------------------------

/// Test mode only parses: it never files a reminder, whatever the answer.
pub proof fn test_mode_never_files(answer: Option<bool>, quiet: bool)
    ensures
        !decide_spec(answer, true, quiet).1,
{
}

/// A reminder the user declined is never filed.
pub proof fn declined_never_files(test: bool, quiet: bool)
    ensures
        !decide_spec(Some(false), test, quiet).1,
{
}

/// Force mode (and test mode) never asks before filing.
pub proof fn forced_never_asks(
    parsed: Result<SpecParsedReminder, Seq<char>>,
    list: Option<Seq<char>>,
    force: bool,
    test: bool,
)
    requires
        force || test,
    ensures
        inspect_spec(parsed, list, force, test).1 matches Some((_, ask)) ==> !ask,
{
}

/// A list named on the command line wins over the list the parse found;
/// nothing else of the parse result changes.
pub proof fn list_option_wins(p: SpecParsedReminder, list: Seq<char>, force: bool, test: bool)
    ensures
        inspect_spec(Ok(p), Some(list), force, test).1 matches Some((q, _)) && q == (SpecParsedReminder { list: list, ..p }),
{
}

/// Both commands go ahead exactly when the description has words and the
/// parser could be made, and they parse the words joined by single spaces;
/// an empty description is refused whatever else holds.
pub proof fn commands_start_on_the_joined_words(
    description: Seq<Seq<char>>,
    quiet: bool,
    parser_ready: Result<(), Seq<char>>,
)
    ensures
        start_spec(description, quiet, parser_ready).1 is Some <==> description.len() > 0
            && parser_ready is Ok,
        start_spec(description, quiet, parser_ready).1 matches Some(input) ==> input == join_seqs(
            description,
            " "@,
        ),
        description.len() == 0 ==> start_spec(description, quiet, parser_ready).0 == seq![
            (NoticeKind::Error, "请提供提醒事项的描述"@),
        ],
{
}

/// What the commands report of a parse and of filing: the `parse` command
/// shows a heading before the full result, or "❌ 解析失败: " and the
/// failure; `add` shows its success text with the title and list, or
/// "❌ 创建失败: " and the failure.
pub proof fn reports_of_parse_and_filing(
    parsed: Result<SpecParsedReminder, Seq<char>>,
    title: Seq<char>,
    list: Seq<char>,
    created: Result<(), Seq<char>>,
)
    ensures
        parsed is Ok ==> report_spec(parsed) == seq![(NoticeKind::Plain, "\n📋 详细解析结果:"@)],
        parsed matches Err(e) ==> report_spec(parsed) == seq![(NoticeKind::Error, "❌ 解析失败: "@ + e)],
        created is Ok ==> finish_add_spec(title, list, created) == seq![
            (NoticeKind::Success, add_success_text(title, list)),
        ],
        created matches Err(e) ==> finish_add_spec(title, list, created) == seq![
            (NoticeKind::Error, "❌ 创建失败: "@ + e),
        ],
{
}

} // verus!
