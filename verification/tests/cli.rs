use reminders::cli::{
    add_success_message, confirm_answer, confirm_prompt, parse_description_args,
    parsed_summary_lines, ParsedCommand,
};
use reminders::commands::{
    decide_add, finish_add, report_parse, inspect_add, start_command, NoticeKind,
};
use reminders::cors::{Priority, Recurrence};
use reminders::datetime::LocalDateTime;
use reminders::parser::cors::ParsedReminder;

fn sample() -> ParsedReminder {
    ParsedReminder {
        title: "开会".to_string(),
        due_date: Some(LocalDateTime { year: 2024, month: 5, day: 16, hour: 15, minute: 0, second: 0 }),
        start_date: None,
        priority: Priority::High,
        is_urgent: true,
        recurrence: Recurrence::Weekly,
        location: None,
        reminder_minutes: vec![0],
        tags: vec!["工作".to_string(), "周会".to_string()],
        list: "工作".to_string(),
    }
}

#[test]
fn description_words_are_joined() {
    assert_eq!(parse_description_args(&["明天".to_string(), "开会".to_string()]), "明天 开会");
    assert_eq!(parse_description_args(&[]), "");
    assert_eq!(parse_description_args(&["一".to_string()]), "一");
}

#[test]
fn confirmation() {
    assert_eq!(confirm_prompt("确认添加？", true), "确认添加？ [Y/n]: ");
    assert_eq!(confirm_prompt("确认添加？", false), "确认添加？ [y/N]: ");
    assert!(confirm_answer("\n", true));
    assert!(!confirm_answer("\n", false));
    assert!(confirm_answer(" YES \n", false));
    assert!(confirm_answer("y", false));
    assert!(!confirm_answer("no", true));
    assert!(!confirm_answer("yep", true));
}

#[test]
fn summary_lines() {
    let lines = parsed_summary_lines(&sample());
    assert_eq!(
        lines,
        vec![
            "\n📋 解析结果:".to_string(),
            "  ┌─────────────────────────────────────────────┐".to_string(),
            "  │ 标题: 开会".to_string(),
            "  │ 截止时间: 2024-05-16 15:00".to_string(),
            "  │ 优先级: 高".to_string(),
            "  │ 是否紧急: 是".to_string(),
            "  │ 重复: 每周".to_string(),
            "  │ 列表: 工作".to_string(),
            "  │ 标签: 工作, 周会".to_string(),
            "  └─────────────────────────────────────────────┘".to_string(),
        ]
    );
}

#[test]
fn success_message() {
    assert_eq!(add_success_message("开会", "工作"), "已添加 '开会' 到列表 '工作'");
}

#[test]
fn command_values() {
    let c = ParsedCommand::Parse { description: vec!["x".to_string()], quiet: true };
    assert!(matches!(c, ParsedCommand::Parse { quiet: true, .. }));
}

#[test]
fn add_flow_start() {
    let (notices, input) = start_command(&[], false, &Ok(()));
    assert_eq!(notices.len(), 1);
    assert_eq!(notices[0].kind, NoticeKind::Error);
    assert_eq!(notices[0].text, "请提供提醒事项的描述");
    assert_eq!(input, None);

    let words = vec!["明天".to_string(), "开会".to_string()];
    let (notices, input) = start_command(&words, false, &Ok(()));
    assert_eq!(notices[0].kind, NoticeKind::Info);
    assert_eq!(notices[0].text, "ℹ️ 正在解析: '明天 开会'");
    assert_eq!(input, Some("明天 开会".to_string()));

    let (notices, input) = start_command(&words, true, &Err("config".to_string()));
    assert_eq!(notices.len(), 1);
    assert_eq!(notices[0].kind, NoticeKind::Error);
    assert_eq!(notices[0].text, "❌ 初始化解析器失败: config");
    assert_eq!(input, None);
}

#[test]
fn add_flow_inspect_and_decide() {
    let (notices, next) = inspect_add(Err("坏".to_string()), None, false, false);
    assert_eq!(notices[0].text, "❌ 解析失败: 坏");
    assert!(next.is_none());

    let (notices, next) = inspect_add(Ok(sample()), Some("家".to_string()), false, false);
    assert!(notices.is_empty());
    let (p, ask) = next.unwrap();
    assert_eq!(p.list, "家");
    assert!(ask);
    let (_, next) = inspect_add(Ok(sample()), None, true, false);
    assert!(!next.unwrap().1);

    let (notices, create) = decide_add(Some(false), false, false);
    assert!(!create);
    assert_eq!(notices[0].text, "已取消");
    let (notices, create) = decide_add(Some(false), false, true);
    assert!(!create && notices.is_empty());
    let (notices, create) = decide_add(None, true, false);
    assert!(!create);
    assert_eq!(notices[0].kind, NoticeKind::Success);
    let (notices, create) = decide_add(Some(true), false, false);
    assert!(create);
    assert_eq!(notices[0].kind, NoticeKind::Progress);
    assert_eq!(notices[0].text, "⏳ 正在创建提醒事项...");
}

#[test]
fn add_flow_finish_and_parse_report() {
    let n = finish_add("开会", "工作", &Ok(()));
    assert_eq!(n[0].kind, NoticeKind::Success);
    assert_eq!(n[0].text, "已添加 '开会' 到列表 '工作'");
    let n = finish_add("开会", "工作", &Err("x".to_string()));
    assert_eq!(n[0].text, "❌ 创建失败: x");
    let n = report_parse(&Ok(sample()));
    assert_eq!(n[0].kind, NoticeKind::Plain);
    let n = report_parse(&Err("y".to_string()));
    assert_eq!(n[0].text, "❌ 解析失败: y");
}
