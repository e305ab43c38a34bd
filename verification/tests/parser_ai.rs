use reminders::config::{AppConfig, ConfigManager};
use reminders::cors::{Priority, Recurrence};
use reminders::datetime::LocalDateTime;
use reminders::parser::parser_ai::{
    ai_json_content, ai_ready, ai_reply_content, ai_reply_json, ai_request_failure,
    extract_json_content, generate_prompt, parse_datetime_string,
    parse_priority, parse_recurrence, parsed_from_ai, priority_from_lowercase,
    recurrence_from_lowercase, AiLocation, AiReminderFields,
};

#[test]
fn test_parse_datetime_string() {
    assert!(parse_datetime_string(&Some("2024-01-01 12:00:00".to_string())).is_some());
    assert!(parse_datetime_string(&Some("null".to_string())).is_none());
    assert!(parse_datetime_string(&Some("".to_string())).is_none());
    assert!(parse_datetime_string(&None).is_none());
}

#[test]
fn datetime_strings_in_every_format() {
    let want = LocalDateTime { year: 2024, month: 1, day: 2, hour: 13, minute: 4, second: 5 };
    assert_eq!(parse_datetime_string(&Some("2024-01-02 13:04:05".to_string())), Some(want));
    assert_eq!(
        parse_datetime_string(&Some("2024/01/02 13:04".to_string())),
        Some(LocalDateTime { second: 0, ..want })
    );
    assert_eq!(
        parse_datetime_string(&Some("2024-01-02 13:04".to_string())),
        Some(LocalDateTime { second: 0, ..want })
    );
    assert_eq!(parse_datetime_string(&Some("2024/01/02 13:04:05".to_string())), Some(want));
    assert_eq!(parse_datetime_string(&Some("NULL".to_string())), None);
    assert_eq!(parse_datetime_string(&Some("tomorrow".to_string())), None);
    assert_eq!(parse_datetime_string(&Some("2023-02-30 10:00".to_string())), None);
}

#[test]
fn test_parse_priority() {
    assert_eq!(parse_priority("none"), Priority::NoPriority);
    assert_eq!(parse_priority("low"), Priority::Low);
    assert_eq!(parse_priority("medium"), Priority::Medium);
    assert_eq!(parse_priority("high"), Priority::High);
    assert_eq!(parse_priority("unknown"), Priority::Medium);
}

#[test]
fn priority_words_in_any_case() {
    assert_eq!(parse_priority("HIGH"), Priority::High);
    assert_eq!(parse_priority("Low"), Priority::Low);
    assert_eq!(priority_from_lowercase("HIGH"), Priority::Medium);
    assert_eq!(priority_from_lowercase("none"), Priority::NoPriority);
}

#[test]
fn test_parse_recurrence() {
    assert!(matches!(parse_recurrence("daily"), Recurrence::Daily));
    assert!(matches!(parse_recurrence("weekly"), Recurrence::Weekly));
    assert!(matches!(parse_recurrence("none"), Recurrence::NoRepeat));
    assert!(matches!(parse_recurrence("unknown"), Recurrence::NoRepeat));
}

#[test]
fn recurrence_words() {
    assert!(matches!(parse_recurrence("Monthly"), Recurrence::Monthly));
    assert!(matches!(parse_recurrence("YEARLY"), Recurrence::Yearly));
    assert!(matches!(parse_recurrence("weekdays"), Recurrence::Weekdays));
    assert!(matches!(parse_recurrence("weekends"), Recurrence::Weekends));
    match parse_recurrence("Custom") {
        Recurrence::Custom(s) => assert_eq!(s, "custom"),
        _ => panic!("expected a custom rule"),
    }
    assert!(matches!(recurrence_from_lowercase("Daily"), Recurrence::NoRepeat));
}

#[test]
fn test_generate_prompt() {
    let config_manager = ConfigManager::from_config(AppConfig::default());
    let prompt = generate_prompt(
        "明天下午3点开会",
        "2024-01-01 12:00:00",
        config_manager.get_default_list(),
    );
    assert!(prompt.contains("明天下午3点开会"));
    assert!(prompt.contains("当前时间：") || prompt.contains("Current time:"));
}

#[test]
fn prompt_fills_every_placeholder() {
    let prompt = generate_prompt("IN", "NOW", "LIST");
    assert!(prompt.contains("输入：IN\n"));
    assert!(prompt.contains("当前时间：NOW\n"));
    assert!(prompt.contains("否则使用 \"LIST\"\n"));
    assert!(!prompt.contains("{input}"));
    assert!(!prompt.contains("{current_time}"));
    assert!(!prompt.contains("{default_list}"));
    assert!(prompt.contains("{{\n  \"title\""));
}

#[test]
fn json_is_cut_from_the_reply() {
    assert_eq!(extract_json_content("  {\"a\":1}  ").unwrap(), "{\"a\":1}");
    assert_eq!(
        extract_json_content("Here: {\"a\":{\"b\":2}} done").unwrap(),
        "{\"a\":{\"b\":2}}"
    );
    assert_eq!(extract_json_content("no braces").unwrap(), "no braces");
    assert_eq!(extract_json_content("text {\"a\":1").unwrap(), "{\"a\":1");
    assert_eq!(extract_json_content("} then {"), None);
}

#[test]
fn reply_content_checks() {
    assert_eq!(
        ai_reply_content(Some("quota".to_string()), vec!["x".to_string()]),
        Err("AI API 错误: quota".to_string())
    );
    assert_eq!(ai_reply_content(None, vec![]), Err("AI 未返回有效结果".to_string()));
    assert_eq!(
        ai_reply_content(None, vec!["first".to_string(), "second".to_string()]),
        Ok("first".to_string())
    );
}

#[test]
fn model_fields_become_a_parse_result() {
    let fields = AiReminderFields {
        title: "开会".to_string(),
        due_date: Some("2024-05-06 15:00:00".to_string()),
        start_date: Some("null".to_string()),
        priority: "High".to_string(),
        is_urgent: true,
        recurrence: "weekly".to_string(),
        location: Some(AiLocation { name: "会议室".to_string(), address: None }),
        reminder_minutes: vec![10],
        tags: vec!["工作".to_string()],
        list: "工作".to_string(),
    };
    let p = parsed_from_ai(fields);
    assert_eq!(p.title, "开会");
    assert_eq!(
        p.due_date,
        Some(LocalDateTime { year: 2024, month: 5, day: 6, hour: 15, minute: 0, second: 0 })
    );
    assert_eq!(p.start_date, None);
    assert_eq!(p.priority, Priority::High);
    assert!(p.is_urgent);
    assert!(matches!(p.recurrence, Recurrence::Weekly));
    assert_eq!(p.location.unwrap().name, "会议室");
    assert_eq!(p.reminder_minutes, vec![10]);
    assert_eq!(p.tags, vec!["工作".to_string()]);
    assert_eq!(p.list, "工作");
}

#[test]
fn model_needs_a_configuration() {
    let unset = ConfigManager::from_config(AppConfig::default());
    assert_eq!(ai_ready(&unset), Err("AI 未配置".to_string()));
    let mut config = AppConfig::default();
    config.ai.api_key = "key".to_string();
    config.use_ai = true;
    assert_eq!(ai_ready(&ConfigManager::from_config(config)), Ok(()));
}

#[test]
fn refused_request_message() {
    assert_eq!(ai_request_failure("quota exceeded"), "AI API 请求失败: quota exceeded");
    assert_eq!(ai_request_failure(""), "AI API 请求失败: ");
}

#[test]
fn service_answers_to_json() {
    let ok = Ok((None, vec!["前言 {\"title\": \"x\"} 后记".to_string()]));
    assert_eq!(ai_reply_json(true, "{...}", ok), Ok("{\"title\": \"x\"}".to_string()));
    assert_eq!(
        ai_reply_json(false, "denied", Err(String::new())),
        Err("AI API 请求失败: denied".to_string())
    );
    assert_eq!(ai_reply_json(true, "x", Err("bad json".to_string())), Err("bad json".to_string()));
    assert_eq!(
        ai_reply_json(true, "x", Ok((None, vec![]))),
        Err("AI 未返回有效结果".to_string())
    );
    assert_eq!(
        ai_reply_json(true, "x", Ok((Some("quota".to_string()), vec!["{}".to_string()]))),
        Err("AI API 错误: quota".to_string())
    );
    assert_eq!(
        ai_reply_json(true, "x", Ok((None, vec!["} {".to_string()]))),
        Err("AI 返回的内容中没有 JSON 对象".to_string())
    );
    assert_eq!(ai_json_content("} {"), Err("AI 返回的内容中没有 JSON 对象".to_string()));
}
