use reminders::config::{AIConfig, AppConfig, ConfigManager};
use reminders::cors::{Priority, Recurrence};
use reminders::hybrid_parser::HybridParser;
use reminders::parser::cors::ParsedReminder;

fn manager(key: &str, use_ai: bool) -> ConfigManager {
    ConfigManager::from_config(AppConfig {
        ai: AIConfig { api_url: "u".to_string(), api_key: key.to_string(), model: "m".to_string() },
        default_list: "收件箱".to_string(),
        default_reminder_minutes: vec![15, 30],
        use_ai,
    })
}

fn model_result(list: &str, minutes: Vec<i32>) -> ParsedReminder {
    ParsedReminder {
        title: "AI".to_string(),
        due_date: None,
        start_date: None,
        priority: Priority::High,
        is_urgent: false,
        recurrence: Recurrence::NoRepeat,
        location: None,
        reminder_minutes: minutes,
        tags: vec![],
        list: list.to_string(),
    }
}

#[test]
fn defaults_fill_only_what_is_missing() {
    let h = HybridParser::from_config(manager("", false), true);
    let filled = h.apply_defaults(model_result("", vec![]));
    assert_eq!(filled.list, "收件箱");
    assert_eq!(filled.reminder_minutes, vec![15, 30]);
    let kept = h.apply_defaults(model_result("我的", vec![5]));
    assert_eq!(kept.list, "我的");
    assert_eq!(kept.reminder_minutes, vec![5]);
    // filling twice changes nothing more
    let twice = h.apply_defaults(h.apply_defaults(model_result("", vec![])));
    assert_eq!(twice.list, filled.list);
    assert_eq!(twice.reminder_minutes, filled.reminder_minutes);
}

#[test]
fn model_success_is_used() {
    let h = HybridParser::from_config(manager("key", true), false);
    assert!(h.uses_ai());
    assert_eq!(h.start_notes(), vec!["🤖 使用 AI 解析...".to_string()]);
    let (notes, result) = h.finish_parse("买牛奶", Some(Ok(model_result("", vec![]))));
    assert_eq!(notes, vec!["✅ AI 解析成功".to_string()]);
    let p = result.unwrap();
    assert_eq!(p.title, "AI");
    assert_eq!(p.list, "收件箱");
}

#[test]
fn model_failure_falls_back_to_rules() {
    let h = HybridParser::from_config(manager("key", true), false);
    let (notes, result) = h.finish_parse("每天早上8点吃药", Some(Err("timeout".to_string())));
    assert_eq!(
        notes,
        vec![
            "⚠️  AI 解析失败：timeout，回退到正则解析".to_string(),
            "✅ 正则解析成功".to_string()
        ]
    );
    let p = result.unwrap();
    assert!(matches!(p.recurrence, Recurrence::Daily));
    assert_eq!(p.title, "吃药");
    assert_eq!(p.list, "收件箱");
    assert_eq!(p.reminder_minutes, vec![0]);
}

#[test]
fn without_model_the_rules_are_used() {
    let h = HybridParser::from_config(manager("", true), false);
    assert!(!h.uses_ai());
    assert_eq!(h.start_notes(), vec!["📝 使用正则解析（未配置 AI）".to_string()]);
    let quiet = HybridParser::from_config(manager("", true), true);
    assert!(quiet.start_notes().is_empty());
    let (notes, result) = quiet.finish_parse("买牛奶", None);
    assert!(notes.is_empty());
    assert_eq!(result.unwrap().title, "买牛奶");
}
