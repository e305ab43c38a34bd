use reminders::cors::{Location, Priority, Recurrence};
use reminders::datetime::LocalDateTime;
use reminders::parser::cors::ParsedReminder;
use reminders::reminder::Reminder;

#[test]
fn test_new_reminder() {
    let reminder = Reminder::new("测试事项".to_string()).with_list("默认列表".to_string());
    assert_eq!(reminder.title, "测试事项");
    assert_eq!(reminder.list, "默认列表");
    assert_eq!(reminder.priority, Priority::Medium);
    assert!(!reminder.is_urgent);
    assert_eq!(reminder.reminder_minutes, vec![0]);
}

#[test]
fn test_reminder_builder() {
    let due_date = LocalDateTime { year: 2024, month: 12, day: 31, hour: 23, minute: 59, second: 59 };

    let reminder = Reminder::new("重要会议".to_string())
        .with_due_date(Some(due_date))
        .with_priority(Priority::High)
        .with_urgent(true)
        .with_recurrence(Recurrence::Monthly);

    assert_eq!(reminder.title, "重要会议");
    assert_eq!(reminder.priority, Priority::High);
    assert!(reminder.is_urgent);
    assert!(matches!(reminder.recurrence, Recurrence::Monthly));
}

#[test]
fn builders_set_one_field_each() {
    let r = Reminder::new("a".to_string())
        .with_completed(true)
        .with_start_date(Some(LocalDateTime { year: 2024, month: 1, day: 1, hour: 8, minute: 0, second: 0 }))
        .with_location(Some(Location { name: "家".to_string(), address: None }))
        .with_reminder_minutes(vec![5, 10])
        .with_tags(vec!["x".to_string()])
        .with_tags(vec!["y".to_string()]);
    assert!(r.completed);
    assert_eq!(r.start_date.unwrap().hour, 8);
    assert_eq!(r.location.as_ref().unwrap().name, "家");
    assert_eq!(r.reminder_minutes, vec![5, 10]);
    assert_eq!(r.tags, vec!["x".to_string(), "y".to_string()]);
    assert_eq!(r.title, "a");
    assert_eq!(r.list, "");
}

#[test]
fn display_text() {
    let r = Reminder::new("开会".to_string())
        .with_list("工作".to_string())
        .with_due_date(Some(LocalDateTime { year: 2024, month: 3, day: 5, hour: 9, minute: 7, second: 0 }))
        .with_tags(vec!["a".to_string(), "b".to_string()])
        .with_reminder_minutes(vec![15, -3])
        .with_location(Some(Location { name: "A座".to_string(), address: Some("一楼".to_string()) }));
    assert_eq!(
        r.to_display_string(),
        "提醒事项: 开会\n截止时间: 2024-03-05 09:07\n优先级: 中\n紧急: false\n重复: 不重复\n列表: 工作\n标签: a, b\n提醒时间（提前分钟）: [15, -3]\n位置: A座 (一楼)"
    );
    let bare = Reminder::new("x".to_string()).with_reminder_minutes(vec![]);
    assert_eq!(bare.to_display_string(), "提醒事项: x\n优先级: 中\n紧急: false\n重复: 不重复\n列表: ");
}

#[test]
fn display_names() {
    assert_eq!(Priority::NoPriority.display_name(), "不重要");
    assert_eq!(Priority::High.display_name(), "高");
    assert_eq!(Recurrence::Weekends.display_name(), "周末");
    assert_eq!(Recurrence::Custom("x".to_string()).display_name(), "自定义: x");
}

#[test]
fn parse_result_into_reminder() {
    let p = ParsedReminder {
        title: "t".to_string(),
        due_date: Some(LocalDateTime { year: 2024, month: 2, day: 29, hour: 10, minute: 0, second: 0 }),
        start_date: None,
        priority: Priority::Low,
        is_urgent: true,
        recurrence: Recurrence::Yearly,
        location: None,
        reminder_minutes: vec![],
        tags: vec!["k".to_string()],
        list: "l".to_string(),
    };
    let r = p.into_reminder();
    assert_eq!(r.title, "t");
    assert_eq!(r.due_date.unwrap().day, 29);
    assert!(!r.completed);
    assert_eq!(r.priority, Priority::Low);
    assert!(r.is_urgent);
    assert!(matches!(r.recurrence, Recurrence::Yearly));
    assert!(r.reminder_minutes.is_empty());
    assert_eq!(r.tags, vec!["k".to_string()]);
    assert_eq!(r.list, "l");
}
