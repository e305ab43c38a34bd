use reminders::apple_reminders::{
    build_create_list_script, build_list_names_script, build_reminder_script,
    build_set_date_script, check_create_list_output, check_create_output, escape_string,
    list_names_contain, recurrence_to_rrule, ScriptError, create_list_step, create_reminder_step,
    AppleStep,
};
use reminders::cors::{Priority, Recurrence};
use reminders::datetime::LocalDateTime;
use reminders::reminder::Reminder;

fn at(year: i32, month: u32, day: u32, hour: u32, minute: u32, second: u32) -> LocalDateTime {
    LocalDateTime { year, month, day, hour, minute, second }
}

#[test]
fn test_escape_string() {
    assert_eq!(escape_string("Hello \"World\""), "Hello \\\"World\\\"");
    assert_eq!(escape_string("Back\\Slash"), "Back\\\\Slash");
    assert_eq!(escape_string("Normal text"), "Normal text");
}

#[test]
fn test_recurrence_to_rrule() {
    assert_eq!(
        recurrence_to_rrule(&Recurrence::Daily),
        Some("FREQ=DAILY;INTERVAL=1".to_string())
    );
    assert_eq!(
        recurrence_to_rrule(&Recurrence::Weekly),
        Some("FREQ=WEEKLY;INTERVAL=1".to_string())
    );
    assert_eq!(recurrence_to_rrule(&Recurrence::NoRepeat), None);
}

#[test]
fn test_build_set_date_script() {
    let dt = at(2026, 4, 11, 15, 0, 0);
    let script = build_set_date_script("due date", &dt, "newReminder");
    assert!(script.contains("set year of tmpDate to 2026"));
    assert!(script.contains("set month of tmpDate to 4"));
    assert!(script.contains("set hours of tmpDate to 15"));
}

#[test]
fn set_date_script_is_exact() {
    let dt = at(2024, 12, 31, 23, 59, 59);
    let script = build_set_date_script("remind me date", &dt, "r");
    assert_eq!(
        script,
        "    set tmpDate to current date\n    set day of tmpDate to 1\n    set year of tmpDate to 2024\n    set month of tmpDate to 12\n    set day of tmpDate to 31\n    set hours of tmpDate to 23\n    set minutes of tmpDate to 59\n    set seconds of tmpDate to 0\n    set remind me date of r to tmpDate\n"
    );
}

#[test]
fn rrules_for_every_recurrence() {
    assert_eq!(recurrence_to_rrule(&Recurrence::Monthly).unwrap(), "FREQ=MONTHLY;INTERVAL=1");
    assert_eq!(recurrence_to_rrule(&Recurrence::Yearly).unwrap(), "FREQ=YEARLY;INTERVAL=1");
    assert_eq!(
        recurrence_to_rrule(&Recurrence::Weekdays).unwrap(),
        "FREQ=WEEKLY;BYDAY=MO,TU,WE,TH,FR"
    );
    assert_eq!(recurrence_to_rrule(&Recurrence::Weekends).unwrap(), "FREQ=WEEKLY;BYDAY=SA,SU");
    assert_eq!(
        recurrence_to_rrule(&Recurrence::Custom("FREQ=HOURLY".to_string())).unwrap(),
        "FREQ=HOURLY"
    );
}

#[test]
fn reminder_script_without_dates() {
    let r = Reminder::new("买\"牛奶\"".to_string()).with_list("家".to_string());
    let script = build_reminder_script(&r).unwrap();
    assert_eq!(
        script,
        "tell application \"Reminders\"\n    set targetList to list \"家\"\n    set newReminder to (make new reminder in targetList with properties {name:\"买\\\"牛奶\\\"\", priority:5})\nend tell"
    );
}

#[test]
fn reminder_script_with_due_date_alarm_and_rule() {
    let r = Reminder::new("开会".to_string())
        .with_list("工作".to_string())
        .with_priority(Priority::High)
        .with_recurrence(Recurrence::Daily)
        .with_due_date(Some(at(2024, 3, 1, 0, 10, 0)))
        .with_reminder_minutes(vec![15]);
    let script = build_reminder_script(&r).unwrap();
    assert!(script.contains("priority:9})\n"));
    assert!(script.contains("    set day of tmpDate to 1\n    set hours of tmpDate to 0\n    set minutes of tmpDate to 10\n    set seconds of tmpDate to 0\n    set due date of newReminder to tmpDate\n"));
    assert!(script.contains("    set recurrence of newReminder to \"FREQ=DAILY;INTERVAL=1\"\n"));
    // the alert 15 minutes before 2024-03-01 00:10 falls on 2024-02-29 23:55
    assert!(script.contains("    set month of tmpDate to 2\n    set day of tmpDate to 29\n    set hours of tmpDate to 23\n    set minutes of tmpDate to 55\n    set seconds of tmpDate to 0\n    set remind me date of newReminder to tmpDate\n"));
    assert!(script.ends_with("end tell"));
}

#[test]
fn reminder_script_negative_alert_is_skipped() {
    let r = Reminder::new("x".to_string())
        .with_due_date(Some(at(2024, 3, 1, 8, 0, 0)))
        .with_reminder_minutes(vec![-5]);
    let script = build_reminder_script(&r).unwrap();
    assert!(!script.contains("remind me date"));
}

#[test]
fn reminder_script_with_impossible_due_date_is_refused() {
    let r = Reminder::new("x".to_string()).with_due_date(Some(at(2023, 2, 30, 8, 0, 0)));
    assert_eq!(build_reminder_script(&r), Err(ScriptError::AlarmOutOfRange));
}

#[test]
fn create_list_script_escapes_the_name() {
    assert_eq!(
        build_create_list_script("a\"b"),
        "tell application \"Reminders\"\n    make new list with properties {name:\"a\\\"b\"}\nend tell"
    );
    assert!(build_list_names_script().contains("name of every list"));
}

#[test]
fn list_names_are_cut_at_commas_and_line_breaks() {
    assert!(list_names_contain("提醒事项,工作\n", "工作"));
    assert!(list_names_contain("提醒事项", "提醒事项"));
    assert!(list_names_contain("提醒事项, 工作\n", "工作"));
    assert!(list_names_contain("a, b, c\n", "c"));
    assert!(!list_names_contain("提醒事项, 工作\n", " 工作"));
    assert!(!list_names_contain("a, b\n", "a, b"));
    assert!(!list_names_contain("提醒事项", "提醒"));
    assert!(!list_names_contain("a\n", ""));
    assert!(!list_names_contain("", ""));
    assert!(!list_names_contain("\n", ""));
    assert!(!list_names_contain("a,b", "a,b"));
    // names with outer spaces keep them
    assert!(list_names_contain("a,  b \n", " b "));
    assert!(!list_names_contain("a,  b \n", "b"));
    assert!(list_names_contain(" x, y\n", " x"));
}

#[test]
fn create_output_is_read() {
    assert_eq!(check_create_output(true, "", "ok\n"), Ok(()));
    assert_eq!(
        check_create_output(false, "  boom \n", ""),
        Err("创建提醒事项失败: boom".to_string())
    );
    assert_eq!(
        check_create_output(true, "", " Execution ERROR: x\n"),
        Err("AppleScript 错误: Execution ERROR: x".to_string())
    );
    assert_eq!(check_create_list_output(true, "x"), Ok(()));
    assert_eq!(
        check_create_list_output(false, " no \n"),
        Err("创建列表失败: no".to_string())
    );
}

/// What AppleScript reads inside a string literal: a backslash stands for
/// the character after it.
fn unescape(s: &str) -> String {
    let mut out = String::new();
    let mut chars = s.chars();
    while let Some(c) = chars.next() {
        if c == '\\' {
            match chars.next() {
                Some(d) => out.push(d),
                None => out.push(c),
            }
        } else {
            out.push(c);
        }
    }
    out
}

#[test]
fn escaping_round_trips() {
    for s in ["", "plain", "q\"uote", "back\\slash\\", "\\\"\\\"", "混合 \"文本\" \\ end"] {
        assert_eq!(unescape(&escape_string(s)), s);
    }
}

#[test]
fn steps_of_filing() {
    assert!(matches!(create_list_step("工作", Ok(true)), AppleStep::Finished(Ok(()))));
    match create_list_step("工作", Err("boom".to_string())) {
        AppleStep::Finished(Err(e)) => assert_eq!(e, "boom"),
        _ => panic!("a failed check is the result"),
    }
    match create_list_step("工作", Ok(false)) {
        AppleStep::Run(s) => assert_eq!(s, build_create_list_script("工作")),
        _ => panic!("a missing list is made"),
    }
    let r = Reminder::new("x".to_string()).with_list("家".to_string());
    match create_reminder_step(&r) {
        AppleStep::Run(s) => assert_eq!(s, build_reminder_script(&r).unwrap()),
        _ => panic!("a writable reminder is run"),
    }
    let bad = Reminder::new("x".to_string())
        .with_due_date(Some(at(-262143, 1, 1, 0, 0, 0)))
        .with_reminder_minutes(vec![5]);
    match create_reminder_step(&bad) {
        AppleStep::Finished(Err(e)) => assert_eq!(e, "提醒时间超出可表示的范围"),
        _ => panic!("an alert before the calendar cannot be written"),
    }
}
