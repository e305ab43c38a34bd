use reminders::cors::{Priority, Recurrence};
use reminders::datetime::LocalDateTime;
use reminders::parser::parser_regexp::{
    apply_clue, extract_title, parse_datetime, parse_input, parse_input_at, parse_weekday,
    parse_weekday_char, settle_time, DateTimeClues, DayPeriod, ParseError, Weekday,
};
use reminders::parser::patterns::TimeKind;

fn at(year: i32, month: u32, day: u32, hour: u32, minute: u32, second: u32) -> LocalDateTime {
    LocalDateTime { year, month, day, hour, minute, second }
}

// 2024-05-15 was a Wednesday.
fn wednesday() -> LocalDateTime {
    at(2024, 5, 15, 10, 20, 30)
}

#[test]
fn test_parse_simple_reminder() {
    let result = parse_input("明天下午3点开会", "reminders").unwrap();
    assert!(result.due_date.is_some());
    let due = result.due_date.unwrap();
    assert_eq!(due.hour, 15);
}

#[test]
fn test_parse_urgent_reminder() {
    let result = parse_input("紧急今天下午5点前提交报告", "reminders").unwrap();
    assert!(result.is_urgent);
}

#[test]
fn test_parse_title_reminder() {
    let result = parse_input("下午19点30分提交报告", "reminders").unwrap();
    assert_eq!(result.title, "提交报告");
    assert_eq!(result.due_date.unwrap().hour, 19);
    assert_eq!(result.due_date.unwrap().minute, 30);
    let result = parse_input("下午19点30提交报告", "reminders").unwrap();
    assert_eq!(result.title, "提交报告");
    assert_eq!(result.due_date.unwrap().hour, 19);
    assert_eq!(result.due_date.unwrap().minute, 30);
    let result = parse_input("下午19点提交报告", "reminders").unwrap();
    assert_eq!(result.title, "提交报告");
    assert_eq!(result.due_date.unwrap().hour, 19);
}

#[test]
fn test_parse_recurring_reminder() {
    let result = parse_input("每天早上8点吃药", "reminders").unwrap();
    assert!(matches!(result.recurrence, Recurrence::Daily));
}

#[test]
fn test_parse_with_tags() {
    let result = parse_input("明天 #工作 提交项目报告", "reminders").unwrap();
    assert!(result.tags.contains(&"工作".to_string()));
}

#[test]
fn test_no_time_returns_none() {
    let result = parse_input("买牛奶", "reminders").unwrap();
    assert!(result.due_date.is_none());
}

#[test]
fn test_regex_parse() {
    let result = parse_input("明天下午3点开会", "reminders");
    assert!(result.is_ok());
    let parsed = result.unwrap();
    assert!(parsed.due_date.is_some());
}

#[test]
fn test_regex_parse_daily() {
    let result = parse_input("每天早上8点吃药", "reminders").unwrap();
    assert!(matches!(result.recurrence, Recurrence::Daily));
}

#[test]
fn tomorrow_afternoon_at_a_fixed_now() {
    let p = parse_input_at("明天下午3点开会", "reminders", wednesday()).unwrap();
    assert_eq!(p.due_date, Some(at(2024, 5, 16, 15, 0, 0)));
    assert_eq!(p.title, "开会");
    assert_eq!(p.list, "reminders");
    assert_eq!(p.priority, Priority::NoPriority);
    assert!(!p.is_urgent);
    assert_eq!(p.reminder_minutes, vec![0]);
    assert!(p.tags.is_empty());
}

#[test]
fn daily_morning_medicine() {
    let p = parse_input_at("每天早上8点吃药", "默认", wednesday()).unwrap();
    assert!(matches!(p.recurrence, Recurrence::Daily));
    assert_eq!(p.due_date, Some(at(2024, 5, 15, 8, 0, 0)));
    assert_eq!(p.title, "吃药");
}

#[test]
fn periods_give_default_times() {
    let p = parse_input_at("晚上散步", "l", wednesday()).unwrap();
    assert_eq!(p.due_date, Some(at(2024, 5, 15, 19, 0, 0)));
    let p = parse_input_at("凌晨看球", "l", wednesday()).unwrap();
    assert_eq!(p.due_date, Some(at(2024, 5, 15, 5, 0, 0)));
    let p = parse_input_at("中午吃饭", "l", wednesday()).unwrap();
    assert_eq!(p.due_date, Some(at(2024, 5, 15, 12, 0, 0)));
}

#[test]
fn weekdays_relative_to_now() {
    // this week's Friday is two days after Wednesday
    assert_eq!(
        parse_datetime("下周五交报告", wednesday()),
        Ok(Some(at(2024, 5, 24, 9, 0, 0)))
    );
    // 周三 on a Wednesday: the pattern captures no day, so only nothing is set
    assert_eq!(parse_datetime("周三开会", wednesday()), Ok(None));
    assert_eq!(parse_datetime("下周三开会", wednesday()), Ok(Some(at(2024, 5, 29, 9, 0, 0))));
}

#[test]
fn explicit_dates_and_offsets() {
    assert_eq!(
        parse_datetime("2025-01-02 交税", wednesday()),
        Ok(Some(at(2025, 1, 2, 9, 0, 0)))
    );
    assert_eq!(parse_datetime("6/1 儿童节", wednesday()), Ok(Some(at(2024, 6, 1, 9, 0, 0))));
    assert_eq!(parse_datetime("3天后 还书", wednesday()), Ok(Some(at(2024, 5, 18, 9, 0, 0))));
    assert_eq!(parse_datetime("2小时后 开会", wednesday()), Ok(Some(at(2024, 5, 15, 12, 20, 30))));
    assert_eq!(parse_datetime("后天 14:05 面试", wednesday()), Ok(Some(at(2024, 5, 17, 14, 5, 0))));
    // a day that does not exist is ignored
    assert_eq!(parse_datetime("2/30 交税", wednesday()), Ok(None));
}

#[test]
fn dates_out_of_range_are_errors() {
    assert_eq!(parse_datetime("99999999天后", wednesday()), Err(ParseError::DateOutOfRange));
    assert_eq!(
        parse_input_at("99999999天后 起床", "l", wednesday()).map(|p| p.title),
        Err(ParseError::DateOutOfRange)
    );
}

#[test]
fn advance_notice() {
    let p = parse_input_at("明天开会 提前30分钟", "l", wednesday()).unwrap();
    assert_eq!(p.reminder_minutes, vec![30]);
    let p = parse_input_at("明天开会 提前2小时", "l", wednesday()).unwrap();
    assert_eq!(p.reminder_minutes, vec![120]);
    let p = parse_input_at("明天开会 提前1天", "l", wednesday()).unwrap();
    assert_eq!(p.reminder_minutes, vec![1440]);
    assert_eq!(p.title, "开会");
    assert_eq!(
        parse_input_at("开会 提前99999999小时", "l", wednesday()).map(|p| p.title),
        Err(ParseError::AdvanceOverflow)
    );
}

#[test]
fn priority_urgency_and_lists() {
    let p = parse_input_at("重要 写周报", "l", wednesday()).unwrap();
    assert_eq!(p.priority, Priority::High);
    let p = parse_input_at("不重要 整理书架", "l", wednesday()).unwrap();
    assert_eq!(p.priority, Priority::Low);
    let p = parse_input_at("URGENT fix build", "l", wednesday()).unwrap();
    assert!(p.is_urgent);
    assert_eq!(p.priority, Priority::High);
    let p = parse_input_at("Low Priority chores", "l", wednesday()).unwrap();
    assert_eq!(p.priority, Priority::Low);
    let p = parse_input_at("买菜 加到购物清单", "l", wednesday()).unwrap();
    // group 1 of the list phrase is the verb's group, not the name's
    assert_eq!(p.list, "加到");
    // the title phrase for lists is lazy and unanchored: it removes only "加到购"
    assert_eq!(p.title, "买菜 物清单");
    let p = parse_input_at("列表：家务 洗衣服", "l", wednesday()).unwrap();
    assert_eq!(p.list, "家务");
}

#[test]
fn tags_are_read_and_removed() {
    let p = parse_input_at("  明天 #工作 #报告 提交项目报告  ", "l", wednesday()).unwrap();
    assert_eq!(p.tags, vec!["工作".to_string(), "报告".to_string()]);
    assert_eq!(p.title, "提交项目报告");
}

#[test]
fn empty_title_falls_back() {
    assert_eq!(extract_title("明天下午3点"), "新提醒");
    assert_eq!(extract_title("  "), "新提醒");
    assert_eq!(extract_title("开会。"), "开会");
}

#[test]
fn weekday_characters() {
    assert_eq!(parse_weekday_char("三"), Some(Weekday::Wed));
    assert_eq!(parse_weekday_char("天"), Some(Weekday::Sun));
    assert_eq!(parse_weekday_char("x"), None);
    assert_eq!(parse_weekday("日"), Weekday::Sun);
    assert_eq!(parse_weekday("|"), Weekday::Mon);
    assert_eq!(Weekday::Sat.num_days_from_monday(), 5);
}

#[test]
fn a_part_of_the_day_alone_means_today() {
    let now = at(2024, 12, 31, 22, 45, 10);
    assert_eq!(parse_datetime("下午开会", now), Ok(Some(at(2024, 12, 31, 14, 0, 0))));
    assert_eq!(parse_datetime("凌晨 跑步", now), Ok(Some(at(2024, 12, 31, 5, 0, 0))));
    assert_eq!(parse_datetime("晚上 看书", now), Ok(Some(at(2024, 12, 31, 19, 0, 0))));
}

#[test]
fn a_day_word_alone_means_that_day_at_nine() {
    let now = at(2024, 12, 31, 22, 45, 10);
    assert_eq!(parse_datetime("明天 交房租", now), Ok(Some(at(2025, 1, 1, 9, 0, 0))));
    assert_eq!(parse_datetime("后天 交房租", now), Ok(Some(at(2025, 1, 2, 9, 0, 0))));
    assert_eq!(parse_datetime("今天 交房租", now), Ok(Some(at(2024, 12, 31, 9, 0, 0))));
    let last = at(262142, 12, 31, 8, 0, 0);
    assert_eq!(parse_datetime("明天 交房租", last), Err(ParseError::DateOutOfRange));
}

fn no_clues() -> DateTimeClues {
    DateTimeClues { day_offset: None, explicit_date: None, time: None, period: None }
}

fn caps(groups: &[Option<&str>]) -> Vec<Option<String>> {
    groups.iter().map(|g| g.map(|s| s.to_string())).collect()
}

#[test]
fn clues_from_given_captures() {
    let now = wednesday();
    let c = apply_clue(no_clues(), TimeKind::Afternoon, &caps(&[Some("下午")]), now).unwrap();
    assert_eq!(c.period, Some(DayPeriod::Afternoon));
    let c = apply_clue(c, TimeKind::TimeH, &caps(&[Some("3点"), Some("3")]), now).unwrap();
    assert_eq!(c.time, Some((15, 0)));
    let c = apply_clue(no_clues(), TimeKind::DaysFromNow, &caps(&[Some("x天后"), Some("x")]), now)
        .unwrap();
    assert_eq!(c.day_offset, Some(0));
    let c = apply_clue(no_clues(), TimeKind::HoursFromNow, &caps(&[Some("2小时后"), Some("2")]), now)
        .unwrap();
    assert_eq!(c.explicit_date, Some(at(2024, 5, 15, 12, 20, 30)));
    let c = apply_clue(no_clues(), TimeKind::NextWeek, &caps(&[Some("下周一"), Some("一")]), now)
        .unwrap();
    assert_eq!(c.day_offset, Some(12));
    let c = apply_clue(no_clues(), TimeKind::DateMd, &caps(&[Some("2/30"), Some("2"), Some("30")]), now)
        .unwrap();
    assert!(c.explicit_date.is_none());
    let last = at(262142, 12, 31, 23, 0, 0);
    assert!(matches!(
        apply_clue(no_clues(), TimeKind::HoursFromNow, &caps(&[Some("2小时后"), Some("2")]), last),
        Err(ParseError::DateOutOfRange)
    ));
}

#[test]
fn settled_times() {
    let evening = DateTimeClues { time: Some((7, 30)), period: Some(DayPeriod::Evening), ..no_clues() };
    assert_eq!(settle_time(evening), Some((19, 30)));
    let noon = DateTimeClues { period: Some(DayPeriod::Noon), ..no_clues() };
    assert_eq!(settle_time(noon), Some((12, 0)));
    let morning = DateTimeClues { time: Some((7, 5)), period: Some(DayPeriod::Morning), ..no_clues() };
    assert_eq!(settle_time(morning), Some((7, 5)));
    assert_eq!(settle_time(no_clues()), None);
}
