use reminders::datetime::{
    date_exists, format_datetime, local_now, parse_datetime_with_format, shift_seconds,
    weekday_from_monday, LocalDateTime,
};
use reminders::parser::matching::{
    get_group, regex_captures, regex_from_strs, regex_group1_all, regex_replace_all, strs_to_alt,
};
use reminders::parser::patterns::{
    build_hour_pattern, build_next_week_pattern, build_suffix_pattern, build_this_week_pattern,
    high_priority_keywords, list_patterns, low_priority_keywords, recurrence_patterns,
    reminder_time_patterns, time_patterns, title_patterns, urgent_keywords,
};
use reminders::parser::parser_regexp::ParseError;
use reminders::text::{
    concat_str, contains_str, int_to_string, owned, parse_i32, parse_u32, replace_str, str_chars,
    string_from_chars, to_lowercase, trim_str,
};

#[test]
fn chars_and_strings() {
    assert_eq!(str_chars("a明b"), vec!['a', '明', 'b']);
    assert_eq!(string_from_chars(&vec!['x', '天']), "x天");
    assert_eq!(owned("q"), "q");
    assert_eq!(concat_str("ab", "天"), "ab天");
}

#[test]
fn trimming_and_search() {
    assert_eq!(trim_str(" \u{3000}\t中 文\n "), "中 文");
    assert_eq!(trim_str("   "), "");
    assert!(contains_str("提前30分钟", "30"));
    assert!(contains_str("abc", ""));
    assert!(!contains_str("ab", "abc"));
    assert_eq!(replace_str("a{x}b{x}", "{x}", "Y"), "aYbY");
    assert_eq!(replace_str("aaa", "aa", "b"), "ba");
    assert_eq!(replace_str("abc", "", "-"), "abc".replace("", "-"));
    assert_eq!(replace_str("", "", "-"), "-");
}

#[test]
fn numbers() {
    assert_eq!(int_to_string(0), "0");
    assert_eq!(int_to_string(-120), "-120");
    assert_eq!(int_to_string(i64::MIN), "-9223372036854775808");
    assert_eq!(parse_u32("42"), Some(42));
    assert_eq!(parse_u32("+7"), Some(7));
    assert_eq!(parse_u32("-7"), None);
    assert_eq!(parse_u32("4294967296"), None);
    assert_eq!(parse_u32("４"), None);
    assert_eq!(parse_u32(""), None);
    assert_eq!(parse_i32("-2147483648"), Some(i32::MIN));
    assert_eq!(parse_i32("2147483648"), None);
    assert_eq!(parse_i32("+"), None);
}

#[test]
fn lower_case() {
    assert_eq!(to_lowercase("ASAP 紧急"), "asap 紧急");
}

#[test]
fn regex_operations() {
    let caps = regex_captures("(\\d+)点(\\d+)?", "下午3点开会").unwrap();
    assert_eq!(caps[0], Some("3点".to_string()));
    assert_eq!(get_group(&caps, 1), Some("3".to_string()));
    assert_eq!(get_group(&caps, 2), None);
    assert_eq!(get_group(&caps, 7), None);
    assert!(regex_captures("x", "abc").is_none());
    assert!(regex_captures("(", "abc").is_none());
    assert_eq!(
        regex_group1_all("#(\\w+)", "#a b #中文"),
        vec![Some("a".to_string()), Some("中文".to_string())]
    );
    assert_eq!(regex_replace_all("\\d+", "a1b22", ""), Some("ab".to_string()));
    assert_eq!(regex_replace_all("(", "a", ""), None);
}

#[test]
fn pattern_building() {
    assert_eq!(regex_from_strs(&["a.b", "c"]), "a\\.b|c");
    assert_eq!(strs_to_alt(&["?"]), "\\?");
    assert_eq!(strs_to_alt(&["x", "y"]), "(x|y)");
    assert_eq!(build_suffix_pattern(&["天后"], "(\\d+)"), "(\\d+)天后");
    assert_eq!(build_hour_pattern("点"), "(\\d+)点");
    let w: &[(&str, &[&str])] = &[("mon", &["一"]), ("sun", &["日", "天"])];
    assert_eq!(build_next_week_pattern(&["下周"], w), "(?:下周)([一|日|天])");
    assert_eq!(build_this_week_pattern(&["周"], w), "(?:周[一|日|天])");
}

#[test]
fn pattern_tables() {
    let t = time_patterns();
    assert_eq!(t.len(), 19);
    assert_eq!(t[0].0, "明天|明日");
    assert_eq!(t[3].0, "(?:下周)([一|二|三|四|五|六|日|天])");
    assert_eq!(recurrence_patterns().len(), 6);
    assert_eq!(list_patterns()[0], "(?:(加到|放到|存到|添加到))\\s*([\\S]+?)(?:(列表|清单))?$");
    assert_eq!(reminder_time_patterns().len(), 3);
    let titles = title_patterns();
    assert_eq!(titles.len(), 15);
    assert_eq!(titles[14], "(，|。|！|？|,|\\.|!|\\?)");
    assert_eq!(high_priority_keywords().len(), 5);
    assert_eq!(low_priority_keywords()[3], "low priority");
    assert_eq!(urgent_keywords()[1], "急");
}

#[test]
fn calendar_operations() {
    assert!(date_exists(2024, 2, 29));
    assert!(!date_exists(2023, 2, 29));
    assert!(!date_exists(2024, 13, 1));
    // 2024-05-15 was a Wednesday
    assert_eq!(weekday_from_monday(2024, 5, 15), 2);
    let t = LocalDateTime { year: 2024, month: 12, day: 31, hour: 23, minute: 59, second: 30 };
    assert_eq!(
        shift_seconds(t, 30),
        Some(LocalDateTime { year: 2025, month: 1, day: 1, hour: 0, minute: 0, second: 0 })
    );
    assert_eq!(shift_seconds(t, i64::MAX), None);
    assert_eq!(
        parse_datetime_with_format("2024-02-03 04:05", "%Y-%m-%d %H:%M"),
        Some(LocalDateTime { year: 2024, month: 2, day: 3, hour: 4, minute: 5, second: 0 })
    );
    assert_eq!(format_datetime(t, "%Y-%m-%d %H:%M"), Some("2024-12-31 23:59".to_string()));
    let now = local_now();
    assert!(date_exists(now.year, now.month, now.day));
    assert!(now.hour < 24 && now.minute < 60 && now.second < 60);
}

#[test]
fn error_messages() {
    assert_eq!(ParseError::DateOutOfRange.message(), "日期超出可表示的范围");
    assert_eq!(ParseError::AdvanceOverflow.message(), "提前提醒的时间过长");
}

#[test]
fn shifting_keeps_the_clock_arithmetic() {
    let t = LocalDateTime { year: 2024, month: 3, day: 1, hour: 0, minute: 0, second: 30 };
    assert_eq!(shift_seconds(t, 0), Some(t));
    assert_eq!(
        shift_seconds(t, -90),
        Some(LocalDateTime { year: 2024, month: 2, day: 29, hour: 23, minute: 59, second: 0 })
    );
    assert_eq!(
        shift_seconds(t, 2 * 86400),
        Some(LocalDateTime { year: 2024, month: 3, day: 3, hour: 0, minute: 0, second: 30 })
    );
    assert_eq!(weekday_from_monday(1970, 1, 1), 3);
    assert_eq!(weekday_from_monday(2000, 2, 29), 1);
}

#[test]
fn minute_format_pads_every_field() {
    let t = LocalDateTime { year: 999, month: 1, day: 2, hour: 3, minute: 4, second: 5 };
    assert_eq!(format_datetime(t, "%Y-%m-%d %H:%M"), Some("0999-01-02 03:04".to_string()));
}
