use logs_viewer::extract::{
    has_zone_letter, join_day, pattern_at, read_epoch, strip_match, try_pattern, with_year,
    PATTERN_COUNT,
};
use logs_viewer::instant::Instant;
use logs_viewer::viewer::LogsApp;

/// The second at which September 15, 2025 starts.
const TODAY: i64 = 1_757_894_400;

fn extract(line: &str) -> (Option<String>, String) {
    LogsApp::extract_timestamp_from_log(line, 2025, TODAY)
}

fn found(stamp: &str, content: &str) -> (Option<String>, String) {
    (Some(stamp.to_string()), content.to_string())
}

fn nothing(line: &str) -> (Option<String>, String) {
    (None, line.to_string())
}

#[test]
fn there_are_eight_patterns_each_with_one_group() {
    assert_eq!(PATTERN_COUNT, 8);
    for index in 0..PATTERN_COUNT {
        let (pattern, _) = pattern_at(index);
        let expression = regex::Regex::new(pattern).unwrap();
        assert_eq!(expression.captures_len(), 2, "{}", pattern);
    }
    assert_eq!(pattern_at(3).1, "%Y %b %d %H:%M:%S");
    assert_eq!(pattern_at(7).0, r"(\d{10})");
}

#[test]
fn iso_timestamp_with_zone_letter_is_cut_out() {
    assert_eq!(extract("2025-09-15T14:30:00Z connection reset"), found("2025-09-15 14:30:00", "connection reset"));
}

#[test]
fn iso_timestamp_with_milliseconds_loses_them() {
    assert_eq!(extract("2025-09-15T14:30:00.123Z boot"), found("2025-09-15 14:30:00", "boot"));
    assert_eq!(extract("boot at 2025-09-15T14:30:00.999Z done"), found("2025-09-15 14:30:00", "boot at  done"));
}

#[test]
fn iso_timestamp_without_zone_letter_is_read_too() {
    assert_eq!(
        extract("2025-09-15T14:30:00 connection reset"),
        found("2025-09-15 14:30:00", "connection reset"),
    );
    assert_eq!(extract("2025-09-15T14:30:00.123 boot"), found("2025-09-15 14:30:00", "boot"));
    assert_eq!(extract("2024-02-29T23:59:59"), found("2024-02-29 23:59:59", ""));
    assert_eq!(extract("2025-02-29T23:59:59 x"), found("2025-09-15 23:59:59", "2025-02-29T x"));
}

#[test]
fn the_zone_letter_is_told_by_the_end_of_the_find() {
    assert!(has_zone_letter("2025-09-15T14:30:00Z"));
    assert!(has_zone_letter("Z"));
    assert!(!has_zone_letter("2025-09-15T14:30:00"));
    assert!(!has_zone_letter("Z2025-09-15T14:30:00"));
    assert!(!has_zone_letter("2025-09-15T14:30:00z"));
    assert!(!has_zone_letter(""));
}

#[test]
fn full_date_and_time_wins_over_time_alone() {
    assert_eq!(extract("2025-09-15 14:30:00"), found("2025-09-15 14:30:00", ""));
    assert_eq!(extract("2024-02-29 23:59:59 leap day"), found("2024-02-29 23:59:59", "leap day"));
    let by_date_and_time = try_pattern("2025-09-15 14:30:00", 2025, 0, 1);
    assert_eq!(by_date_and_time, Some(("2025-09-15 14:30:00".to_string(), String::new())));
    let by_time_alone = try_pattern("2025-09-15 14:30:00", 2025, 0, 5);
    assert_eq!(by_time_alone, Some(("1970-01-01 14:30:00".to_string(), "2025-09-15".to_string())));
    assert_eq!(try_pattern("2025-09-15 14:30:00", 2025, 0, 0), None);
    assert_eq!(LogsApp::extract_timestamp_from_log("2025-09-15 14:30:00", 2025, 0), found("2025-09-15 14:30:00", ""));
}

#[test]
fn date_and_time_with_milliseconds() {
    assert_eq!(extract("2025-09-15 14:30:00.250 starting"), found("2025-09-15 14:30:00", "starting"));
    assert_eq!(extract("[2025-09-15   14:30:00] starting"), found("2025-09-15 14:30:00", "[] starting"));
}

#[test]
fn count_of_seconds_is_read_as_utc() {
    assert_eq!(extract("1726401000 worker started"), found("2024-09-15 11:50:00", "worker started"));
    assert_eq!(extract("0000000000 epoch"), found("1970-01-01 00:00:00", "epoch"));
    assert_eq!(extract("9999999999 far"), found("2286-11-20 17:46:39", "far"));
}

#[test]
fn only_the_first_ten_digits_of_a_longer_number_count() {
    assert_eq!(extract("id=12345678901234"), found("2009-02-13 23:31:30", "id=1234"));
}

#[test]
fn digits_of_other_scripts_are_found_but_not_read() {
    assert_eq!(extract("١٢٣٤٥٦٧٨٩٠ x"), nothing("١٢٣٤٥٦٧٨٩٠ x"));
}

#[test]
fn system_log_form_takes_the_year_that_is_given() {
    assert_eq!(extract("Sep 15 14:30:00 host sshd[1]: ok"), found("2025-09-15 14:30:00", "host sshd[1]: ok"));
    assert_eq!(
        LogsApp::extract_timestamp_from_log("Feb 29 01:02:03 host leap", 2024, TODAY),
        found("2024-02-29 01:02:03", "host leap"),
    );
    assert_eq!(try_pattern("Feb 29 01:02:03 host leap", 2025, TODAY, 3), None);
    assert_eq!(
        LogsApp::extract_timestamp_from_log("Feb 29 01:02:03 host leap", 2025, TODAY),
        found("2025-09-15 01:02:03", "Feb 29  host leap"),
    );
    assert_eq!(extract("Sep  5 14:30:00 host one digit"), found("2025-09-05 14:30:00", "host one digit"));
}

#[test]
fn time_alone_takes_the_day_that_is_given() {
    assert_eq!(extract("14:30:00 job done"), found("2025-09-15 14:30:00", "job done"));
    assert_eq!(extract("14:30:00.123 tick"), found("2025-09-15 14:30:00", "tick"));
    assert_eq!(extract("at 00:00:00 sharp"), found("2025-09-15 00:00:00", "at  sharp"));
    assert_eq!(extract("23:59:60 leap"), found("2025-09-15 23:59:60", "leap"));
    assert_eq!(
        LogsApp::extract_timestamp_from_log("14:30:00 job done", 2025, 0),
        found("1970-01-01 14:30:00", "job done"),
    );
    assert_eq!(
        LogsApp::extract_timestamp_from_log("14:30:00 job done", 1, -86_400),
        found("1969-12-31 14:30:00", "job done"),
    );
    assert_eq!(
        try_pattern("14:30:00.123 tick", 2025, TODAY, 4),
        Some(("2025-09-15 14:30:00".to_string(), "tick".to_string())),
    );
    assert_eq!(
        try_pattern("14:30:00 tick", 2025, TODAY, 5),
        Some(("2025-09-15 14:30:00".to_string(), "tick".to_string())),
    );
    assert_eq!(try_pattern("14:30:00 tick", 2025, TODAY, 4), None);
}

#[test]
fn a_time_that_is_none_is_left_in() {
    assert_eq!(extract("24:00:00 tick"), nothing("24:00:00 tick"));
    assert_eq!(extract("12:60:00 tick"), nothing("12:60:00 tick"));
    assert_eq!(extract("12:00:61 tick"), nothing("12:00:61 tick"));
    assert_eq!(extract("7:05:09 short hour"), nothing("7:05:09 short hour"));
}

#[test]
fn a_time_on_a_day_beyond_the_calendar_is_left_in() {
    assert_eq!(
        LogsApp::extract_timestamp_from_log("14:30:00 tick", 2025, i64::MAX),
        nothing("14:30:00 tick"),
    );
    assert_eq!(
        LogsApp::extract_timestamp_from_log("14:30:00 tick", 2025, i64::MIN),
        nothing("14:30:00 tick"),
    );
    assert_eq!(
        LogsApp::extract_timestamp_from_log("14:30:00 tick", 2025, 8_210_266_876_800),
        nothing("14:30:00 tick"),
    );
}

#[test]
fn a_time_of_day_is_joined_to_the_start_of_a_day() {
    assert_eq!(join_day(TODAY, (52_200, 0)), Some(Instant { seconds: TODAY + 52_200, nanos: 0 }));
    assert_eq!(join_day(0, (0, 7)), Some(Instant { seconds: 0, nanos: 7 }));
    assert_eq!(join_day(-86_400, (86_399, 1_999_999_999)), Some(Instant { seconds: -1, nanos: 1_999_999_999 }));
    assert_eq!(join_day(i64::MAX - 10, (10, 0)), Some(Instant { seconds: i64::MAX, nanos: 0 }));
    assert_eq!(join_day(i64::MAX - 10, (11, 0)), None);
    assert_eq!(join_day(i64::MIN, (0, 0)), Some(Instant { seconds: i64::MIN, nanos: 0 }));
}

#[test]
fn date_with_slashes_is_read_month_first() {
    assert_eq!(
        try_pattern("09/15/2025 14:30:00 GET /", 2025, TODAY, 6),
        Some(("2025-09-15 14:30:00".to_string(), "GET /".to_string())),
    );
    assert_eq!(try_pattern("15/09/2025 14:30:00 GET /", 2025, TODAY, 6), None);
    assert_eq!(
        extract("99:99:99 then 09/14/2025 14:30:00 GET /"),
        found("2025-09-14 14:30:00", "99:99:99 then  GET /"),
    );
}

#[test]
fn the_time_in_a_date_with_slashes_is_found_first() {
    assert_eq!(extract("09/14/2025 14:30:00 GET /"), found("2025-09-15 14:30:00", "09/14/2025  GET /"));
}

#[test]
fn a_line_without_a_timestamp_stays_as_it_is() {
    assert_eq!(extract("plain line"), nothing("plain line"));
    assert_eq!(extract("  padded  "), nothing("  padded  "));
    assert_eq!(extract(""), nothing(""));
}

#[test]
fn what_looks_like_a_timestamp_but_is_no_date_is_left_in() {
    assert_eq!(extract("2025-13-45 25:61:61 x"), nothing("2025-13-45 25:61:61 x"));
    assert_eq!(try_pattern("2025-02-30 10:00:00 x", 2025, TODAY, 1), None);
    assert_eq!(try_pattern("2025-02-30 10:00:00 x", 2025, TODAY, 2), None);
}

#[test]
fn a_timestamp_that_stands_twice_is_cut_out_twice() {
    assert_eq!(
        extract("2025-09-15 14:30:00 again 2025-09-15 14:30:00 end"),
        found("2025-09-15 14:30:00", "again  end"),
    );
}

#[test]
fn a_leap_second_is_kept() {
    assert_eq!(extract("2025-06-30 23:59:60 leap"), found("2025-06-30 23:59:60", "leap"));
}

#[test]
fn the_first_match_of_a_pattern_counts() {
    assert_eq!(
        extract("from 2025-09-15 14:30:00 to 2025-09-16 15:00:00"),
        found("2025-09-15 14:30:00", "from  to 2025-09-16 15:00:00"),
    );
}

#[test]
fn strip_match_removes_and_trims() {
    assert_eq!(strip_match("2025 a 2025 b ", "2025"), "a  b");
    assert_eq!(strip_match(" abc ", ""), "abc");
    assert_eq!(strip_match("abc", "abc"), "");
    assert_eq!(strip_match("x 12:00 y", "12:00"), "x  y");
}

#[test]
fn with_year_puts_the_year_first() {
    assert_eq!(with_year(2025, "Sep 15 14:30:00"), "2025 Sep 15 14:30:00");
    assert_eq!(with_year(-44, "Mar 15 12:00:00"), "-44 Mar 15 12:00:00");
    assert_eq!(with_year(0, ""), "0 ");
}

#[test]
fn read_epoch_gives_whole_seconds() {
    assert_eq!(read_epoch("1726401000"), Some(Instant { seconds: 1726401000, nanos: 0 }));
    assert_eq!(read_epoch("17264x1000"), None);
    assert_eq!(read_epoch(""), None);
}

#[test]
fn each_pattern_alone() {
    assert_eq!(
        try_pattern("2025-09-15T14:30:00Z a", 2025, TODAY, 0),
        Some(("2025-09-15 14:30:00".to_string(), "a".to_string())),
    );
    assert_eq!(
        try_pattern("2025-09-15 14:30:00 a", 2025, TODAY, 2),
        Some(("2025-09-15 14:30:00".to_string(), "a".to_string())),
    );
    assert_eq!(
        try_pattern("Sep 15 14:30:00 a", 1999, TODAY, 3),
        Some(("1999-09-15 14:30:00".to_string(), "a".to_string())),
    );
    assert_eq!(
        try_pattern("09/15/2025 14:30:00 a", 2025, TODAY, 6),
        Some(("2025-09-15 14:30:00".to_string(), "a".to_string())),
    );
    assert_eq!(
        try_pattern("1726401000 a", 2025, TODAY, 7),
        Some(("2024-09-15 11:50:00".to_string(), "a".to_string())),
    );
    assert_eq!(try_pattern("no stamp", 2025, TODAY, 7), None);
}

/// The same steps, taken with `regex`, `chrono` and the standard library
/// directly.
fn directly(line: &str, year: i32, today: chrono::NaiveDate) -> (Option<String>, String) {
    for index in 0..PATTERN_COUNT {
        let (pattern, format) = pattern_at(index);
        let expression = match regex::Regex::new(pattern) {
            Ok(expression) => expression,
            Err(_) => continue,
        };
        let text = match expression.captures(line).and_then(|groups| groups.get(1)) {
            Some(group) => group.as_str(),
            None => continue,
        };
        let read = if index == 7 {
            text.parse::<i64>().ok().and_then(|seconds| chrono::DateTime::from_timestamp(seconds, 0)).map(|at| at.naive_utc())
        } else if index == 3 {
            chrono::NaiveDateTime::parse_from_str(&format!("{} {}", year, text), format).ok()
        } else if index == 0 && !text.ends_with('Z') {
            chrono::NaiveDateTime::parse_from_str(text, "%Y-%m-%dT%H:%M:%S%.3f").ok()
        } else if index == 4 || index == 5 {
            chrono::NaiveTime::parse_from_str(text, format).ok().map(|time| today.and_time(time))
        } else {
            chrono::NaiveDateTime::parse_from_str(text, format).ok()
        };
        if let Some(at) = read {
            return (Some(at.format("%Y-%m-%d %H:%M:%S").to_string()), line.replace(text, "").trim().to_string());
        }
    }
    (None, line.to_string())
}

const LINES: [&str; 58] = [
    "2025-09-15T14:30:00Z connection reset",
    "2025-09-15T14:30:00.123Z boot",
    "2025-09-15T14:30:00 no zone",
    "2025-09-15T14:30:00.123 no zone, milliseconds",
    "2025-09-15T14:30:00z small zone letter",
    "2025-02-30T14:30:00 no such day",
    "2025-02-30T14:30:00Z no such day",
    "23:59:60 leap second alone",
    "24:00:00 no such hour alone",
    "00:00:00.000",
    "12:34:56.789012 long fraction",
    "2025-09-15T14:30:00.12Z two digits",
    "2025-09-15 14:30:00",
    "2025-09-15 14:30:00.250 starting",
    "2025-09-15\t14:30:00 tab between",
    "2025-09-15  14:30:00.5 one digit of fraction",
    "  2025-09-15 14:30:00   spaces all over  ",
    "[2025-09-15 14:30:00] [INFO] bracketed",
    "prefix 2025-09-15 14:30:00 middle 2025-09-15 14:30:00 suffix",
    "from 2025-09-15 14:30:00 to 2025-09-16 15:00:00",
    "0000-01-01 00:00:00 year zero",
    "9999-12-31 23:59:59 last four-digit year",
    "2025-06-30 23:59:60 leap second",
    "2025-02-29 12:00:00 no such day",
    "2024-02-29 12:00:00 leap day",
    "2025-13-01 12:00:00 no such month",
    "2025-09-15 24:00:00 no such hour",
    "Sep 15 14:30:00 host sshd[1]: ok",
    "Sep  5 14:30:00 host one digit",
    "sep 15 14:30:00 lower case month",
    "SEP 15 14:30:00 upper case month",
    "Feb 29 01:02:03 host not this year",
    "Foo 15 14:30:00 host no such month",
    "September 15 14:30:00 long month",
    "<34>Oct 11 22:14:15 mymachine su: 'su root' failed",
    "14:30:00 tick",
    "14:30:00.123 tick",
    "at 7:05:09 short hour",
    "09/15/2025 14:30:00 GET /",
    "15/09/2025 14:30:00 day first",
    "9/15/2025 14:30:00 short month",
    "1726401000 worker started",
    "0000000000 epoch",
    "9999999999 far",
    "id=12345678901234 long number",
    "123456789 nine digits",
    "１２３４５６７８９０ wide digits",
    "١٢٣٤٥٦٧٨٩٠ other digits",
    "ts=1726401000,1726401000;1726401000",
    "plain line",
    "  padded  ",
    "",
    "   ",
    "\u{a0}2025-09-15 14:30:00\u{a0}",
    "ünïcödé 2025-09-15 14:30:00 tëxt",
    "aaaa 10:10:10 10:10:10:10 2025-01-01 10:10:10",
    "2025-09-15 14:30:002025-09-15 14:30:00",
    "x2025-09-15 14:30:00.1234567",
];

#[test]
fn extraction_agrees_with_the_crates_used_directly_in_every_year() {
    let today = chrono::NaiveDate::from_ymd_opt(2025, 9, 15).unwrap();
    for line in LINES {
        for year in [2025, 2024, 1, 0, -1, 10000] {
            assert_eq!(
                LogsApp::extract_timestamp_from_log(line, year, TODAY),
                directly(line, year, today),
                "{:?} {}",
                line,
                year,
            );
        }
    }
}

#[test]
fn extraction_agrees_with_the_crates_used_directly_on_every_day() {
    let days = [
        chrono::NaiveDate::from_ymd_opt(2024, 2, 29).unwrap(),
        chrono::NaiveDate::from_ymd_opt(1969, 12, 31).unwrap(),
        chrono::NaiveDate::MIN,
        chrono::NaiveDate::MAX,
    ];
    for line in LINES {
        for today in days {
            let day_start = today.and_hms_opt(0, 0, 0).unwrap().and_utc().timestamp();
            assert_eq!(
                LogsApp::extract_timestamp_from_log(line, 2025, day_start),
                directly(line, 2025, today),
                "{:?} {}",
                line,
                today,
            );
        }
    }
}
