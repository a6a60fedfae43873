use logs_viewer::buffer::LogEntry;
use logs_viewer::filter::{level_matches, names_level, search_matches, time_matches, visible_entries, FilterMode};
use logs_viewer::instant::Instant;
use logs_viewer::settings::Settings;
use logs_viewer::timespan::{PredefinedSpan, TimeSpanMode, TimeUnit};
use logs_viewer::viewer::LogsApp;

const NOON: i64 = 1_757_937_600;

const NOW: Instant = Instant { seconds: NOON, nanos: 0 };

fn chars(s: &str) -> Vec<char> {
    s.chars().collect()
}

fn app_with(entries: &[(&str, &str)]) -> LogsApp {
    let mut app = LogsApp::new(Settings::default(), 2025, 9, 15);
    for (timestamp, content) in entries {
        app.logs.append(LogEntry { timestamp: timestamp.to_string(), content: content.to_string() });
    }
    app
}

fn shown(app: &LogsApp, now: Instant) -> Vec<String> {
    app.filtered_logs(now).into_iter().map(|entry| entry.content.clone()).collect()
}

fn two_entries() -> LogsApp {
    let mut app = app_with(&[("2025-09-15 11:00:00", "ERROR disk full"), ("2025-09-15 11:30:00", "INFO ok")]);
    app.selected_log_levels = vec!["error".to_string()];
    app
}

#[test]
fn including_a_level_shows_the_entries_that_name_it() {
    let app = two_entries();
    assert_eq!(app.filter_mode, FilterMode::IncludeSelected);
    assert_eq!(shown(&app, NOW), vec!["ERROR disk full"]);
}

#[test]
fn excluding_a_level_shows_the_other_entries() {
    let mut app = two_entries();
    app.filter_mode = FilterMode::ExcludeSelected;
    assert_eq!(shown(&app, NOW), vec!["INFO ok"]);
}

#[test]
fn a_search_text_narrows_what_a_level_shows() {
    let mut app = two_entries();
    app.search_text = "disk".to_string();
    assert_eq!(shown(&app, NOW), vec!["ERROR disk full"]);
    app.search_text = "network".to_string();
    assert_eq!(shown(&app, NOW), Vec::<String>::new());
}

#[test]
fn no_selected_level_shows_every_entry_whatever_the_mode() {
    let mut app = two_entries();
    app.selected_log_levels = Vec::new();
    assert_eq!(shown(&app, NOW), vec!["ERROR disk full", "INFO ok"]);
    app.filter_mode = FilterMode::ExcludeSelected;
    assert_eq!(shown(&app, NOW), vec!["ERROR disk full", "INFO ok"]);
}

#[test]
fn a_new_viewer_shows_the_entries_that_name_some_level() {
    let app = app_with(&[
        ("2025-09-15 11:00:00", "ERROR disk full"),
        ("2025-09-15 11:00:01", "hello world"),
        ("2025-09-15 11:00:02", "Warning: low battery"),
        ("2025-09-15 11:00:03", "the terror of critters"),
    ]);
    assert_eq!(shown(&app, NOW), vec!["ERROR disk full", "Warning: low battery", "the terror of critters"]);
}

#[test]
fn levels_and_search_text_match_whatever_the_case() {
    let mut app = two_entries();
    app.selected_log_levels = vec!["ERROR".to_string()];
    assert_eq!(shown(&app, NOW), vec!["ERROR disk full"]);
    app.selected_log_levels = vec!["Info".to_string(), "debug".to_string()];
    assert_eq!(shown(&app, NOW), vec!["INFO ok"]);
    app.selected_log_levels = Vec::new();
    app.search_text = "DISK".to_string();
    assert_eq!(shown(&app, NOW), vec!["ERROR disk full"]);
    app.search_text = "Ok".to_string();
    assert_eq!(shown(&app, NOW), vec!["INFO ok"]);
}

#[test]
fn the_search_text_is_looked_for_in_the_timestamp_too() {
    let mut app = two_entries();
    app.selected_log_levels = Vec::new();
    app.search_text = "11:30".to_string();
    assert_eq!(shown(&app, NOW), vec!["INFO ok"]);
    app.search_text = "2025-09-15".to_string();
    assert_eq!(shown(&app, NOW), vec!["ERROR disk full", "INFO ok"]);
}

#[test]
fn the_last_hour_shows_half_an_hour_ago_and_not_two_hours_ago() {
    let mut app = app_with(&[
        ("2025-09-15 10:00:00", "two hours ago"),
        ("2025-09-15 11:00:00", "one hour ago"),
        ("2025-09-15 11:30:00", "half an hour ago"),
        ("2025-09-15 12:00:00", "now"),
        ("2025-09-15 12:00:01", "in a second"),
    ]);
    app.selected_log_levels = Vec::new();
    app.time_span_mode = TimeSpanMode::Relative;
    app.relative_amount = 1;
    app.relative_unit = TimeUnit::Hours;
    assert_eq!(shown(&app, NOW), vec!["one hour ago", "half an hour ago", "now"]);
}

#[test]
fn a_fraction_of_a_second_counts_at_the_ends_of_the_window() {
    let mut app = app_with(&[("2025-09-15 11:00:00", "one hour ago"), ("2025-09-15 12:00:00", "now")]);
    app.selected_log_levels = Vec::new();
    app.time_span_mode = TimeSpanMode::Predefined(PredefinedSpan::Last1Hour);
    let later = Instant { seconds: NOON, nanos: 1 };
    assert_eq!(shown(&app, later), vec!["now"]);
}

#[test]
fn an_entry_whose_time_cannot_be_read_is_never_hidden_for_its_time() {
    let mut app = app_with(&[("some time", "undated"), ("2020-01-01 00:00:00", "old"), ("", "blank")]);
    app.selected_log_levels = Vec::new();
    app.time_span_mode = TimeSpanMode::Predefined(PredefinedSpan::Last15Minutes);
    assert_eq!(shown(&app, NOW), vec!["undated", "blank"]);
}

#[test]
fn a_custom_window_includes_both_its_ends() {
    let mut app = app_with(&[
        ("2025-09-15 09:59:59", "before"),
        ("2025-09-15 10:00:00", "first"),
        ("2025-09-15 10:05:59", "last"),
        ("2025-09-15 10:06:00", "after"),
    ]);
    app.selected_log_levels = Vec::new();
    app.time_span_mode = TimeSpanMode::Custom;
    app.custom_from_hour = 10;
    app.custom_from_minute = 0;
    app.custom_to_hour = 10;
    app.custom_to_minute = 5;
    assert_eq!(shown(&app, NOW), vec!["first", "last"]);
}

#[test]
fn a_custom_window_that_is_no_date_hides_nothing() {
    let mut app = app_with(&[("2025-09-15 09:59:59", "a"), ("1999-01-01 00:00:00", "b")]);
    app.selected_log_levels = Vec::new();
    app.time_span_mode = TimeSpanMode::Custom;
    app.custom_from_month = 2;
    app.custom_from_day = 31;
    assert_eq!(shown(&app, NOW), vec!["a", "b"]);
}

#[test]
fn a_custom_window_that_ends_before_it_starts_shows_nothing_dated() {
    let mut app = app_with(&[("2025-09-15 09:59:59", "a"), ("whenever", "b")]);
    app.selected_log_levels = Vec::new();
    app.time_span_mode = TimeSpanMode::Custom;
    app.custom_from_hour = 12;
    app.custom_to_hour = 8;
    assert_eq!(shown(&app, NOW), vec!["b"]);
}

#[test]
fn all_three_tests_must_agree() {
    let mut app = app_with(&[
        ("2025-09-15 11:50:00", "ERROR disk full"),
        ("2025-09-15 11:51:00", "ERROR network down"),
        ("2025-09-15 09:00:00", "ERROR disk failing"),
        ("2025-09-15 11:52:00", "INFO disk ok"),
    ]);
    app.selected_log_levels = vec!["error".to_string()];
    app.search_text = "disk".to_string();
    app.time_span_mode = TimeSpanMode::Predefined(PredefinedSpan::Last15Minutes);
    assert_eq!(shown(&app, NOW), vec!["ERROR disk full"]);
}

#[test]
fn the_filter_leaves_the_buffer_alone() {
    let app = two_entries();
    let first = shown(&app, NOW);
    let second = shown(&app, NOW);
    assert_eq!(first, second);
    assert_eq!(app.entry_count(), 2);
    assert_eq!(app.logs.get(1).content, "INFO ok");
}

#[test]
fn visible_entries_takes_the_filter_as_plain_values() {
    let app = two_entries();
    let levels = vec!["info".to_string()];
    let window = Some((Instant { seconds: NOON - 1_800, nanos: 0 }, NOW));
    let hits = visible_entries(&app.logs, &levels, FilterMode::IncludeSelected, "", window);
    assert_eq!(hits.len(), 1);
    assert_eq!(hits[0].content, "INFO ok");
    let hits = visible_entries(&app.logs, &levels, FilterMode::ExcludeSelected, "", None);
    assert_eq!(hits.len(), 1);
    assert_eq!(hits[0].content, "ERROR disk full");
    let hits = visible_entries(&app.logs, &Vec::new(), FilterMode::ExcludeSelected, "o", None);
    assert_eq!(hits.len(), 2);
}

#[test]
fn the_test_on_levels() {
    let levels = vec![chars("error"), chars("warn")];
    assert!(names_level(&levels, &chars("an error occurred")));
    assert!(names_level(&levels, &chars("warning")));
    assert!(!names_level(&levels, &chars("all fine")));
    assert!(!names_level(&Vec::new(), &chars("error")));
    assert!(level_matches(&levels, FilterMode::IncludeSelected, &chars("an error occurred")));
    assert!(!level_matches(&levels, FilterMode::IncludeSelected, &chars("all fine")));
    assert!(!level_matches(&levels, FilterMode::ExcludeSelected, &chars("an error occurred")));
    assert!(level_matches(&levels, FilterMode::ExcludeSelected, &chars("all fine")));
    assert!(level_matches(&Vec::new(), FilterMode::IncludeSelected, &chars("all fine")));
    assert!(level_matches(&Vec::new(), FilterMode::ExcludeSelected, &chars("an error occurred")));
    assert!(!level_matches(&levels, FilterMode::IncludeSelected, &chars("an ERROR occurred")));
}

#[test]
fn the_test_on_the_search_text() {
    assert!(search_matches(&chars(""), &chars("abc"), &chars("2025")));
    assert!(search_matches(&chars("bc"), &chars("abc"), &chars("2025")));
    assert!(search_matches(&chars("02"), &chars("abc"), &chars("2025")));
    assert!(!search_matches(&chars("x"), &chars("abc"), &chars("2025")));
    assert!(!search_matches(&chars("c2"), &chars("abc"), &chars("2025")));
}

#[test]
fn the_test_on_time() {
    let from = Instant { seconds: 100, nanos: 500 };
    let to = Instant { seconds: 200, nanos: 0 };
    let window = Some((from, to));
    assert!(time_matches(None, None));
    assert!(time_matches(None, Some(Instant { seconds: 1, nanos: 0 })));
    assert!(time_matches(window, None));
    assert!(time_matches(window, Some(from)));
    assert!(time_matches(window, Some(to)));
    assert!(time_matches(window, Some(Instant { seconds: 150, nanos: 999_999_999 })));
    assert!(!time_matches(window, Some(Instant { seconds: 100, nanos: 499 })));
    assert!(!time_matches(window, Some(Instant { seconds: 200, nanos: 1 })));
    assert!(!time_matches(window, Some(Instant { seconds: 99, nanos: 999_999_999 })));
    assert!(!time_matches(Some((to, from)), Some(Instant { seconds: 150, nanos: 0 })));
}

#[test]
fn a_text_is_read_as_a_moment() {
    let midnight: i64 = 1_757_894_400;
    let at = |seconds: i64| Some(Instant { seconds, nanos: 0 });
    assert_eq!(LogsApp::parse_time_input("2025-09-15 12:23:30"), at(midnight + 44_610));
    assert_eq!(LogsApp::parse_time_input("  2025-09-15 12:23:30\n"), at(midnight + 44_610));
    assert_eq!(LogsApp::parse_time_input("2025-09-15 12:23"), at(midnight + 44_580));
    assert_eq!(LogsApp::parse_time_input("2025-09-15"), at(midnight));
    assert_eq!(LogsApp::parse_time_input(" 2025-09-15 "), at(midnight));
    assert_eq!(LogsApp::parse_time_input("1970-01-01 00:00:00"), at(0));
    assert_eq!(LogsApp::parse_time_input("1969-12-31 23:59:59"), at(-1));
    assert_eq!(LogsApp::parse_time_input("2025-09-15 12"), None);
    assert_eq!(LogsApp::parse_time_input(""), None);
    assert_eq!(LogsApp::parse_time_input("   "), None);
    assert_eq!(LogsApp::parse_time_input("yesterday"), None);
    assert_eq!(LogsApp::parse_time_input("2025-02-30"), None);
    assert_eq!(LogsApp::parse_time_input("2025-09-15 25:00:00"), None);
    assert_eq!(LogsApp::parse_time_input("2025-09-15T12:23:30"), None);
    assert_eq!(
        LogsApp::parse_time_input("2025-06-30 23:59:60"),
        Some(Instant { seconds: 1_751_327_999, nanos: 1_000_000_000 }),
    );
}

/// The same reading, done with `chrono` directly.
fn read_directly(input: &str) -> Option<chrono::NaiveDateTime> {
    let text = input.trim();
    if text.is_empty() {
        return None;
    }
    for format in ["%Y-%m-%d %H:%M:%S", "%Y-%m-%d %H:%M", "%Y-%m-%d %H"] {
        if let Ok(at) = chrono::NaiveDateTime::parse_from_str(text, format) {
            return Some(at);
        }
    }
    chrono::NaiveDate::parse_from_str(text, "%Y-%m-%d").ok().and_then(|date| date.and_hms_opt(0, 0, 0))
}

#[test]
fn reading_a_time_agrees_with_chrono_used_directly() {
    let texts = [
        "2025-09-15 12:23:30",
        " 2025-09-15 12:23:30 ",
        "2025-09-15 12:23",
        "2025-09-15 12",
        "2025-09-15",
        "2025-9-5",
        "2025-9-5 1:2:3",
        "2025-09-15  12:23:30",
        "2025-09-15 12:23:30.5",
        "2025-09-15T12:23:30",
        "2025-06-30 23:59:60",
        "2025-02-29",
        "2024-02-29",
        "0000-01-01 00:00:00",
        "-0001-12-31 23:59:59",
        "+10000-01-01 00:00:00",
        "10000-01-01 00:00:00",
        "1969-12-31 23:59:59",
        "today",
        "",
        "   ",
        "12:23:30",
        "\u{3000}2025-09-15\u{3000}",
    ];
    for text in texts {
        let theirs = read_directly(text).map(|at| Instant {
            seconds: at.and_utc().timestamp(),
            nanos: at.and_utc().timestamp_subsec_nanos(),
        });
        assert_eq!(LogsApp::parse_time_input(text), theirs, "{:?}", text);
    }
}

#[test]
fn the_filter_agrees_with_the_standard_library_used_directly() {
    let entries = [
        ("2025-09-15 11:00:00", "ERROR disk full"),
        ("2025-09-15 11:30:00", "INFO ok"),
        ("2025-09-15 11:31:00", "Warning: İstanbul STRASSE straße"),
        ("2025-09-15 11:32:00", "ΟΔΥΣΣΕΥΣ sailed"),
        ("garbage", "no level here"),
        ("", ""),
    ];
    let app = app_with(&entries);
    let level_sets: [Vec<&str>; 5] = [vec![], vec!["error"], vec!["INFO", "warn"], vec!["ς"], vec![""]];
    let searches = ["", "disk", "DISK", "straße", "STRASSE", "i̇", "οδυσσευς", "11:3", "GARBAGE", " "];
    for levels in level_sets.iter() {
        for mode in [FilterMode::IncludeSelected, FilterMode::ExcludeSelected] {
            for search in searches {
                let selected: Vec<String> = levels.iter().map(|level| level.to_string()).collect();
                let ours: Vec<String> = visible_entries(&app.logs, &selected, mode, search, None)
                    .into_iter()
                    .map(|entry| entry.content.clone())
                    .collect();
                let theirs: Vec<String> = entries
                    .iter()
                    .filter(|(timestamp, content)| {
                        let content_lower = content.to_lowercase();
                        let on_level = if selected.is_empty() {
                            true
                        } else {
                            let named = selected.iter().any(|level| content_lower.contains(&level.to_lowercase()));
                            match mode {
                                FilterMode::IncludeSelected => named,
                                FilterMode::ExcludeSelected => !named,
                            }
                        };
                        let on_search = search.is_empty()
                            || content_lower.contains(&search.to_lowercase())
                            || timestamp.to_lowercase().contains(&search.to_lowercase());
                        on_level && on_search
                    })
                    .map(|(_, content)| content.to_string())
                    .collect();
                assert_eq!(ours, theirs, "{:?} {:?} {:?}", levels, mode, search);
            }
        }
    }
}
