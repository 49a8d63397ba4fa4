use nu_plugin_audio::ansi::{clear_until_newline, move_to_column, move_up, set_style, TextStyle};
use nu_plugin_audio::text::{contains_str, decimal_string, format_duration, str_equals, to_lowercase, to_uppercase};
use nu_plugin_audio::width::{char_width, str_width};

const SEC: u64 = 1_000_000_000;

#[test]
fn decimal_numbers() {
    assert_eq!(decimal_string(0), "0");
    assert_eq!(decimal_string(7), "7");
    assert_eq!(decimal_string(10), "10");
    assert_eq!(decimal_string(100), "100");
    assert_eq!(decimal_string(u64::MAX), "18446744073709551615");
}

#[test]
fn durations_as_minutes_and_seconds() {
    assert_eq!(format_duration(0), "0:00");
    assert_eq!(format_duration(42 * SEC), "0:42");
    assert_eq!(format_duration(245 * SEC), "4:05");
    assert_eq!(format_duration(245 * SEC + 999_999_999), "4:05");
    assert_eq!(format_duration(3600 * SEC), "60:00");
}

#[test]
fn string_comparisons() {
    assert!(str_equals("abc", "abc"));
    assert!(!str_equals("abc", "abd"));
    assert!(!str_equals("abc", "ab"));
    assert!(contains_str("EN_US.UTF-8", "UTF-8"));
    assert!(!contains_str("C", "UTF8"));
    assert!(contains_str("x", ""));
    assert!(!contains_str("", "x"));
}

#[test]
fn case_mappings() {
    assert_eq!(to_lowercase("TrUe"), "true");
    assert_eq!(to_uppercase("en_US.utf8"), "EN_US.UTF8");
}

#[test]
fn widths_of_text() {
    assert_eq!(char_width(' '), Some(1));
    assert_eq!(char_width('a'), Some(1));
    assert_eq!(char_width('\n'), None);
    assert_eq!(char_width('\u{7f}'), None);
    assert_eq!(char_width('日'), Some(2));
    assert_eq!(str_width(""), 0);
    assert_eq!(str_width("abc"), 3);
    assert_eq!(str_width("日本"), 4);
}

#[test]
fn terminal_sequences() {
    assert_eq!(move_up(1), "\x1b[1A");
    assert_eq!(move_up(12), "\x1b[12A");
    assert_eq!(move_to_column(0), "\x1b[1G");
    assert_eq!(move_to_column(9), "\x1b[10G");
    assert_eq!(clear_until_newline(), "\x1b[K");
    assert_eq!(set_style(TextStyle::Bold), "\x1b[1m");
    assert_eq!(set_style(TextStyle::Reset), "\x1b[0m");
}
