use evolution_board::storage::{board_file_in, join_path, StateBoardStorage};
use evolution_board::text::{decimal, join, json_escaped, quote_or_null, quoted_list, repeat, text_le, to_lowercase, trim};
use evolution_board::time::{Timestamp, MAX_MICROS, MIN_MICROS};

#[test]
fn numbers_and_lists() {
    assert_eq!(decimal(0), "0");
    assert_eq!(decimal(1234567), "1234567");
    assert_eq!(join(&["a".to_string(), "b".to_string()], ", "), "a, b");
    assert_eq!(join(&[], ", "), "");
    assert_eq!(quoted_list(&["x".to_string(), "y".to_string()]), "\"x\", \"y\"");
    assert_eq!(quote_or_null(&None), "null");
    assert_eq!(quote_or_null(&Some("v".to_string())), "\"v\"");
    assert_eq!(repeat("ab", 3), "ababab");
}

#[test]
fn trimming_and_case() {
    assert_eq!(trim(" \t 你好 \n"), "你好");
    assert_eq!(to_lowercase("HeLLo ÄB"), "hello äb");
    assert_eq!(to_lowercase("OLLAMA 狀態"), "ollama 狀態");
    assert_eq!(to_lowercase("OpenCode please，建庫存"), "opencode please，建庫存");
}

#[test]
fn storage_paths() {
    assert_eq!(join_path("", "a"), "a");
    assert_eq!(join_path("/x/", "a"), "/x/a");
    assert_eq!(board_file_in("/r"), "/r/state_board.json");
    let s = StateBoardStorage::new("/nonexistent/board.json");
    assert_eq!(s.path(), "/nonexistent/board.json");
    assert!(StateBoardStorage::default_path().ends_with(".evolution/state_board.json"));
}

#[test]
fn timestamps_stay_in_range() {
    assert!(Timestamp::from_micros(MIN_MICROS).is_some());
    assert!(Timestamp::from_micros(MAX_MICROS).is_some());
    assert!(Timestamp::from_micros(MAX_MICROS + 1).is_none());
    assert!(Timestamp::from_micros(i64::MIN).is_none());
    assert!(Timestamp::now().micros() > 0);
}

#[test]
fn json_strings_are_escaped() {
    assert_eq!(json_escaped("a\"b\\c\nd\te\u{1}"), "a\\\"b\\\\c\\nd\\te\\u0001");
    assert_eq!(quote_or_null(&Some("C:\\Users\\x".to_string())), "\"C:\\\\Users\\\\x\"");
    assert_eq!(quoted_list(&["say \"hi\"".to_string()]), "\"say \\\"hi\\\"\"");
}

#[test]
fn texts_are_ordered_by_characters() {
    assert!(text_le("2024-01-01", "2024-01-02"));
    assert!(!text_le("2024-01-02", "2024-01-01"));
    assert!(text_le("ab", "abc"));
    assert!(text_le("", ""));
}
