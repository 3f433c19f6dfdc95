use pico::status::{message_bar_text, StatusMessage};
use pico::text::{decimal_string, is_control, push_spaces, take_bytes_of, width_of};

#[test]
fn decimals() {
    assert_eq!(decimal_string(0), "0");
    assert_eq!(decimal_string(7), "7");
    assert_eq!(decimal_string(12345), "12345");
    assert_eq!(decimal_string(usize::MAX), usize::MAX.to_string());
}

#[test]
fn cutting_by_bytes() {
    assert_eq!(take_bytes_of("hello", 3), "hel");
    assert_eq!(take_bytes_of("hello", 10), "hello");
    assert_eq!(take_bytes_of("héllo", 2), "h");
    assert_eq!(take_bytes_of("héllo", 3), "hé");
    assert_eq!(take_bytes_of("", 3), "");
    assert_eq!(take_bytes_of("abc", 0), "");
}

#[test]
fn widths_and_controls() {
    assert_eq!(width_of('a'), 1);
    assert_eq!(width_of('é'), 2);
    assert_eq!(width_of('€'), 3);
    assert_eq!(width_of('😀'), 4);
    assert!(is_control('\n'));
    assert!(is_control('\u{7f}'));
    assert!(is_control('\u{9f}'));
    assert!(!is_control('a'));
    assert!(!is_control('\u{a0}'));
}

#[test]
fn spaces_are_appended() {
    let mut s = String::from("x");
    push_spaces(&mut s, 3);
    assert_eq!(s, "x   ");
}

#[test]
fn message_bar_shows_fresh_messages_only() {
    assert_eq!(message_bar_text("Saved file", 4, 5), Some("Saved".to_string()));
    assert_eq!(message_bar_text("Saved file", 0, 80), Some("Saved file".to_string()));
    assert_eq!(message_bar_text("Saved file", 5, 80), None);
}

#[test]
fn new_status_message_is_shown() {
    let m = StatusMessage::from("hello world".to_string());
    assert_eq!(m.text(), "hello world");
    assert_eq!(m.bar_text(5), Some("hello".to_string()));
}
