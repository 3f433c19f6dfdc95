use pico::keys::Key;
use pico::prompt::{prompt_answer, prompt_key};
use pico::render::{status_line, welcome_line};

#[test]
fn welcome_is_centred() {
    assert_eq!(welcome_line("0.1.0", 40), "~     Pico editor -- version 0.1.0");
    assert_eq!(welcome_line("0.1.0", 10), "~Pico edit");
    assert_eq!(welcome_line("0.1.0", 0), "");
}

#[test]
fn status_bar_layout() {
    assert_eq!(
        status_line(Some("main.rs"), 10, true, "Rust", 0, 40),
        "main.rs - 10 lines (modified)Rust | 1/10"
    );
    assert_eq!(
        status_line(Some("main.rs"), 10, false, "Rust", 4, 40),
        "main.rs - 10 lines           Rust | 5/10"
    );
    assert_eq!(status_line(None, 0, false, "No filetype", 0, 20), "[No Name] - 0 linesN");
    assert_eq!(
        status_line(Some("a_very_long_file_name_indeed.txt"), 1, false, "Text", 0, 60),
        "a_very_long_file_nam - 1 lines                    Text | 1/1"
    );
}

#[test]
fn prompt_editing() {
    let mut a = String::new();
    assert!(!prompt_key(&mut a, Key::Char('a')));
    assert!(!prompt_key(&mut a, Key::Char('b')));
    assert!(!prompt_key(&mut a, Key::Char('\u{1}')));
    assert_eq!(a, "ab");
    assert!(!prompt_key(&mut a, Key::Backspace));
    assert_eq!(a, "a");
    assert!(!prompt_key(&mut a, Key::Left));
    assert_eq!(a, "a");
    assert!(prompt_key(&mut a, Key::Char('\n')));
    assert_eq!(a, "a");
    assert_eq!(prompt_answer(a.clone()), Some("a".to_string()));
    assert!(prompt_key(&mut a, Key::Esc));
    assert_eq!(a, "");
    assert_eq!(prompt_answer(a), None);
    let mut empty = String::new();
    assert!(!prompt_key(&mut empty, Key::Backspace));
    assert_eq!(empty, "");
}
