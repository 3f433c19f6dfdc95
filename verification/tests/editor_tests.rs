use pico::config::{ConfigLoad, ConfigManager, EditorConfig, Insert};
use pico::cursor::{Position, SearchDirection};
use pico::editor::{initial_status, save_step, DocEdit, Editor, KeyAction, RowKind, SaveStep};
use pico::keys::Key;

fn p(x: usize, y: usize) -> Position {
    Position { x, y }
}

fn config() -> EditorConfig {
    EditorConfig::default()
}

fn editor() -> Editor {
    Editor::new(String::from("hi"), &config())
}

#[test]
fn initial_status_texts() {
    assert_eq!(
        initial_status(None),
        "HELP: Ctrl-D = jump down | Ctrl-U = jump up | Ctrl-F = find | Ctrl-S = save | Ctrl-Q = quit"
    );
    assert_eq!(initial_status(Some("notes.txt")), "ERR: Could not open file: notes.txt");
}

#[test]
fn new_editor_state() {
    let e = editor();
    assert!(!e.should_quit());
    assert_eq!(e.cursor_position(), p(0, 0));
    assert_eq!(e.offset(), p(0, 0));
    assert_eq!(e.quit_times(), 3);
    assert_eq!(e.status_text(), "hi");
    assert_eq!(e.highlighted_word(), None);
}

#[test]
fn dirty_document_needs_extra_quit_presses() {
    let cfg = config();
    let rows = vec![1];
    let mut e = editor();
    for left in [3u8, 2, 1] {
        let action = e.begin_keypress(Key::Ctrl('q'), &cfg, &rows, true, 24);
        assert_eq!(action, KeyAction::Warned);
        assert!(!e.should_quit());
        assert_eq!(e.quit_times(), left - 1);
        assert_eq!(
            e.status_text(),
            format!("WARNING! File has unsaved changes. Press Ctrl-Q {} more times to quit.", left)
        );
        assert_eq!(e.finish_keypress(action, &cfg, &rows, 24, 80, 24), None);
        assert_eq!(e.quit_times(), left - 1);
    }
    let action = e.begin_keypress(Key::Ctrl('q'), &cfg, &rows, true, 24);
    assert_eq!(action, KeyAction::Handled);
    assert!(e.should_quit());
}

#[test]
fn clean_document_quits_at_once() {
    let cfg = config();
    let mut e = editor();
    let action = e.begin_keypress(Key::Ctrl('q'), &cfg, &vec![], false, 24);
    assert_eq!(action, KeyAction::Handled);
    assert!(e.should_quit());
}

#[test]
fn other_key_restores_quit_count_and_clears_status() {
    let cfg = config();
    let rows = vec![4];
    let mut e = editor();
    let a = e.begin_keypress(Key::Ctrl('q'), &cfg, &rows, true, 24);
    e.finish_keypress(a, &cfg, &rows, 24, 80, 24);
    assert_eq!(e.quit_times(), 2);
    let a = e.begin_keypress(Key::Right, &cfg, &rows, true, 24);
    assert_eq!(a, KeyAction::Handled);
    assert_eq!(e.finish_keypress(a, &cfg, &rows, 24, 80, 24), None);
    assert_eq!(e.quit_times(), 3);
    assert_eq!(e.status_text(), "");
    assert_eq!(e.cursor_position(), p(1, 0));
}

#[test]
fn tab_expands_and_cursor_steps_over_spaces() {
    let cfg = config();
    let mut e = editor();
    let a = e.begin_keypress(Key::Char('\t'), &cfg, &vec![0], false, 24);
    assert_eq!(a, KeyAction::Edit(DocEdit::InsertTab { at: p(0, 0), spaces: 2 }));
    // the document now holds the two spaces
    assert_eq!(e.finish_keypress(a, &cfg, &vec![2], 24, 80, 24), None);
    assert_eq!(e.cursor_position(), p(2, 0));
}

#[test]
fn tab_without_expansion_does_nothing() {
    let cfg = EditorConfig::new(Insert { autopairs: false, expand_tab: false, space_expansion: None }, 0);
    let mut e = Editor::new(String::new(), &cfg);
    let a = e.begin_keypress(Key::Char('\t'), &cfg, &vec![0], false, 24);
    assert_eq!(a, KeyAction::Handled);
    assert_eq!(e.finish_keypress(a, &cfg, &vec![0], 24, 80, 24), None);
    assert_eq!(e.cursor_position(), p(0, 0));
}

#[test]
fn typed_character_and_pair() {
    let cfg = config();
    let mut e = editor();
    let a = e.begin_keypress(Key::Char('('), &cfg, &vec![0], false, 24);
    assert_eq!(a, KeyAction::Edit(DocEdit::Insert { at: p(0, 0), ch: '(' }));
    let follow = e.finish_keypress(a, &cfg, &vec![1], 24, 80, 24);
    assert_eq!(follow, Some(DocEdit::InsertPair { at: p(1, 0), ch: '(' }));
    assert_eq!(e.cursor_position(), p(1, 0));

    let plain = EditorConfig::new(Insert { autopairs: false, expand_tab: true, space_expansion: Some(2) }, 3);
    let mut e = Editor::new(String::new(), &plain);
    let a = e.begin_keypress(Key::Char('x'), &plain, &vec![0], false, 24);
    assert_eq!(e.finish_keypress(a, &plain, &vec![1], 24, 80, 24), None);
    assert_eq!(e.cursor_position(), p(1, 0));
}

#[test]
fn delete_and_backspace() {
    let cfg = config();
    let rows = vec![3, 2];
    let mut e = editor();
    assert_eq!(e.begin_keypress(Key::Delete, &cfg, &rows, false, 24), KeyAction::Edit(DocEdit::Delete { at: p(0, 0) }));
    assert_eq!(e.begin_keypress(Key::Backspace, &cfg, &rows, false, 24), KeyAction::Handled);
    e.begin_keypress(Key::Down, &cfg, &rows, false, 24);
    assert_eq!(e.cursor_position(), p(0, 1));
    assert_eq!(e.begin_keypress(Key::Backspace, &cfg, &rows, false, 24), KeyAction::Edit(DocEdit::Delete { at: p(3, 0) }));
    assert_eq!(e.cursor_position(), p(3, 0));
}

#[test]
fn save_search_and_jumps() {
    let cfg = config();
    let rows = vec![1; 50];
    let mut e = editor();
    assert_eq!(e.begin_keypress(Key::Ctrl('s'), &cfg, &rows, false, 24), KeyAction::Save);
    assert_eq!(e.begin_keypress(Key::Ctrl('f'), &cfg, &rows, false, 24), KeyAction::Search);
    assert_eq!(e.begin_keypress(Key::Ctrl('x'), &cfg, &rows, false, 24), KeyAction::Handled);
    e.begin_keypress(Key::Ctrl('d'), &cfg, &rows, false, 24);
    assert_eq!(e.cursor_position().y, 20);
    e.begin_keypress(Key::Ctrl('d'), &cfg, &rows, false, 24);
    e.begin_keypress(Key::Ctrl('d'), &cfg, &rows, false, 24);
    assert_eq!(e.cursor_position().y, 49);
    e.begin_keypress(Key::Ctrl('u'), &cfg, &rows, false, 24);
    assert_eq!(e.cursor_position().y, 29);
    e.jump_up();
    e.jump_up();
    assert_eq!(e.cursor_position().y, 0);
    e.jump_down(5);
    assert_eq!(e.cursor_position().y, 4);
}

#[test]
fn save_messages() {
    let mut e = editor();
    e.save_aborted();
    assert_eq!(e.status_text(), "Save aborted.");
    e.save_finished(true);
    assert_eq!(e.status_text(), "File saved successfully.");
    e.save_finished(false);
    assert_eq!(e.status_text(), "Error writing file!");
}

#[test]
fn prompt_status() {
    let mut e = editor();
    e.show_prompt("Save as: ", "a.txt");
    assert_eq!(e.status_text(), "Save as: a.txt");
    e.end_prompt();
    assert_eq!(e.status_text(), "");
}

#[test]
fn search_steps() {
    let rows = vec![5, 5];
    let mut e = editor();
    assert_eq!(e.search_key(Key::Down, &rows, 24), (SearchDirection::Forward, true));
    assert_eq!(e.cursor_position(), p(1, 0));
    e.search_result(None, true, "ab", &rows, 24, 80, 24);
    assert_eq!(e.cursor_position(), p(0, 0));
    assert_eq!(e.highlighted_word(), Some("ab"));
    assert_eq!(e.search_key(Key::Up, &rows, 24), (SearchDirection::Backward, false));
    assert_eq!(e.search_key(Key::Char('c'), &rows, 24), (SearchDirection::Forward, false));
    e.search_result(Some(p(3, 1)), false, "abc", &rows, 24, 80, 24);
    assert_eq!(e.cursor_position(), p(3, 1));
    assert_eq!(e.highlighted_word(), Some("abc"));
    e.search_end(false, p(0, 0), 80, 24);
    assert_eq!(e.cursor_position(), p(3, 1));
    assert_eq!(e.highlighted_word(), None);
    e.search_result(Some(p(4, 1)), false, "x", &rows, 24, 80, 24);
    e.search_end(true, p(0, 0), 80, 24);
    assert_eq!(e.cursor_position(), p(0, 0));
    assert_eq!(e.highlighted_word(), None);
}

#[test]
fn screen_geometry() {
    let cfg = config();
    let rows = vec![100; 100];
    let mut e = editor();
    for _ in 0..30 {
        e.move_cursor(Key::Down, &rows, 10);
    }
    e.move_cursor(Key::End, &rows, 10);
    e.scroll(80, 10);
    assert_eq!(e.cursor_position(), p(100, 30));
    assert_eq!(e.offset(), p(21, 21));
    assert_eq!(e.screen_cursor(), p(79, 9));
    assert_eq!(e.highlight_limit(10), 31);
    assert_eq!(e.row_span(80), (21, 101));
    assert_eq!(e.row_kind(0, 10, 100, false), RowKind::Text(21));
    assert_eq!(e.row_kind(3, 10, 22, false), RowKind::Filler);
    let f = editor();
    assert_eq!(f.row_kind(3, 10, 0, true), RowKind::Welcome);
    assert_eq!(f.row_kind(4, 10, 0, true), RowKind::Filler);
    let _ = cfg;
}

#[test]
fn message_bar_of_fresh_status() {
    let e = editor();
    assert_eq!(e.message_bar(80), Some("hi".to_string()));
    assert_eq!(e.message_bar(1), Some("h".to_string()));
}

#[test]
fn config_manager_drives_editor() {
    let m = ConfigManager::from_load(ConfigLoad::Unreadable);
    let e = Editor::new(String::new(), m.get_config());
    assert_eq!(e.quit_times(), 3);
}

#[test]
fn save_steps() {
    assert_eq!(save_step(true), SaveStep::Write);
    assert_eq!(save_step(false), SaveStep::AskName);
    let mut e = editor();
    assert_eq!(e.save_name_answer(Some("a.txt".to_string())), Some("a.txt".to_string()));
    assert_eq!(e.status_text(), "hi");
    assert_eq!(e.save_name_answer(None), None);
    assert_eq!(e.status_text(), "Save aborted.");
}
