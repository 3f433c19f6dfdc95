use pico::cursor::{jump_down_position, jump_up_position, move_position, scroll_offset, Position, SearchDirection};
use pico::keys::Key;

fn p(x: usize, y: usize) -> Position {
    Position { x, y }
}

#[test]
fn default_position_is_origin() {
    assert_eq!(Position::default(), p(0, 0));
    assert!(SearchDirection::Forward != SearchDirection::Backward);
}

#[test]
fn arrows_move_within_lines() {
    let rows = vec![3, 5, 0];
    assert_eq!(move_position(p(1, 1), Key::Left, &rows, 10), p(0, 1));
    assert_eq!(move_position(p(1, 1), Key::Right, &rows, 10), p(2, 1));
    assert_eq!(move_position(p(1, 1), Key::Up, &rows, 10), p(1, 0));
    assert_eq!(move_position(p(1, 0), Key::Down, &rows, 10), p(1, 1));
    assert_eq!(move_position(p(0, 0), Key::Up, &rows, 10), p(0, 0));
}

#[test]
fn right_at_line_end_wraps_and_left_wraps_back() {
    let rows = vec![3, 5, 0];
    let q = move_position(p(3, 0), Key::Right, &rows, 10);
    assert_eq!(q, p(0, 1));
    assert_eq!(move_position(q, Key::Left, &rows, 10), p(3, 0));
    // at the line after the last one the cursor stays
    assert_eq!(move_position(p(0, 3), Key::Right, &rows, 10), p(0, 3));
    assert_eq!(move_position(p(0, 3), Key::Down, &rows, 10), p(0, 3));
    // at the very start Left stays
    assert_eq!(move_position(p(0, 0), Key::Left, &rows, 10), p(0, 0));
}

#[test]
fn column_is_held_to_the_line() {
    let rows = vec![3, 5, 0];
    assert_eq!(move_position(p(5, 1), Key::Up, &rows, 10), p(3, 0));
    assert_eq!(move_position(p(4, 1), Key::Down, &rows, 10), p(0, 2));
}

#[test]
fn home_end_and_pages() {
    let rows = vec![3, 5, 0, 7, 7, 7];
    assert_eq!(move_position(p(2, 1), Key::Home, &rows, 2), p(0, 1));
    assert_eq!(move_position(p(2, 1), Key::End, &rows, 2), p(5, 1));
    assert_eq!(move_position(p(2, 1), Key::PageDown, &rows, 2), p(2, 3));
    assert_eq!(move_position(p(2, 5), Key::PageDown, &rows, 2), p(0, 6));
    assert_eq!(move_position(p(2, 5), Key::PageUp, &rows, 2), p(2, 3));
    assert_eq!(move_position(p(2, 2), Key::PageUp, &rows, 2), p(2, 0));
    assert_eq!(move_position(p(2, 2), Key::Other, &rows, 2), p(0, 2));
}

#[test]
fn jumps() {
    assert_eq!(jump_down_position(p(4, 3), 100), p(4, 23));
    assert_eq!(jump_down_position(p(4, 3), 10), p(4, 9));
    assert_eq!(jump_down_position(p(4, 3), 0), p(4, 0));
    assert_eq!(jump_up_position(p(1, 30)), p(1, 10));
    assert_eq!(jump_up_position(p(1, 5)), p(1, 0));
}

#[test]
fn scrolling_follows_the_cursor() {
    // cursor below the view
    assert_eq!(scroll_offset(p(3, 30), p(0, 0), 80, 24), p(0, 7));
    // cursor above the view
    assert_eq!(scroll_offset(p(3, 2), p(0, 10), 80, 24), p(0, 2));
    // cursor to the right
    assert_eq!(scroll_offset(p(100, 2), p(0, 0), 80, 24), p(21, 0));
    // already shown: unchanged
    assert_eq!(scroll_offset(p(5, 5), p(1, 1), 80, 24), p(1, 1));
    let once = scroll_offset(p(100, 50), p(0, 0), 80, 24);
    assert_eq!(scroll_offset(p(100, 50), once, 80, 24), once);
}
