use vstd::prelude::*;
use crate::keys::Key;

verus! {

/// A place in the document (or on the screen): column `x`, line `y`.
#[derive(Clone, Copy, Debug, PartialEq, Eq, Structural)]
pub struct Position {
    pub x: usize,
    pub y: usize,
}

impl Default for Position {
    fn default() -> (res: Self)
        ensures
            res.x == 0,
            res.y == 0,
    {
        Position { x: 0, y: 0 }
    }
}

/// Which way a search looks from the cursor.
#[derive(Clone, Copy, Debug, PartialEq, Eq, Structural)]
pub enum SearchDirection {
    Forward,
    Backward,
}

/// `a - b`, or 0 where that would be negative.
pub open spec fn sat_sub(a: usize, b: usize) -> usize {
    if a >= b { (a - b) as usize } else { 0 }
}

/// `a + b`, or the largest `usize` where that would not fit.
pub open spec fn sat_add(a: usize, b: usize) -> usize {
    if a + b <= usize::MAX { (a + b) as usize } else { usize::MAX }
}

/// The length of line `y` of a document whose lines have the lengths `rows`;
/// 0 past the last line.
pub open spec fn row_width(rows: Seq<usize>, y: usize) -> usize {
    if y < rows.len() { rows[y as int] } else { 0 }
}

/// The cursor lies in the document: on one of its lines or just after the
/// last one, and not past the end of its line.
pub open spec fn in_document(p: Position, rows: Seq<usize>) -> bool {
    p.y <= rows.len() && p.x <= row_width(rows, p.y)
}

/// Where a movement key takes the cursor, before the column is held to the
/// length of the line it lands on. `page` is the terminal's height.
pub open spec fn raw_move(p: Position, key: Key, rows: Seq<usize>, page: usize) -> Position {
    let h = rows.len();
    match key {
        Key::Up => Position { x: p.x, y: sat_sub(p.y, 1) },
        Key::Down => if p.y < h { Position { x: p.x, y: (p.y + 1) as usize } } else { p },
        Key::Left => if p.x > 0 {
            Position { x: (p.x - 1) as usize, y: p.y }
        } else if p.y > 0 {
            Position { x: row_width(rows, (p.y - 1) as usize), y: (p.y - 1) as usize }
        } else {
            p
        },
        Key::Right => if p.x < row_width(rows, p.y) {
            Position { x: (p.x + 1) as usize, y: p.y }
        } else if p.y < h {
            Position { x: 0, y: (p.y + 1) as usize }
        } else {
            p
        },
        Key::PageUp => Position { x: p.x, y: if p.y > page { (p.y - page) as usize } else { 0 } },
        Key::PageDown => Position {
            x: p.x,
            y: if p.y + page < h { (p.y + page) as usize } else { h as usize },
        },
        Key::Home => Position { x: 0, y: p.y },
        Key::End => Position { x: row_width(rows, p.y), y: p.y },
        _ => p,
    }
}

/// Where a key takes the cursor: the movement, then the column held to the
/// length of the line the cursor is on.
pub open spec fn moved(p: Position, key: Key, rows: Seq<usize>, page: usize) -> Position {
    let q = raw_move(p, key, rows, page);
    Position { x: if q.x > row_width(rows, q.y) { row_width(rows, q.y) } else { q.x }, y: q.y }
}

/// The cursor after `n` presses of the same key.
pub open spec fn moved_times(p: Position, key: Key, rows: Seq<usize>, page: usize, n: nat) -> Position
    decreases n,
{
    if n == 0 { p } else { moved(moved_times(p, key, rows, page, (n - 1) as nat), key, rows, page) }
}

/// The line that Ctrl-D jumps to: twenty lines down, or the last line where
/// that would pass the end of a document of `len` lines.
pub open spec fn jump_down_line(y: usize, len: usize) -> usize {
    if sat_add(y, 20) > len { sat_sub(len, 1) } else { sat_add(y, 20) }
}

/// The line that Ctrl-U jumps to: twenty lines up, or the first line.
pub open spec fn jump_up_line(y: usize) -> usize {
    sat_sub(y, 20)
}

/// The start of the view along one axis after scrolling so that `c` shows in
/// a window of `size` cells that started at `start`.
pub open spec fn scrolled_start(c: usize, start: usize, size: usize) -> usize {
    if c < start {
        c
    } else if c >= sat_add(start, size) {
        sat_add(sat_sub(c, size), 1)
    } else {
        start
    }
}

/// The view's top-left corner after scrolling it to the cursor.
pub open spec fn scrolled(cursor: Position, offset: Position, width: usize, height: usize) -> Position {
    Position {
        x: scrolled_start(cursor.x, offset.x, width),
        y: scrolled_start(cursor.y, offset.y, height),
    }
}

/// The view whose corner is `offset` and whose size is `width` by `height`
/// shows the cell `p`.
pub open spec fn shows(offset: Position, width: usize, height: usize, p: Position) -> bool {
    offset.x <= p.x < offset.x + width && offset.y <= p.y < offset.y + height
}

/// Moves the cursor by one key press over a document whose lines have the
/// lengths `rows`; `page` is the terminal's height.
pub fn move_position(p: Position, key: Key, rows: &Vec<usize>, page: usize) -> (res: Position)
    ensures
        res == moved(p, key, rows@, page),
{
    let height = rows.len();
    let mut y = p.y;
    let mut x = p.x;
    let mut width = if y < height { rows[y] } else { 0 };
    match key {
        Key::Up => y = y.saturating_sub(1),
        Key::Down => {
            if y < height {
                y = y.saturating_add(1);
            }
        },
        Key::Left => {
            if x > 0 {
                x = x.saturating_sub(1);
            } else if y > 0 {
                y = y.saturating_sub(1);
                if y < height {
                    x = rows[y];
                } else {
                    x = 0;
                }
            }
        },
        Key::Right => {
            if x < width {
                x = x.saturating_add(1);
            } else if y < height {
                y = y.saturating_add(1);
                x = 0;
            }
        },
        Key::PageUp => {
            y = if y > page { y.saturating_sub(page) } else { 0 }
        },
        Key::PageDown => {
            y = if y.saturating_add(page) < height { y.saturating_add(page) } else { height }
        },
        Key::Home => x = 0,
        Key::End => x = width,
        _ => (),
    }
    width = if y < height { rows[y] } else { 0 };
    if x > width {
        x = width;
    }
    Position { x, y }
}

/// Ctrl-D: the cursor jumps twenty lines down, or to the last line of a
/// document of `len` lines.
pub fn jump_down_position(p: Position, len: usize) -> (res: Position)
    ensures
        res == (Position { x: p.x, y: jump_down_line(p.y, len) }),
        res.y <= len,
{
    if p.y.saturating_add(20) > len {
        Position { x: p.x, y: len.saturating_sub(1) }
    } else {
        Position { x: p.x, y: p.y.saturating_add(20) }
    }
}

/// Ctrl-U: the cursor jumps twenty lines up, or to the first line.
pub fn jump_up_position(p: Position) -> (res: Position)
    ensures
        res == (Position { x: p.x, y: jump_up_line(p.y) }),
{
    Position { x: p.x, y: p.y.saturating_sub(20) }
}

/// The view's corner after scrolling it so that it shows the cursor.
pub fn scroll_offset(cursor: Position, offset: Position, width: usize, height: usize) -> (res: Position)
    ensures
        res == scrolled(cursor, offset, width, height),
{
    let Position { x, y } = cursor;
    let mut off = offset;
    if y < off.y {
        off.y = y;
    } else if y >= off.y.saturating_add(height) {
        off.y = y.saturating_sub(height).saturating_add(1);
    }
    if x < off.x {
        off.x = x;
    } else if x >= off.x.saturating_add(width) {
        off.x = x.saturating_sub(width).saturating_add(1);
    }
    off
}

/// A key press never takes the cursor out of the document: a cursor on a
/// line of the document, or just after its last line, stays so, and its
/// column never passes the end of its line.
pub proof fn lemma_move_stays_in_document(p: Position, key: Key, rows: Seq<usize>, page: usize)
    requires
        p.y <= rows.len(),
    ensures
        in_document(moved(p, key, rows, page), rows),
{
}

/// Right then Left brings the cursor back to where it was, wherever Right
/// moved it: along the line, or from the end of a line to the start of the
/// next one.
pub proof fn lemma_left_undoes_right(p: Position, rows: Seq<usize>, page: usize)
    requires
        rows.len() <= usize::MAX,
        in_document(p, rows),
        moved(p, Key::Right, rows, page) != p,
    ensures
        moved(moved(p, Key::Right, rows, page), Key::Left, rows, page) == p,
{
    let q = moved(p, Key::Right, rows, page);
    if p.x < row_width(rows, p.y) {
        assert(q == Position { x: (p.x + 1) as usize, y: p.y });
    } else {
        assert(p.y < rows.len());
        assert(q == Position { x: 0, y: (p.y + 1) as usize });
        assert(raw_move(q, Key::Left, rows, page) == Position { x: row_width(rows, p.y), y: p.y });
    }
}

/// Left then Right brings the cursor back to where it was, wherever Left
/// moved it.
pub proof fn lemma_right_undoes_left(p: Position, rows: Seq<usize>, page: usize)
    requires
        rows.len() <= usize::MAX,
        in_document(p, rows),
        moved(p, Key::Left, rows, page) != p,
    ensures
        moved(moved(p, Key::Left, rows, page), Key::Right, rows, page) == p,
{
}

/// Home and End take the cursor to the start and to the end of its line.
pub proof fn lemma_home_end(p: Position, rows: Seq<usize>, page: usize)
    ensures
        moved(p, Key::Home, rows, page) == (Position { x: 0, y: p.y }),
        moved(p, Key::End, rows, page) == (Position { x: row_width(rows, p.y), y: p.y }),
{
}

/// Up, Down, Page Up and Page Down: Up goes one line up (not above the
/// first), Down one line down (not past the line after the last), Page Up a
/// screen up (to the first line when it would go above it), Page Down a
/// screen down (to the line after the last when it would pass it); the
/// column stays where it was unless the new line is shorter, and then it
/// goes to the end of that line.
pub proof fn lemma_vertical_moves(p: Position, rows: Seq<usize>, page: usize)
    requires
        rows.len() <= usize::MAX,
        p.y <= rows.len(),
    ensures
        moved(p, Key::Up, rows, page).y == (if p.y > 0 { p.y - 1 } else { 0 }),
        moved(p, Key::Down, rows, page).y == (if p.y < rows.len() { p.y + 1 } else { p.y as int }),
        moved(p, Key::PageUp, rows, page).y == (if p.y > page { p.y - page } else { 0 }),
        moved(p, Key::PageDown, rows, page).y == (if p.y + page < rows.len() { p.y + page } else { rows.len() as int }),
        forall|k: Key| #![trigger moved(p, k, rows, page)]
            (k is Up || k is Down || k is PageUp || k is PageDown) ==> {
                let q = moved(p, k, rows, page);
                &&& q.x <= p.x
                &&& q.x <= row_width(rows, q.y)
                &&& (q.x == p.x || q.x == row_width(rows, q.y))
            },
{
}

/// Right pressed `n` times on a line with room for it moves the cursor `n`
/// columns along the line.
pub proof fn lemma_right_steps_along_line(p: Position, rows: Seq<usize>, page: usize, n: nat)
    requires
        p.x + n <= row_width(rows, p.y),
    ensures
        moved_times(p, Key::Right, rows, page, n) == (Position { x: (p.x + n) as usize, y: p.y }),
    decreases n,
{
    if n > 0 {
        lemma_right_steps_along_line(p, rows, page, (n - 1) as nat);
    }
}

/// Ctrl-D never takes the cursor past the line after the document's last,
/// and Ctrl-U never takes it down.
pub proof fn lemma_jumps_stay_in_document(y: usize, len: usize)
    ensures
        jump_down_line(y, len) <= len,
        jump_up_line(y) <= y,
{
}

/// After scrolling, the view shows the cursor.
pub proof fn lemma_scroll_shows_cursor(cursor: Position, offset: Position, width: usize, height: usize)
    requires
        width > 0,
        height > 0,
    ensures
        shows(scrolled(cursor, offset, width, height), width, height, cursor),
{
}

/// A view that already shows the cursor is left where it is, as long as
/// the view does not reach past the end of the `usize` range. (With the view
/// at column `usize::MAX - 1`, five columns wide, and the cursor at column
/// `usize::MAX`, the view shows the cursor and yet moves to
/// `usize::MAX - 4`.)
pub proof fn lemma_scroll_keeps_view(cursor: Position, offset: Position, width: usize, height: usize)
    requires
        offset.x + width <= usize::MAX,
        offset.y + height <= usize::MAX,
    ensures
        shows(offset, width, height, cursor) ==> scrolled(cursor, offset, width, height) == offset,
{
}

/// Scrolling twice is scrolling once.
pub proof fn lemma_scroll_idempotent(cursor: Position, offset: Position, width: usize, height: usize)
    requires
        width > 0,
        height > 0,
    ensures
        scrolled(cursor, scrolled(cursor, offset, width, height), width, height)
            == scrolled(cursor, offset, width, height),
{
    lemma_scroll_shows_cursor(cursor, offset, width, height);
}

} // verus!
