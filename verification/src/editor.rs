use vstd::prelude::*;
use vstd::string::*;
use crate::config::EditorConfig;
use crate::cursor::{
    Position, SearchDirection, moved, moved_times, scrolled, jump_down_line, jump_up_line,
    sat_add, sat_sub, move_position, jump_down_position, jump_up_position, scroll_offset,
};
use crate::keys::Key;
use crate::status::StatusMessage;
use crate::text::{decimal, decimal_string, cuts_cleanly, take_bytes};

verus! {

/// A change to the document that the editor asks for.
#[derive(Clone, Copy, Debug, PartialEq, Eq, Structural)]
pub enum DocEdit {
    /// Insert `spaces` spaces at `at` in place of a tab.
    InsertTab { at: Position, spaces: u8 },
    /// Insert the typed character `ch` at `at`.
    Insert { at: Position, ch: char },
    /// Insert at `at` the character that closes a pair opened by `ch`.
    InsertPair { at: Position, ch: char },
    /// Delete the character at `at`.
    Delete { at: Position },
}

/// What a key press leaves to be done once the editor has taken its first
/// decisions.
#[derive(Clone, Copy, Debug, PartialEq, Eq, Structural)]
pub enum KeyAction {
    /// Change the document, then finish the key press.
    Edit(DocEdit),
    /// Run the save dialog, then finish the key press.
    Save,
    /// Run the search dialog, then finish the key press.
    Search,
    /// Nothing outside the editor: finish the key press.
    Handled,
    /// The user was warned that the document has unsaved changes: the key
    /// press is over.
    Warned,
}

/// The state of the editor as its decisions see it.
pub struct EditorView {
    pub should_quit: bool,
    pub cursor: Position,
    pub offset: Position,
    pub status: Seq<char>,
    pub quit_times: u8,
    pub highlighted: Option<Seq<char>>,
}

/// The help text shown when the editor starts.
pub open spec fn help_text() -> Seq<char> {
    "HELP: Ctrl-D = jump down | Ctrl-U = jump up | Ctrl-F = find | Ctrl-S = save | Ctrl-Q = quit"@
}

/// The text shown when the file named on the command line cannot be opened.
pub open spec fn open_error_text(name: Seq<char>) -> Seq<char> {
    "ERR: Could not open file: "@ + name
}

/// The warning given when Ctrl-Q is pressed on a document with unsaved
/// changes and `n` more presses are still needed.
pub open spec fn quit_warning(n: u8) -> Seq<char> {
    "WARNING! File has unsaved changes. Press Ctrl-Q "@ + decimal(n as nat) + " more times to quit."@
}

/// The editor's state with another cursor.
pub open spec fn with_cursor(v: EditorView, p: Position) -> EditorView {
    EditorView { cursor: p, ..v }
}

/// The first decisions on a key press: the editor's new state and what is
/// left to do. `tab_spaces` is the configured tab expansion, `rows` the line
/// lengths of the document, `dirty` whether it has unsaved changes, `page`
/// the terminal's height.
pub open spec fn begin_keypress_spec(
    v: EditorView,
    key: Key,
    tab_spaces: Option<u8>,
    rows: Seq<usize>,
    dirty: bool,
    page: usize,
) -> (EditorView, KeyAction) {
    match key {
        Key::Char(c) => if c == '\t' {
            match tab_spaces {
                Some(n) => (v, KeyAction::Edit(DocEdit::InsertTab { at: v.cursor, spaces: n })),
                None => (v, KeyAction::Handled),
            }
        } else {
            (v, KeyAction::Edit(DocEdit::Insert { at: v.cursor, ch: c }))
        },
        Key::Ctrl(c) => if c == 'q' {
            if v.quit_times > 0 && dirty {
                (
                    EditorView {
                        status: quit_warning(v.quit_times),
                        quit_times: (v.quit_times - 1) as u8,
                        ..v
                    },
                    KeyAction::Warned,
                )
            } else {
                (EditorView { should_quit: true, ..v }, KeyAction::Handled)
            }
        } else if c == 's' {
            (v, KeyAction::Save)
        } else if c == 'f' {
            (v, KeyAction::Search)
        } else if c == 'd' {
            (with_cursor(v, Position { x: v.cursor.x, y: jump_down_line(v.cursor.y, rows.len() as usize) }), KeyAction::Handled)
        } else if c == 'u' {
            (with_cursor(v, Position { x: v.cursor.x, y: jump_up_line(v.cursor.y) }), KeyAction::Handled)
        } else {
            (v, KeyAction::Handled)
        },
        Key::Delete => (v, KeyAction::Edit(DocEdit::Delete { at: v.cursor })),
        Key::Backspace => if v.cursor.x > 0 || v.cursor.y > 0 {
            let p = moved(v.cursor, Key::Left, rows, page);
            (with_cursor(v, p), KeyAction::Edit(DocEdit::Delete { at: p }))
        } else {
            (v, KeyAction::Handled)
        },
        Key::Up | Key::Down | Key::Left | Key::Right | Key::PageUp | Key::PageDown | Key::End | Key::Home =>
            (with_cursor(v, moved(v.cursor, key, rows, page)), KeyAction::Handled),
        _ => (v, KeyAction::Handled),
    }
}

/// The rest of a key press, once the document has been changed: the cursor
/// steps over what was inserted, the view scrolls to the cursor, and a
/// finished key press ends a pending quit warning. Also the follow-up edit:
/// the closing half of a pair, where pairs are completed.
pub open spec fn finish_keypress_spec(
    v: EditorView,
    action: KeyAction,
    config: EditorConfig,
    rows: Seq<usize>,
    page: usize,
    width: usize,
    height: usize,
) -> (EditorView, Option<DocEdit>) {
    if action is Warned {
        (v, None)
    } else {
        let (cursor, follow) = match action {
            KeyAction::Edit(DocEdit::InsertTab { at, spaces }) =>
                (moved_times(v.cursor, Key::Right, rows, page, spaces as nat), None),
            KeyAction::Edit(DocEdit::Insert { at, ch }) => {
                let c = moved(v.cursor, Key::Right, rows, page);
                (c, if config.insert.autopairs { Some(DocEdit::InsertPair { at: c, ch }) } else { None })
            },
            _ => (v.cursor, None),
        };
        let reset = v.quit_times < config.additional_quit_amount;
        (
            EditorView {
                cursor,
                offset: scrolled(cursor, v.offset, width, height),
                quit_times: if reset { config.additional_quit_amount } else { v.quit_times },
                status: if reset { Seq::empty() } else { v.status },
                ..v
            },
            follow,
        )
    }
}

/// The editor's state after `n` presses of Ctrl-Q in a row on a document
/// with unsaved changes.
pub open spec fn after_quit_presses(v: EditorView, n: nat, rows: Seq<usize>, page: usize, tab_spaces: Option<u8>) -> EditorView
    decreases n,
{
    if n == 0 {
        v
    } else {
        begin_keypress_spec(after_quit_presses(v, (n - 1) as nat, rows, page, tab_spaces), Key::Ctrl('q'), tab_spaces, rows, true, page).0
    }
}

/// Quitting a document with unsaved changes asks for as many extra presses
/// of Ctrl-Q as remain: with `k` left, the first `k` presses in a row only
/// warn (each counting down), and the next one quits. On a document without
/// unsaved changes the first press quits.
pub proof fn lemma_quit_needs_extra_presses(v: EditorView, k: u8, rows: Seq<usize>, page: usize, tab_spaces: Option<u8>)
    requires
        v.quit_times == k,
        !v.should_quit,
    ensures
        forall|i: nat| #![trigger after_quit_presses(v, i, rows, page, tab_spaces)] i <= k ==> {
            &&& !after_quit_presses(v, i, rows, page, tab_spaces).should_quit
            &&& after_quit_presses(v, i, rows, page, tab_spaces).quit_times == k - i
        },
        after_quit_presses(v, k as nat + 1, rows, page, tab_spaces).should_quit,
        begin_keypress_spec(v, Key::Ctrl('q'), tab_spaces, rows, false, page).0.should_quit,
        begin_keypress_spec(v, Key::Ctrl('q'), tab_spaces, rows, false, page).1 == KeyAction::Handled,
{
    assert forall|i: nat| #![trigger after_quit_presses(v, i, rows, page, tab_spaces)] i <= k implies {
        &&& !after_quit_presses(v, i, rows, page, tab_spaces).should_quit
        &&& after_quit_presses(v, i, rows, page, tab_spaces).quit_times == k - i
    } by {
        lemma_quit_presses_count(v, k, i, rows, page, tab_spaces);
    }
    lemma_quit_presses_count(v, k, k as nat, rows, page, tab_spaces);
}

proof fn lemma_quit_presses_count(v: EditorView, k: u8, i: nat, rows: Seq<usize>, page: usize, tab_spaces: Option<u8>)
    requires
        v.quit_times == k,
        !v.should_quit,
        i <= k,
    ensures
        !after_quit_presses(v, i, rows, page, tab_spaces).should_quit,
        after_quit_presses(v, i, rows, page, tab_spaces).quit_times == k - i,
    decreases i,
{
    if i > 0 {
        lemma_quit_presses_count(v, k, (i - 1) as nat, rows, page, tab_spaces);
    }
}

/// The first step of saving: ask for a file name when the document has
/// none, else write it.
#[derive(Clone, Copy, Debug, PartialEq, Eq, Structural)]
pub enum SaveStep {
    AskName,
    Write,
}

/// What saving a document does first, by whether it has a file name.
pub fn save_step(has_file_name: bool) -> (res: SaveStep)
    ensures
        res == if has_file_name { SaveStep::Write } else { SaveStep::AskName },
{
    if has_file_name { SaveStep::Write } else { SaveStep::AskName }
}

/// The editor: where the cursor is, which part of the document the screen
/// shows, the status message, and the state of quitting and searching. The
/// document and the terminal are outside it: its operations take what they
/// read of them as arguments.
pub struct Editor {
    should_quit: bool,
    cursor_position: Position,
    offset: Position,
    status_message: StatusMessage,
    quit_times: u8,
    highlighted_word: Option<String>,
}

pub open spec fn view_opt_string(s: Option<String>) -> Option<Seq<char>> {
    match s {
        Some(t) => Some(t@),
        None => None,
    }
}

impl View for Editor {
    type V = EditorView;

    closed spec fn view(&self) -> EditorView {
        EditorView {
            should_quit: self.should_quit,
            cursor: self.cursor_position,
            offset: self.offset,
            status: self.status_message.view_text(),
            quit_times: self.quit_times,
            highlighted: view_opt_string(self.highlighted_word),
        }
    }
}

/// The status text the editor starts with: the help text, or, when the file
/// named on the command line could not be opened, an error naming it.
pub fn initial_status(unopened: Option<&str>) -> (res: String)
    ensures
        unopened is None ==> res@ == help_text(),
        unopened is Some ==> res@ == open_error_text(unopened->0@),
{
    match unopened {
        None => String::from_str("HELP: Ctrl-D = jump down | Ctrl-U = jump up | Ctrl-F = find | Ctrl-S = save | Ctrl-Q = quit"),
        Some(name) => {
            let mut s = String::from_str("ERR: Could not open file: ");
            s.append(name);
            s
        },
    }
}

/// The quit warning for `n` more presses.
fn quit_warning_text(n: u8) -> (res: String)
    ensures
        res@ == quit_warning(n),
{
    let mut s = String::from_str("WARNING! File has unsaved changes. Press Ctrl-Q ");
    let d = decimal_string(n as usize);
    s.append(d.as_str());
    s.append(" more times to quit.");
    s
}

impl Editor {
    /// A new editor: the cursor and the view at the top of the document, the
    /// given status text, and as many extra Ctrl-Q presses asked for as the
    /// configuration says.
    pub fn new(initial_status: String, config: &EditorConfig) -> (res: Self)
        ensures
            res@ == (EditorView {
                should_quit: false,
                cursor: Position { x: 0, y: 0 },
                offset: Position { x: 0, y: 0 },
                status: initial_status@,
                quit_times: config.additional_quit_amount,
                highlighted: None,
            }),
    {
        Editor {
            should_quit: false,
            cursor_position: Position::default(),
            offset: Position::default(),
            status_message: StatusMessage::from(initial_status),
            quit_times: config.additional_quit_amount,
            highlighted_word: None,
        }
    }

    /// Whether the editor is to quit.
    pub fn should_quit(&self) -> (res: bool)
        ensures
            res == self@.should_quit,
    {
        self.should_quit
    }

    /// Where the cursor is in the document.
    pub fn cursor_position(&self) -> (res: Position)
        ensures
            res == self@.cursor,
    {
        self.cursor_position
    }

    /// The top-left corner of the part of the document on screen.
    pub fn offset(&self) -> (res: Position)
        ensures
            res == self@.offset,
    {
        self.offset
    }

    /// How many more Ctrl-Q presses quitting a dirty document asks for.
    pub fn quit_times(&self) -> (res: u8)
        ensures
            res == self@.quit_times,
    {
        self.quit_times
    }

    /// The text of the status message.
    pub fn status_text(&self) -> (res: &str)
        ensures
            res@ == self@.status,
    {
        self.status_message.text()
    }

    /// The word that the search highlights, if any.
    pub fn highlighted_word(&self) -> (res: Option<&str>)
        ensures
            res is None <==> self@.highlighted is None,
            res is Some ==> self@.highlighted == Some(res->0@),
    {
        match &self.highlighted_word {
            Some(w) => Some(w.as_str()),
            None => None,
        }
    }

    /// The moment the status message was set; it decides how long the
    /// message stays on screen.
    pub closed spec fn message_moment(&self) -> std::time::Instant {
        self.status_message.moment()
    }

    fn set_status(&mut self, text: String)
        ensures
            final(self)@ == (EditorView { status: text@, ..old(self)@ }),
    {
        self.status_message = StatusMessage::from(text);
    }

    /// Ctrl-D on a document of `len` lines.
    pub fn jump_down(&mut self, len: usize)
        ensures
            final(self)@ == with_cursor(old(self)@, Position { x: old(self)@.cursor.x, y: jump_down_line(old(self)@.cursor.y, len) }),
            final(self).message_moment() == old(self).message_moment(),
    {
        self.cursor_position = jump_down_position(self.cursor_position, len);
    }

    /// Ctrl-U.
    pub fn jump_up(&mut self)
        ensures
            final(self)@ == with_cursor(old(self)@, Position { x: old(self)@.cursor.x, y: jump_up_line(old(self)@.cursor.y) }),
            final(self).message_moment() == old(self).message_moment(),
    {
        self.cursor_position = jump_up_position(self.cursor_position);
    }

    /// Moves the view so that it shows the cursor on a screen `width` by
    /// `height` cells.
    pub fn scroll(&mut self, width: usize, height: usize)
        ensures
            final(self)@ == (EditorView { offset: scrolled(old(self)@.cursor, old(self)@.offset, width, height), ..old(self)@ }),
            final(self).message_moment() == old(self).message_moment(),
    {
        self.offset = scroll_offset(self.cursor_position, self.offset, width, height);
    }

    /// Moves the cursor by a key over a document whose lines have the lengths
    /// `rows`, on a terminal `page` lines high.
    pub fn move_cursor(&mut self, key: Key, rows: &Vec<usize>, page: usize)
        ensures
            final(self)@ == with_cursor(old(self)@, moved(old(self)@.cursor, key, rows@, page)),
            final(self).message_moment() == old(self).message_moment(),
    {
        self.cursor_position = move_position(self.cursor_position, key, rows, page);
    }

    /// The first part of handling a key press: the decisions taken before the
    /// document is changed. What is left to do comes back; unless it is
    /// `Warned`, `finish_keypress` ends the key press once it is done.
    pub fn begin_keypress(&mut self, key: Key, config: &EditorConfig, rows: &Vec<usize>, dirty: bool, page: usize) -> (res: KeyAction)
        ensures
            (final(self)@, res) == begin_keypress_spec(old(self)@, key, config.insert.space_expansion, rows@, dirty, page),
            res != KeyAction::Warned ==> final(self).message_moment() == old(self).message_moment(),
    {
        match key {
            Key::Char('\t') => {
                match config.insert.space_expansion {
                    Some(n) => KeyAction::Edit(DocEdit::InsertTab { at: self.cursor_position, spaces: n }),
                    None => KeyAction::Handled,
                }
            },
            Key::Ctrl('q') => {
                if self.quit_times > 0 && dirty {
                    let warning = quit_warning_text(self.quit_times);
                    self.set_status(warning);
                    self.quit_times = self.quit_times - 1;
                    KeyAction::Warned
                } else {
                    self.should_quit = true;
                    KeyAction::Handled
                }
            },
            Key::Ctrl('s') => KeyAction::Save,
            Key::Ctrl('f') => KeyAction::Search,
            Key::Ctrl('d') => {
                self.jump_down(rows.len());
                KeyAction::Handled
            },
            Key::Ctrl('u') => {
                self.jump_up();
                KeyAction::Handled
            },
            Key::Char(ch) => KeyAction::Edit(DocEdit::Insert { at: self.cursor_position, ch }),
            Key::Delete => KeyAction::Edit(DocEdit::Delete { at: self.cursor_position }),
            Key::Backspace => {
                if self.cursor_position.x > 0 || self.cursor_position.y > 0 {
                    self.move_cursor(Key::Left, rows, page);
                    KeyAction::Edit(DocEdit::Delete { at: self.cursor_position })
                } else {
                    KeyAction::Handled
                }
            },
            Key::Up | Key::Down | Key::Left | Key::Right | Key::PageUp | Key::PageDown | Key::End | Key::Home => {
                self.move_cursor(key, rows, page);
                KeyAction::Handled
            },
            _ => KeyAction::Handled,
        }
    }

    /// The rest of a key press, after the document has been changed as
    /// `action` asked: `rows` are the line lengths of the changed document,
    /// `page` the terminal's height, `width` and `height` the screen's size.
    /// What comes back is a further edit to make, if any.
    pub fn finish_keypress(
        &mut self,
        action: KeyAction,
        config: &EditorConfig,
        rows: &Vec<usize>,
        page: usize,
        width: usize,
        height: usize,
    ) -> (res: Option<DocEdit>)
        ensures
            (final(self)@, res) == finish_keypress_spec(old(self)@, action, *config, rows@, page, width, height),
            action is Warned || old(self)@.quit_times >= config.additional_quit_amount
                ==> final(self).message_moment() == old(self).message_moment(),
    {
        if let KeyAction::Warned = action {
            return None;
        }
        let follow = match action {
            KeyAction::Edit(DocEdit::InsertTab { at, spaces }) => {
                let ghost start = self@;
                let mut i: u8 = 0;
                while i < spaces
                    invariant
                        i <= spaces,
                        self@ == with_cursor(start, moved_times(start.cursor, Key::Right, rows@, page, i as nat)),
                        self.message_moment() == old(self).message_moment(),
                    decreases spaces - i,
                {
                    self.move_cursor(Key::Right, rows, page);
                    i = i + 1;
                }
                None
            },
            KeyAction::Edit(DocEdit::Insert { at, ch }) => {
                self.move_cursor(Key::Right, rows, page);
                if config.insert.autopairs {
                    Some(DocEdit::InsertPair { at: self.cursor_position, ch })
                } else {
                    None
                }
            },
            _ => None,
        };
        self.scroll(width, height);
        if self.quit_times < config.additional_quit_amount {
            self.quit_times = config.additional_quit_amount;
            self.set_status(String::new());
        }
        follow
    }

    /// The answer to the save dialog's question for a file name: with no
    /// answer the save is aborted and the status says so; with one, the name
    /// comes back to be given to the document.
    pub fn save_name_answer(&mut self, answer: Option<String>) -> (res: Option<String>)
        ensures
            res == answer,
            answer is None ==> final(self)@ == (EditorView { status: "Save aborted."@, ..old(self)@ }),
            answer is Some ==> final(self)@ == old(self)@
                && final(self).message_moment() == old(self).message_moment(),
    {
        if answer.is_none() {
            self.save_aborted();
        }
        answer
    }

    /// The save dialog was left without a file name.
    pub fn save_aborted(&mut self)
        ensures
            final(self)@ == (EditorView { status: "Save aborted."@, ..old(self)@ }),
    {
        self.set_status(String::from_str("Save aborted."));
    }

    /// The document was written (`saved`) or writing it failed.
    pub fn save_finished(&mut self, saved: bool)
        ensures
            saved ==> final(self)@ == (EditorView { status: "File saved successfully."@, ..old(self)@ }),
            !saved ==> final(self)@ == (EditorView { status: "Error writing file!"@, ..old(self)@ }),
    {
        if saved {
            self.set_status(String::from_str("File saved successfully."));
        } else {
            self.set_status(String::from_str("Error writing file!"));
        }
    }

    /// A prompt asks for text: the status shows the question and the answer
    /// typed so far.
    pub fn show_prompt(&mut self, prompt: &str, answer: &str)
        ensures
            final(self)@ == (EditorView { status: prompt@ + answer@, ..old(self)@ }),
    {
        let mut text = String::from_str(prompt);
        text.append(answer);
        self.set_status(text);
    }

    /// A prompt is over: the status is cleared.
    pub fn end_prompt(&mut self)
        ensures
            final(self)@ == (EditorView { status: Seq::empty(), ..old(self)@ }),
    {
        self.set_status(String::new());
    }

    /// A key pressed while searching, before the document is searched: the
    /// arrows Right and Down step the cursor right and search forward, Left
    /// and Up search backward, anything else searches forward. Also whether
    /// the cursor stepped.
    pub fn search_key(&mut self, key: Key, rows: &Vec<usize>, page: usize) -> (res: (SearchDirection, bool))
        ensures
            (key is Right || key is Down) ==> res == (SearchDirection::Forward, true)
                && final(self)@ == with_cursor(old(self)@, moved(old(self)@.cursor, Key::Right, rows@, page)),
            (key is Left || key is Up) ==> res == (SearchDirection::Backward, false) && final(self)@ == old(self)@,
            !(key is Right || key is Down || key is Left || key is Up)
                ==> res == (SearchDirection::Forward, false) && final(self)@ == old(self)@,
            final(self).message_moment() == old(self).message_moment(),
    {
        match key {
            Key::Right | Key::Down => {
                self.move_cursor(Key::Right, rows, page);
                (SearchDirection::Forward, true)
            },
            Key::Left | Key::Up => (SearchDirection::Backward, false),
            _ => (SearchDirection::Forward, false),
        }
    }

    /// The outcome of searching for `query`: the cursor goes to the match and
    /// the view scrolls to it; with no match, a step taken by `search_key` is
    /// taken back. The query is highlighted either way.
    pub fn search_result(
        &mut self,
        found: Option<Position>,
        stepped: bool,
        query: &str,
        rows: &Vec<usize>,
        page: usize,
        width: usize,
        height: usize,
    )
        ensures
            found is Some ==> final(self)@ == (EditorView {
                cursor: found->0,
                offset: scrolled(found->0, old(self)@.offset, width, height),
                highlighted: Some(query@),
                ..old(self)@
            }),
            found is None && stepped ==> final(self)@ == (EditorView {
                cursor: moved(old(self)@.cursor, Key::Left, rows@, page),
                highlighted: Some(query@),
                ..old(self)@
            }),
            found is None && !stepped ==> final(self)@ == (EditorView { highlighted: Some(query@), ..old(self)@ }),
            final(self).message_moment() == old(self).message_moment(),
    {
        match found {
            Some(position) => {
                self.cursor_position = position;
                self.scroll(width, height);
            },
            None => {
                if stepped {
                    self.move_cursor(Key::Left, rows, page);
                }
            },
        }
        self.highlighted_word = Some(String::from_str(query));
    }

    /// The search is over. When it was cancelled, the cursor goes back to
    /// where it was when the search began and the view scrolls to it. The
    /// highlight goes.
    pub fn search_end(&mut self, cancelled: bool, start: Position, width: usize, height: usize)
        ensures
            cancelled ==> final(self)@ == (EditorView {
                cursor: start,
                offset: scrolled(start, old(self)@.offset, width, height),
                highlighted: None,
                ..old(self)@
            }),
            !cancelled ==> final(self)@ == (EditorView { highlighted: None, ..old(self)@ }),
            final(self).message_moment() == old(self).message_moment(),
    {
        if cancelled {
            self.cursor_position = start;
            self.scroll(width, height);
        }
        self.highlighted_word = None;
    }

    /// Where the cursor shows on the screen.
    pub fn screen_cursor(&self) -> (res: Position)
        ensures
            res == (Position { x: sat_sub(self@.cursor.x, self@.offset.x), y: sat_sub(self@.cursor.y, self@.offset.y) }),
    {
        Position {
            x: self.cursor_position.x.saturating_sub(self.offset.x),
            y: self.cursor_position.y.saturating_sub(self.offset.y),
        }
    }

    /// The line before which the document is highlighted: the first line
    /// below a screen `height` lines high.
    pub fn highlight_limit(&self, height: usize) -> (res: usize)
        ensures
            res == sat_add(self@.offset.y, height),
    {
        self.offset.y.saturating_add(height)
    }

    /// The columns of a line that a screen `width` cells wide shows: from the
    /// view's left edge to `width` columns further.
    pub fn row_span(&self, width: usize) -> (res: (usize, usize))
        ensures
            res == (self@.offset.x, sat_add(self@.offset.x, width)),
    {
        (self.offset.x, self.offset.x.saturating_add(width))
    }

    /// What the screen line `terminal_row` of a screen `height` lines high
    /// shows, for a document of `len` lines that is `empty` or not.
    pub fn row_kind(&self, terminal_row: u16, height: u16, len: usize, empty: bool) -> (res: RowKind)
        ensures
            res == row_kind_spec(self@.offset.y, terminal_row, height, len, empty),
            res matches RowKind::Text(i) ==> i < len,
    {
        let index = self.offset.y.saturating_add(terminal_row as usize);
        if index < len {
            RowKind::Text(index)
        } else if empty && terminal_row == height / 3 {
            RowKind::Welcome
        } else {
            RowKind::Filler
        }
    }

    /// What the message bar shows on a terminal `width` bytes wide: the
    /// status text, cut to the width, while the message is fresh.
    pub fn message_bar(&self, width: usize) -> (res: Option<String>)
        requires
            cuts_cleanly(self@.status, width as nat),
        ensures
            res is Some ==> res->0@ == take_bytes(self@.status, width as nat),
    {
        self.status_message.bar_text(width)
    }
}

/// What a line of the screen shows.
#[derive(Clone, Copy, Debug, PartialEq, Eq, Structural)]
pub enum RowKind {
    /// The document's line with this index.
    Text(usize),
    /// The welcome message.
    Welcome,
    /// A `~`: past the end of the document.
    Filler,
}

/// What the screen line `terminal_row` shows when the view starts at line
/// `top`: the document's line there if it has one; else, on an empty
/// document, the welcome message a third of the way down; else a `~`.
pub open spec fn row_kind_spec(top: usize, terminal_row: u16, height: u16, len: usize, empty: bool) -> RowKind {
    let index = sat_add(top, terminal_row as usize);
    if index < len {
        RowKind::Text(index)
    } else if empty && terminal_row == height / 3 {
        RowKind::Welcome
    } else {
        RowKind::Filler
    }
}


/// Backspace deletes the character before the cursor: anywhere but at the
/// very start of the document, the cursor steps back one character (along
/// its line, or from the start of a line to the end of the line above) and
/// the character there is deleted; at the very start nothing happens.
pub proof fn lemma_backspace_deletes_before_cursor(
    v: EditorView,
    tab_spaces: Option<u8>,
    rows: Seq<usize>,
    dirty: bool,
    page: usize,
)
    requires
        rows.len() <= usize::MAX,
        v.cursor.y <= rows.len(),
        v.cursor.x <= (if v.cursor.y < rows.len() { rows[v.cursor.y as int] } else { 0 }),
    ensures
        ({
            let (w, action) = begin_keypress_spec(v, Key::Backspace, tab_spaces, rows, dirty, page);
            &&& v.cursor.x > 0 ==> {
                &&& w.cursor == Position { x: (v.cursor.x - 1) as usize, y: v.cursor.y }
                &&& action == KeyAction::Edit(DocEdit::Delete { at: w.cursor })
            }
            &&& v.cursor.x == 0 && v.cursor.y > 0 ==> {
                &&& w.cursor == Position { x: rows[v.cursor.y - 1], y: (v.cursor.y - 1) as usize }
                &&& action == KeyAction::Edit(DocEdit::Delete { at: w.cursor })
            }
            &&& v.cursor.x == 0 && v.cursor.y == 0 ==> action == KeyAction::Handled && w == v
            &&& w.should_quit == v.should_quit && w.offset == v.offset && w.status == v.status
            &&& w.quit_times == v.quit_times && w.highlighted == v.highlighted
        }),
{
}

/// Once a key press is finished (other than a quit warning), the view shows
/// the cursor, on any screen at least one cell wide and high.
pub proof fn lemma_finish_shows_cursor(
    v: EditorView,
    action: KeyAction,
    config: EditorConfig,
    rows: Seq<usize>,
    page: usize,
    width: usize,
    height: usize,
)
    requires
        !(action is Warned),
        width > 0,
        height > 0,
    ensures
        ({
            let w = finish_keypress_spec(v, action, config, rows, page, width, height).0;
            &&& w.offset.x <= w.cursor.x < w.offset.x + width
            &&& w.offset.y <= w.cursor.y < w.offset.y + height
        }),
{
    let w = finish_keypress_spec(v, action, config, rows, page, width, height).0;
    crate::cursor::lemma_scroll_shows_cursor(w.cursor, v.offset, width, height);
}

/// A finished key press (other than a quit warning) cancels a pending quit:
/// the count of extra Ctrl-Q presses goes back up to the configured amount
/// and the warning is cleared; a count that was not below it is left alone,
/// and so is the status.
pub proof fn lemma_finish_restores_quit_count(
    v: EditorView,
    action: KeyAction,
    config: EditorConfig,
    rows: Seq<usize>,
    page: usize,
    width: usize,
    height: usize,
)
    requires
        !(action is Warned),
    ensures
        ({
            let w = finish_keypress_spec(v, action, config, rows, page, width, height).0;
            &&& w.quit_times >= config.additional_quit_amount
            &&& v.quit_times < config.additional_quit_amount ==> {
                &&& w.quit_times == config.additional_quit_amount
                &&& w.status.len() == 0
            }
            &&& v.quit_times >= config.additional_quit_amount ==> w.quit_times == v.quit_times && w.status == v.status
            &&& w.should_quit == v.should_quit
        }),
{
}

/// A quit warning is the whole key press: finishing it changes nothing and
/// asks for no edit.
pub proof fn lemma_finish_after_warning(
    v: EditorView,
    config: EditorConfig,
    rows: Seq<usize>,
    page: usize,
    width: usize,
    height: usize,
)
    ensures
        finish_keypress_spec(v, KeyAction::Warned, config, rows, page, width, height) == (v, Option::<DocEdit>::None),
{
}

/// A screen line shows a document line only where the document has one:
/// `Text(i)` means line `i = top + terminal_row` exists; every screen line
/// at or past the document's end is the welcome message or a `~`; the
/// welcome message shows only on an empty document.
pub proof fn lemma_row_kind_in_document(top: usize, terminal_row: u16, height: u16, len: usize, empty: bool)
    ensures
        row_kind_spec(top, terminal_row, height, len, empty) matches RowKind::Text(i)
            ==> i < len && i == top + terminal_row,
        top + terminal_row >= len ==> !(row_kind_spec(top, terminal_row, height, len, empty) is Text),
        top + terminal_row < len ==> row_kind_spec(top, terminal_row, height, len, empty)
            == RowKind::Text((top + terminal_row) as usize),
        row_kind_spec(top, terminal_row, height, len, empty) is Welcome ==> empty && terminal_row == height / 3,
{
}

/// Typing: a typed character (other than Tab) is inserted at the cursor, Tab
/// with an expansion inserts that many spaces there, Delete deletes the
/// character at the cursor; the editor's state waits for the document to
/// change.
pub proof fn lemma_typing_edits_at_cursor(v: EditorView, ch: char, tab_spaces: Option<u8>, rows: Seq<usize>, dirty: bool, page: usize)
    ensures
        ch != '\t' ==> begin_keypress_spec(v, Key::Char(ch), tab_spaces, rows, dirty, page)
            == (v, KeyAction::Edit(DocEdit::Insert { at: v.cursor, ch })),
        tab_spaces matches Some(n) ==> begin_keypress_spec(v, Key::Char('\t'), tab_spaces, rows, dirty, page)
            == (v, KeyAction::Edit(DocEdit::InsertTab { at: v.cursor, spaces: n })),
        tab_spaces is None ==> begin_keypress_spec(v, Key::Char('\t'), tab_spaces, rows, dirty, page)
            == (v, KeyAction::Handled),
        begin_keypress_spec(v, Key::Delete, tab_spaces, rows, dirty, page)
            == (v, KeyAction::Edit(DocEdit::Delete { at: v.cursor })),
{
}

/// After a character is inserted at the cursor, the cursor steps past it,
/// and where pairs are completed the closing half is asked for right after
/// it; after a tab expanded to `n` spaces, the cursor steps past the spaces.
pub proof fn lemma_finish_steps_over_insertion(
    v: EditorView,
    ch: char,
    n: u8,
    config: EditorConfig,
    rows: Seq<usize>,
    page: usize,
    width: usize,
    height: usize,
)
    ensures
        v.cursor.x < crate::cursor::row_width(rows, v.cursor.y) ==> {
            let (w, follow) = finish_keypress_spec(v, KeyAction::Edit(DocEdit::Insert { at: v.cursor, ch }), config, rows, page, width, height);
            &&& w.cursor == Position { x: (v.cursor.x + 1) as usize, y: v.cursor.y }
            &&& follow == if config.insert.autopairs {
                Some(DocEdit::InsertPair { at: w.cursor, ch })
            } else {
                None
            }
        },
        v.cursor.x + n <= crate::cursor::row_width(rows, v.cursor.y) ==> {
            let (w, follow) = finish_keypress_spec(v, KeyAction::Edit(DocEdit::InsertTab { at: v.cursor, spaces: n }), config, rows, page, width, height);
            &&& w.cursor == Position { x: (v.cursor.x + n) as usize, y: v.cursor.y }
            &&& follow is None
        },
{
    if v.cursor.x + n <= crate::cursor::row_width(rows, v.cursor.y) {
        crate::cursor::lemma_right_steps_along_line(v.cursor, rows, page, n as nat);
    }
}

} // verus!
