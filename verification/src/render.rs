use vstd::prelude::*;
use vstd::string::*;
use crate::cursor::sat_add;
use crate::text::{
    byte_len, cuts_cleanly, lemma_take_bytes_bounded, decimal, decimal_string, lemma_byte_len_is_encoding_len, push_char,
    push_spaces, spaces, take_bytes, take_bytes_of,
};

verus! {

/// `a - b` on naturals, or 0 where that would be negative.
pub open spec fn nat_sat_sub(a: nat, b: nat) -> nat {
    if a >= b { (a - b) as nat } else { 0 }
}

/// The welcome message before it is centred.
pub open spec fn welcome_message(version: Seq<char>) -> Seq<char> {
    "Pico editor -- version "@ + version
}

/// The welcome line before it is cut to the screen: a `~`, then the message
/// centred on a screen `width` bytes wide.
pub open spec fn welcome_full(version: Seq<char>, width: nat) -> Seq<char> {
    let message = welcome_message(version);
    let padding = nat_sat_sub(width, byte_len(message)) / 2;
    seq!['~'] + spaces(nat_sat_sub(padding, 1)) + message
}

/// The byte length of a text, as Rust's `len` gives it.
fn text_len(s: &str) -> (res: usize)
    ensures
        res == byte_len(s@),
{
    proof {
        lemma_byte_len_is_encoding_len(s@);
    }
    let bytes = s.as_bytes();
    bytes.len()
}

/// The welcome line shown on an empty document: the editor's name and
/// `version`, centred, cut to a screen `width` bytes wide.
pub fn welcome_line(version: &str, width: usize) -> (res: String)
    requires
        cuts_cleanly(welcome_full(version@, width as nat), width as nat),
    ensures
        res@ == take_bytes(welcome_full(version@, width as nat), width as nat),
        byte_len(res@) <= width,
{
    proof {
        lemma_take_bytes_bounded(welcome_full(version@, width as nat), width as nat);
    }
    let mut message = String::from_str("Pico editor -- version ");
    message.append(version);
    let len = text_len(message.as_str());
    let padding = width.saturating_sub(len) / 2;
    let mut line = String::new();
    push_char(&mut line, '~');
    push_spaces(&mut line, padding.saturating_sub(1));
    line.append(message.as_str());
    assert(line@ =~= welcome_full(version@, width as nat));
    take_bytes_of(line.as_str(), width)
}

/// The text of an optional name.
pub open spec fn view_name(name: Option<&str>) -> Option<Seq<char>> {
    match name {
        Some(n) => Some(n@),
        None => None,
    }
}

/// The left part of the status bar: the file's name (cut to twenty bytes),
/// the number of lines, and whether there are unsaved changes.
pub open spec fn status_left(name: Option<Seq<char>>, len: usize, dirty: bool) -> Seq<char> {
    let shown = match name {
        Some(n) => take_bytes(n, 20),
        None => "[No Name]"@,
    };
    shown + " - "@ + decimal(len as nat) + " lines"@ + if dirty { " (modified)"@ } else { Seq::empty() }
}

/// The right part of the status bar: the file type, the cursor's line
/// (counted from one), and the number of lines.
pub open spec fn status_right(file_type: Seq<char>, cursor_y: usize, len: usize) -> Seq<char> {
    file_type + " | "@ + decimal(sat_add(cursor_y, 1) as nat) + "/"@ + decimal(len as nat)
}

/// The status bar before it is cut to the screen: the left part, spaces up
/// to the right edge of a screen `width` bytes wide, the right part.
pub open spec fn status_full(
    name: Option<Seq<char>>,
    len: usize,
    dirty: bool,
    file_type: Seq<char>,
    cursor_y: usize,
    width: nat,
) -> Seq<char> {
    let left = status_left(name, len, dirty);
    let right = status_right(file_type, cursor_y, len);
    left + spaces(nat_sat_sub(width, byte_len(left) + byte_len(right))) + right
}

/// The status bar: the file's name or `[No Name]`, the number of lines, a
/// mark for unsaved changes, and, against the right edge, the file type and
/// the cursor's line; all cut to a screen `width` bytes wide.
pub fn status_line(
    file_name: Option<&str>,
    len: usize,
    dirty: bool,
    file_type: &str,
    cursor_y: usize,
    width: usize,
) -> (res: String)
    requires
        file_name is Some ==> cuts_cleanly(file_name->0@, 20),
        byte_len(status_left(view_name(file_name), len, dirty))
            + byte_len(status_right(file_type@, cursor_y, len)) <= usize::MAX,
        cuts_cleanly(status_full(view_name(file_name), len, dirty, file_type@, cursor_y, width as nat), width as nat),
    ensures
        res@ == take_bytes(
            status_full(view_name(file_name), len, dirty, file_type@, cursor_y, width as nat),
            width as nat,
        ),
        byte_len(res@) <= width,
{
    proof {
        lemma_take_bytes_bounded(
            status_full(view_name(file_name), len, dirty, file_type@, cursor_y, width as nat),
            width as nat,
        );
    }
    let ghost name = view_name(file_name);
    let mut status = match file_name {
        Some(n) => take_bytes_of(n, 20),
        None => String::from_str("[No Name]"),
    };
    status.append(" - ");
    let lines = decimal_string(len);
    status.append(lines.as_str());
    status.append(" lines");
    if dirty {
        status.append(" (modified)");
    }
    assert(status@ =~= status_left(name, len, dirty));
    let mut indicator = String::from_str(file_type);
    indicator.append(" | ");
    let line = decimal_string(cursor_y.saturating_add(1));
    indicator.append(line.as_str());
    indicator.append("/");
    indicator.append(lines.as_str());
    assert(indicator@ =~= status_right(file_type@, cursor_y, len));
    let total = text_len(status.as_str()) + text_len(indicator.as_str());
    push_spaces(&mut status, width.saturating_sub(total));
    status.append(indicator.as_str());
    assert(status@ =~= status_full(name, len, dirty, file_type@, cursor_y, width as nat));
    take_bytes_of(status.as_str(), width)
}

} // verus!
