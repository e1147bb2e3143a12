//! The editor's commands in the form that a key-handling loop calls them:
//! each takes the editor it acts on.
#![allow(non_snake_case)]

use vstd::prelude::*;

use crate::editor::Editor;
use crate::model::{delete_step, insert_char_step, is_arrow, move_step, newline_step, EditorView};
use crate::status::StatusView;
use crate::text::{chars_of, decimal, push_chars, push_decimal, string_of};
use crate::KEY_ACTION;

verus! {

/// Text of the search prompt before the query.
pub const SEARCH_PREFIX: &'static str = "Search: ";

/// Text of the search prompt after the query.
pub const SEARCH_SUFFIX: &'static str = " (Use Esc/Arrows/Return)";

/// Text of the quit warning before the count.
pub const QUIT_PREFIX: &'static str = "WARNING!!! File has unsaved changes. Press Ctrl-Q ";

/// Text of the quit warning after the count.
pub const QUIT_SUFFIX: &'static str = " more times to quit.";

/// Decimal notation of a signed number.
pub open spec fn signed_decimal(n: int) -> Seq<char> {
    if n < 0 {
        seq!['-'] + decimal((-n) as nat)
    } else {
        decimal(n as nat)
    }
}

/// Whether `c` is a Unicode scalar value, the code of a `char`.
pub open spec fn is_scalar(c: u32) -> bool {
    c < 0xd800 || (0xe000 <= c && c <= 0x10ffff)
}

/// Relies on `char::from_u32`: `Some` exactly for the codes of characters,
/// holding the character with that code.
#[verifier::external_body]
fn char_from_code(c: u32) -> (r: Option<char>)
    ensures
        r is Some <==> is_scalar(c),
        r matches Some(ch) ==> ch as u32 == c,
{
    char::from_u32(c)
}

/// Clears the status message, at time `now`.
pub fn editorClearStatusMessage(e: &mut Editor, now: u64)
    ensures
        final(e)@ == (EditorView {
            status: StatusView { message: Seq::empty(), time: now as nat },
            ..old(e)@
        }),
{
    e.set_status(String::new(), now);
}

/// Shows the search prompt for `query`; without a query nothing changes.
pub fn editorSetStatusMessageSearch(e: &mut Editor, query: Option<&str>, now: u64)
    ensures
        query is None ==> final(e)@ == old(e)@,
        query matches Some(q) ==> final(e)@ == (EditorView {
            status: StatusView {
                message: SEARCH_PREFIX@ + q@ + SEARCH_SUFFIX@,
                time: now as nat,
            },
            ..old(e)@
        }),
{
    match query {
        Some(q) => {
            let mut m = chars_of(SEARCH_PREFIX);
            push_chars(&mut m, chars_of(q).as_slice());
            push_chars(&mut m, chars_of(SEARCH_SUFFIX).as_slice());
            e.set_status(string_of(m.as_slice()), now);
        },
        None => {},
    }
}

/// Warns that the document has unsaved edits and that Ctrl-Q must be
/// pressed `count` more times to quit.
pub fn editorSetStatusMessageQuit(e: &mut Editor, count: i32, now: u64)
    ensures
        final(e)@ == (EditorView {
            status: StatusView {
                message: QUIT_PREFIX@ + signed_decimal(count as int) + QUIT_SUFFIX@,
                time: now as nat,
            },
            ..old(e)@
        }),
{
    let mut m = chars_of(QUIT_PREFIX);
    let ghost start = m@;
    if count < 0 {
        m.push('-');
        push_decimal(&mut m, (-(count as i64)) as u64);
    } else {
        push_decimal(&mut m, count as u64);
    }
    assert(m@ =~= start + signed_decimal(count as int));
    push_chars(&mut m, chars_of(QUIT_SUFFIX).as_slice());
    e.set_status(string_of(m.as_slice()), now);
}

/// Text of the status message after a save, following the byte count.
pub const SAVED_SUFFIX: &'static str = " bytes written to disk";

/// Reports a successful save of `bytes_written` bytes in the status message.
pub fn set_saved_status(e: &mut Editor, bytes_written: u64, now: u64)
    ensures
        final(e)@ == (EditorView {
            status: StatusView {
                message: decimal(bytes_written as nat) + SAVED_SUFFIX@,
                time: now as nat,
            },
            ..old(e)@
        }),
{
    let mut m: Vec<char> = Vec::new();
    push_decimal(&mut m, bytes_written);
    push_chars(&mut m, chars_of(SAVED_SUFFIX).as_slice());
    e.set_status(string_of(m.as_slice()), now);
}

/// Appends a line read from the file.
pub fn editorInsertRow(e: &mut Editor, line: &str)
    requires
        old(e)@.wf(),
    ensures
        final(e)@ == (EditorView { rows: old(e)@.rows.push(line@), ..old(e)@ }),
        final(e)@.wf(),
{
    e.append_line(line);
}

/// Enter.
pub fn editorInsertNewline(e: &mut Editor)
    requires
        old(e)@.wf(),
        old(e)@.dirty < usize::MAX,
    ensures
        final(e)@ == newline_step(old(e)@),
        final(e)@.wf(),
{
    e.insert_newline();
}

/// Backspace.
pub fn editorDelChar(e: &mut Editor)
    requires
        old(e)@.wf(),
        old(e)@.dirty < usize::MAX,
    ensures
        final(e)@ == delete_step(old(e)@),
        final(e)@.wf(),
{
    e.delete_character();
}

/// An arrow key.
pub fn editorMoveCursor(e: &mut Editor, key: KEY_ACTION)
    requires
        old(e)@.wf(),
        is_arrow(key),
    ensures
        final(e)@ == move_step(old(e)@, key),
        final(e)@.wf(),
{
    e.move_cursor(key);
}

/// Types the character with code `c`.
pub fn editorInsertChar(e: &mut Editor, c: i32)
    requires
        old(e)@.wf(),
        old(e)@.dirty < usize::MAX,
        old(e)@.rows.len() < usize::MAX,
        c >= 0,
        is_scalar(c as u32),
    ensures
        exists|ch: char| ch as u32 == c as u32 && final(e)@ == insert_char_step(old(e)@, ch),
        final(e)@.wf(),
{
    match char_from_code(c as u32) {
        Some(ch) => {
            e.insert_char(ch);
        },
        None => {},
    }
}

} // verus!
