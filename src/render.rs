//! One full redraw of the screen: the text rows (or the welcome banner for
//! an empty document), the status bar, the status message and the cursor.
use vstd::prelude::*;

use crate::ansi::{
    goto_text, push_goto, CLEAR_REST_OF_LINE, EOL, GOTO_TOP_LEFT, HIDE_CURSOR, RESET, REVERSE,
    SHOW_CURSOR,
};
use crate::buffer::{lines_of, repeat};
use crate::editor::Editor;
use crate::model::EditorView;
use crate::status::is_live_at;
use crate::text::{chars_of, decimal, push_chars, push_decimal, string_of};
use crate::width::{crop, crop_to, render_width, render_width_of};
use crate::{Error, VERSION};

verus! {

/// The start of the welcome message; the version follows it.
pub const WELCOME: &'static str = "キロ editor -- version ";

/// Separates the file name from the line count in the status bar.
pub const NAME_SEPARATOR: &'static str = " - ";

/// Follows the line count in the status bar.
pub const LINES_LABEL: &'static str = " lines ";

/// Marks a document with unsaved edits in the status bar.
pub const MODIFIED: &'static str = "(modified)";

/// The welcome message.
pub open spec fn welcome_message() -> Seq<char> {
    WELCOME@ + VERSION@
}

/// Display width of the welcome message, zero where it has none.
pub open spec fn welcome_width() -> nat {
    match render_width_of(welcome_message()) {
        Some(w) => w,
        None => 0,
    }
}

/// `n` spaces.
pub open spec fn spaces(n: nat) -> Seq<char> {
    repeat(' ', n)
}

/// `msg` centred in `width` characters: the padding is split in two, the
/// smaller half on the left. A message as long as `width` or longer is left
/// as it is.
pub open spec fn centered(msg: Seq<char>, width: nat) -> Seq<char> {
    if width <= msg.len() {
        msg
    } else {
        let pad = (width - msg.len()) as nat;
        spaces(pad / 2) + msg + spaces((pad - pad / 2) as nat)
    }
}

/// The welcome row: a tilde, then the welcome message centred in the rest of
/// the row, where the columns that wide characters take beyond their count
/// are left out of the room.
pub open spec fn greeting(screencols: nat) -> Seq<char> {
    let msg = welcome_message();
    let extra: nat = if welcome_width() > msg.len() {
        (welcome_width() - msg.len()) as nat
    } else {
        0
    };
    let width: nat = if screencols > extra + 1 {
        (screencols - extra - 1) as nat
    } else {
        0
    };
    seq!['~'] + centered(msg, width)
}

/// Screen row `y`: for an empty document a tilde, or the welcome message a
/// third of the way down; otherwise the document line shown there, cropped
/// to the screen's columns, or a tilde past the end of the document.
pub open spec fn screen_line(v: EditorView, y: nat) -> Seq<char> {
    if v.rows.len() == 0 {
        if y == v.screenrows / 3 {
            greeting(v.screencols)
        } else {
            seq!['~']
        }
    } else if v.rowoff + y < v.rows.len() {
        crop(v.rows[v.rowoff + y as int], v.coloff, v.screencols)
    } else {
        seq!['~']
    }
}

/// The first `n` screen rows, each ended by erasing the rest of the line.
pub open spec fn screen_text(v: EditorView, n: nat) -> Seq<char>
    decreases n,
{
    if n == 0 {
        Seq::empty()
    } else {
        screen_text(v, (n - 1) as nat) + screen_line(v, (n - 1) as nat) + CLEAR_REST_OF_LINE@
            + EOL@
    }
}

/// Left part of the status bar: file name, line count, and whether there are
/// unsaved edits.
pub open spec fn left_status(v: EditorView) -> Seq<char> {
    let name = match v.filename {
        Some(f) => f,
        None => Seq::empty(),
    };
    name + NAME_SEPARATOR@ + decimal(v.rows.len()) + LINES_LABEL@ + if v.dirty != 0 {
        MODIFIED@
    } else {
        Seq::empty()
    }
}

/// Right part of the status bar: the cursor's line, counted from one, and
/// the line count.
pub open spec fn right_status(v: EditorView) -> Seq<char> {
    decimal(v.filerow() + 1) + seq!['/'] + decimal(v.rows.len())
}

/// Width of a status bar part: its display width, or its length where that
/// is unknown.
pub open spec fn field_width(s: Seq<char>) -> nat {
    match render_width_of(s) {
        Some(w) => w,
        None => s.len(),
    }
}

/// The status bar in reverse video, its two parts pushed apart to the edges
/// of the screen, then on the last row the status message while it is live.
pub open spec fn status_text(v: EditorView, now: nat) -> Seq<char> {
    let l = left_status(v);
    let r = right_status(v);
    let used = field_width(l) + field_width(r);
    let pad: nat = if v.screencols > used {
        (v.screencols - used) as nat
    } else {
        0
    };
    let message = if is_live_at(v.status.time, now) {
        v.status.message
    } else {
        Seq::empty()
    };
    REVERSE@ + l + spaces(pad) + r + CLEAR_REST_OF_LINE@ + EOL@ + RESET@ + message
        + CLEAR_REST_OF_LINE@
}

/// A full redraw: hide the cursor, go to the top left, draw every screen row
/// and the status bar, put the cursor in place and show it.
pub open spec fn frame(v: EditorView, now: nat) -> Seq<char> {
    HIDE_CURSOR@ + GOTO_TOP_LEFT@ + screen_text(v, v.screenrows) + status_text(v, now) + goto_text(
        v.cx + 1,
        v.cy + 1,
    ) + SHOW_CURSOR@
}

/// Whether a redraw can be made: the welcome message, needed only for an
/// empty document, must have a display width.
pub open spec fn frame_drawable(v: EditorView) -> bool {
    v.rows.len() > 0 || render_width_of(welcome_message()) is Some
}

/// The welcome row is centred by display width: where the message takes
/// `w` columns, at least as many as its length, and fits beside the tilde,
/// the row is a tilde, `(screencols - 1 - w) / 2` spaces, the message, and
/// the rest of the `screencols - 1 - w` spaces, which fills the row's
/// `screencols` columns.
pub proof fn lemma_greeting_centered(screencols: nat, w: nat)
    requires
        render_width_of(welcome_message()) == Some(w),
        w >= welcome_message().len(),
        w + 1 <= screencols,
    ensures
        ({
            let pad = (screencols - 1 - w) as nat;
            greeting(screencols) == seq!['~'] + spaces(pad / 2) + welcome_message() + spaces(
                (pad - pad / 2) as nat,
            )
        }),
{
    let msg = welcome_message();
    let pad = (screencols - 1 - w) as nat;
    if pad == 0 {
        assert(spaces(0) =~= Seq::<char>::empty());
        assert(seq!['~'] + spaces(0) + msg + spaces(0) =~= seq!['~'] + msg);
    }
}

fn push_spaces(out: &mut Vec<char>, n: usize)
    ensures
        final(out)@ == old(out)@ + spaces(n as nat),
{
    let mut i: usize = 0;
    while i < n
        invariant
            i <= n,
            out@ == old(out)@ + spaces(i as nat),
        decreases n - i,
    {
        out.push(' ');
        i = i + 1;
        assert(out@ =~= old(out)@ + spaces(i as nat));
    }
}

fn field_columns(s: &[char]) -> (r: usize)
    ensures
        r == field_width(s@),
{
    match render_width(s) {
        Some(w) => w,
        None => s.len(),
    }
}

impl Editor {
    /// The welcome row, given the welcome message's display width.
    fn render_welcome_message(&self, msg_width: usize) -> (r: Vec<char>)
        requires
            render_width_of(welcome_message()) == Some(msg_width as nat),
        ensures
            r@ == greeting(self@.screencols),
    {
        let msg = chars_of(WELCOME);
        let version = chars_of(VERSION);
        let mut full = msg;
        push_chars(&mut full, version.as_slice());
        let count = full.len();
        let extra = if msg_width > count {
            msg_width - count
        } else {
            0
        };
        let cols = self.screencols();
        let width = if extra < cols && cols - extra > 1 {
            cols - extra - 1
        } else {
            0
        };
        let mut out: Vec<char> = Vec::new();
        out.push('~');
        if width <= count {
            push_chars(&mut out, full.as_slice());
        } else {
            let pad = width - count;
            push_spaces(&mut out, pad / 2);
            push_chars(&mut out, full.as_slice());
            push_spaces(&mut out, pad - pad / 2);
        }
        assert(out@ =~= greeting(self@.screencols));
        out
    }

    /// The status bar and the status message as shown at `now`.
    fn render_status_message(&self, now: u64) -> (r: Vec<char>)
        requires
            self@.wf(),
            self@.rows.len() < usize::MAX,
        ensures
            r@ == status_text(self@, now as nat),
    {
        let nrows = self.rows().len();
        let mut left: Vec<char> = Vec::new();
        match self.filename() {
            Some(name) => {
                let n = chars_of(name.as_str());
                push_chars(&mut left, n.as_slice());
            },
            None => {},
        }
        push_chars(&mut left, chars_of(NAME_SEPARATOR).as_slice());
        push_decimal(&mut left, nrows as u64);
        push_chars(&mut left, chars_of(LINES_LABEL).as_slice());
        if self.dirty() != 0 {
            push_chars(&mut left, chars_of(MODIFIED).as_slice());
        }
        assert(left@ =~= left_status(self@));
        let mut right: Vec<char> = Vec::new();
        push_decimal(&mut right, (self.filerow() + 1) as u64);
        right.push('/');
        push_decimal(&mut right, nrows as u64);
        assert(right@ =~= right_status(self@));
        let lw = field_columns(left.as_slice());
        let rw = field_columns(right.as_slice());
        let cols = self.screencols();
        let pad = if lw < cols && rw < cols - lw {
            cols - lw - rw
        } else {
            0
        };
        let mut out = chars_of(REVERSE);
        push_chars(&mut out, left.as_slice());
        push_spaces(&mut out, pad);
        push_chars(&mut out, right.as_slice());
        push_chars(&mut out, chars_of(CLEAR_REST_OF_LINE).as_slice());
        push_chars(&mut out, chars_of(EOL).as_slice());
        push_chars(&mut out, chars_of(RESET).as_slice());
        let message = self.status().visible_message(now);
        push_chars(&mut out, message.as_slice());
        push_chars(&mut out, chars_of(CLEAR_REST_OF_LINE).as_slice());
        assert(out@ =~= status_text(self@, now as nat));
        out
    }

    /// The text of one full redraw at time `now`; fails only when the
    /// document is empty and the welcome message has no display width.
    pub fn render_frame(&self, now: u64) -> (r: Result<String, Error>)
        requires
            self@.wf(),
            self@.rows.len() < usize::MAX,
        ensures
            r is Ok <==> frame_drawable(self@),
            r matches Ok(s) ==> s@ == frame(self@, now as nat),
            r matches Err(e) ==> e == Error::UnknownWidth,
    {
        let rows = self.rows();
        let empty = rows.len() == 0;
        let mut greeting_row: Vec<char> = Vec::new();
        if empty {
            let mut msg = chars_of(WELCOME);
            push_chars(&mut msg, chars_of(VERSION).as_slice());
            match render_width(msg.as_slice()) {
                Some(w) => {
                    greeting_row = self.render_welcome_message(w);
                },
                None => {
                    return Err(Error::UnknownWidth);
                },
            }
        }
        let ghost v = self@;
        let mut out = chars_of(HIDE_CURSOR);
        push_chars(&mut out, chars_of(GOTO_TOP_LEFT).as_slice());
        let clear = chars_of(CLEAR_REST_OF_LINE);
        let eol = chars_of(EOL);
        let screenrows = self.screenrows();
        let screencols = self.screencols();
        let rowoff = self.rowoff();
        let coloff = self.coloff();
        let mut y: usize = 0;
        while y < screenrows
            invariant
                v == self@,
                screenrows == v.screenrows,
                screencols == v.screencols,
                rowoff == v.rowoff,
                coloff == v.coloff,
                lines_of(rows@) == v.rows,
                empty == (v.rows.len() == 0),
                empty ==> greeting_row@ == greeting(v.screencols),
                clear@ == CLEAR_REST_OF_LINE@,
                eol@ == EOL@,
                y <= screenrows,
                out@ == HIDE_CURSOR@ + GOTO_TOP_LEFT@ + screen_text(v, y as nat),
            decreases screenrows - y,
        {
            let ghost before = out@;
            if empty {
                if y == screenrows / 3 {
                    push_chars(&mut out, greeting_row.as_slice());
                } else {
                    out.push('~');
                }
            } else if rowoff < rows.len() && y < rows.len() - rowoff {
                let line = crop_to(rows[rowoff + y].as_slice(), coloff, screencols);
                push_chars(&mut out, line.as_slice());
            } else {
                out.push('~');
            }
            assert(out@ =~= before + screen_line(v, y as nat));
            push_chars(&mut out, clear.as_slice());
            push_chars(&mut out, eol.as_slice());
            y = y + 1;
            assert(out@ =~= HIDE_CURSOR@ + GOTO_TOP_LEFT@ + screen_text(v, y as nat));
        }
        let status = self.render_status_message(now);
        push_chars(&mut out, status.as_slice());
        push_goto(&mut out, self.cx() + 1, self.cy() + 1);
        push_chars(&mut out, chars_of(SHOW_CURSOR).as_slice());
        assert(out@ =~= frame(v, now as nat));
        Ok(string_of(out.as_slice()))
    }
}

} // verus!
