//! The editor: one document, its cursor and viewport, and the commands that
//! move the cursor and edit the text.
use vstd::prelude::*;

use crate::buffer::{delete_char_at, insert_char_at, lines_of, split_line};
use crate::model::{
    arrow_move, clamp, col_right, initial_view, delete_step, insert_char_step, is_arrow, move_step,
    newline_step, place_col, resize_step, row_down, row_up, EditorView,
};
use crate::status::{Status, StatusView};
use crate::persist::{has_no_breaks, save_text, saved_text, split_text, terminated};
use crate::text::chars_of;
use crate::KEY_ACTION;

verus! {

/// The state of one editing session.
pub struct Editor {
    cx: usize,
    cy: usize,
    rowoff: usize,
    coloff: usize,
    screenrows: usize,
    screencols: usize,
    rows: Vec<Vec<char>>,
    dirty: usize,
    filename: Option<String>,
    status: Status,
}

impl View for Editor {
    type V = EditorView;

    closed spec fn view(&self) -> EditorView {
        EditorView {
            cx: self.cx as nat,
            cy: self.cy as nat,
            rowoff: self.rowoff as nat,
            coloff: self.coloff as nat,
            screenrows: self.screenrows as nat,
            screencols: self.screencols as nat,
            rows: lines_of(self.rows@),
            dirty: self.dirty as nat,
            filename: match self.filename {
                Some(f) => Some(f@),
                None => None,
            },
            status: self.status@,
        }
    }
}

impl Editor {
    /// An empty document with the cursor at the top left of a viewport of
    /// `screenrows` by `screencols`, each at least one.
    pub fn new(screenrows: usize, screencols: usize) -> (r: Editor)
        ensures
            r@ == initial_view(screenrows as nat, screencols as nat),
            r@.wf(),
    {
        let r = Editor {
            cx: 0,
            cy: 0,
            rowoff: 0,
            coloff: 0,
            screenrows: if screenrows == 0 {
                1
            } else {
                screenrows
            },
            screencols: if screencols == 0 {
                1
            } else {
                screencols
            },
            rows: Vec::new(),
            dirty: 0,
            filename: None,
            status: Status::default(),
        };
        assert(r@.rows =~= Seq::<Seq<char>>::empty());
        r
    }

    /// Row of the cursor in the document.
    pub fn filerow(&self) -> (r: usize)
        requires
            self@.wf(),
        ensures
            r == self@.filerow(),
    {
        proof {
            self.lemma_view_bounds();
        }
        self.rowoff + self.cy
    }

    /// Column of the cursor in the document.
    pub fn filecol(&self) -> (r: usize)
        requires
            self@.wf(),
        ensures
            r == self@.filecol(),
    {
        proof {
            self.lemma_view_bounds();
        }
        self.coloff + self.cx
    }

    /// Cursor column on the screen.
    pub fn cx(&self) -> (r: usize)
        ensures
            r == self@.cx,
    {
        self.cx
    }

    /// Cursor row on the screen.
    pub fn cy(&self) -> (r: usize)
        ensures
            r == self@.cy,
    {
        self.cy
    }

    /// First document row shown on the screen.
    pub fn rowoff(&self) -> (r: usize)
        ensures
            r == self@.rowoff,
    {
        self.rowoff
    }

    /// First document column shown on the screen.
    pub fn coloff(&self) -> (r: usize)
        ensures
            r == self@.coloff,
    {
        self.coloff
    }

    /// Number of text rows on the screen.
    pub fn screenrows(&self) -> (r: usize)
        ensures
            r == self@.screenrows,
    {
        self.screenrows
    }

    /// Number of columns on the screen.
    pub fn screencols(&self) -> (r: usize)
        ensures
            r == self@.screencols,
    {
        self.screencols
    }

    /// Number of edits since the last save.
    pub fn dirty(&self) -> (r: usize)
        ensures
            r == self@.dirty,
    {
        self.dirty
    }

    /// The lines of the document.
    pub fn rows(&self) -> (r: &Vec<Vec<char>>)
        ensures
            lines_of(r@) == self@.rows,
    {
        &self.rows
    }

    /// The name of the file that the document is saved to.
    pub fn filename(&self) -> (r: &Option<String>)
        ensures
            r is Some <==> self@.filename is Some,
            r matches Some(f) ==> self@.filename == Some(f@),
    {
        &self.filename
    }

    /// The status message.
    pub fn status(&self) -> (r: &Status)
        ensures
            r@ == self@.status,
    {
        &self.status
    }

    /// Whether the document has no lines.
    pub fn is_empty(&self) -> (r: bool)
        ensures
            r == (self@.rows.len() == 0),
    {
        self.rows.len() == 0
    }

    proof fn lemma_view_bounds(&self)
        ensures
            self@.rows.len() <= usize::MAX,
            forall|i: int| 0 <= i < self@.rows.len() ==> #[trigger] self@.rows[i].len() <= usize::MAX,
    {
        assert(self.rows@.len() == self.rows.len());
        assert forall|i: int| 0 <= i < self@.rows.len() implies #[trigger] self@.rows[i].len()
            <= usize::MAX by {
            let r = self.rows@[i];
            assert(r@.len() == r.len());
        }
    }

    /// Sets the name of the file that the document is saved to.
    pub fn set_filename(&mut self, name: String)
        ensures
            final(self)@ == (EditorView { filename: Some(name@), ..old(self)@ }),
    {
        self.filename = Some(name);
    }

    /// Replaces the status message with `message`, set at `now`.
    pub fn set_status(&mut self, message: String, now: u64)
        ensures
            final(self)@ == (EditorView {
                status: StatusView { message: message@, time: now as nat },
                ..old(self)@
            }),
    {
        self.status = Status::new(message, now);
    }

    /// Appends a line to the document, as when a file is read; this is not
    /// counted as an edit.
    pub fn append_line(&mut self, line: &str)
        requires
            old(self)@.wf(),
        ensures
            final(self)@ == (EditorView { rows: old(self)@.rows.push(line@), ..old(self)@ }),
            final(self)@.wf(),
    {
        let chars = chars_of(line);
        let ghost old_rows = self.rows@;
        self.rows.push(chars);
        assert(lines_of(self.rows@) =~= lines_of(old_rows).push(line@));
    }

    /// Inserts a line at `idx`, shifting later lines down, and counts it as
    /// an edit; a cursor left beyond the end of its new line is brought back.
    pub fn insert_line(&mut self, idx: usize, line: &str)
        requires
            old(self)@.wf(),
            idx <= old(self)@.rows.len(),
            old(self)@.dirty < usize::MAX,
        ensures
            final(self)@ == clamp(
                EditorView {
                    rows: old(self)@.rows.insert(idx as int, line@),
                    dirty: old(self)@.dirty + 1,
                    ..old(self)@
                },
            ),
            final(self)@.wf(),
    {
        proof {
            self.lemma_view_bounds();
        }
        let chars = chars_of(line);
        let ghost old_rows = self.rows@;
        self.rows.insert(idx, chars);
        self.dirty = self.dirty + 1;
        assert(lines_of(self.rows@) =~= lines_of(old_rows).insert(idx as int, line@));
        self.clamp_cursor();
    }

    /// Brings a cursor beyond the end of its line back to the line's end.
    fn clamp_cursor(&mut self)
        requires
            old(self)@.screenrows >= 1,
            old(self)@.screencols >= 1,
            old(self)@.cy < old(self)@.screenrows,
            old(self)@.cx < old(self)@.screencols,
            old(self)@.filerow() <= old(self)@.rows.len(),
            old(self)@.filecol() <= usize::MAX,
        ensures
            final(self)@ == clamp(old(self)@),
            final(self)@.wf(),
    {
        proof {
            self.lemma_view_bounds();
        }
        let filerow = self.rowoff + self.cy;
        let filecol = self.coloff + self.cx;
        let rowlen = if filerow < self.rows.len() {
            self.rows[filerow].len()
        } else {
            0
        };
        if filecol > rowlen {
            if self.coloff > rowlen {
                self.coloff = rowlen;
            }
            self.cx = rowlen - self.coloff;
        }
    }

    fn advance_row(&mut self)
        requires
            old(self)@.cy < old(self)@.screenrows,
            old(self)@.rowoff < usize::MAX,
        ensures
            final(self)@ == row_down(old(self)@),
    {
        if self.cy + 1 == self.screenrows {
            self.rowoff = self.rowoff + 1;
        } else {
            self.cy = self.cy + 1;
        }
    }

    fn retreat_row(&mut self)
        requires
            old(self)@.filerow() > 0,
        ensures
            final(self)@ == row_up(old(self)@),
    {
        if self.cy == 0 {
            self.rowoff = self.rowoff - 1;
        } else {
            self.cy = self.cy - 1;
        }
    }

    fn advance_col(&mut self)
        requires
            old(self)@.cx < old(self)@.screencols,
            old(self)@.coloff < usize::MAX,
        ensures
            final(self)@ == col_right(old(self)@),
    {
        if self.cx + 1 == self.screencols {
            self.coloff = self.coloff + 1;
        } else {
            self.cx = self.cx + 1;
        }
    }

    fn place_cursor_col(&mut self, col: usize)
        requires
            old(self)@.screencols >= 1,
        ensures
            final(self)@ == place_col(old(self)@, col as nat),
    {
        if col < self.screencols {
            self.cx = col;
            self.coloff = 0;
        } else {
            self.cx = self.screencols - 1;
            self.coloff = col - (self.screencols - 1);
        }
    }

    /// Moves the cursor by one arrow key: left at column zero wraps to the
    /// end of the previous line, right at the end of a line to the start of
    /// the next, and the view scrolls where the cursor would leave the
    /// screen. The cursor then stays within its line.
    pub fn move_cursor(&mut self, key: KEY_ACTION)
        requires
            old(self)@.wf(),
            is_arrow(key),
        ensures
            final(self)@ == move_step(old(self)@, key),
            final(self)@.wf(),
    {
        proof {
            self.lemma_view_bounds();
        }
        let filerow = self.rowoff + self.cy;
        let filecol = self.coloff + self.cx;
        match key {
            KEY_ACTION::ARROW_LEFT => {
                if self.cx > 0 {
                    self.cx = self.cx - 1;
                } else if self.coloff > 0 {
                    self.coloff = self.coloff - 1;
                } else if filerow > 0 {
                    let len = self.rows[filerow - 1].len();
                    self.retreat_row();
                    self.place_cursor_col(len);
                }
            },
            KEY_ACTION::ARROW_RIGHT => {
                if filerow < self.rows.len() {
                    if filecol < self.rows[filerow].len() {
                        self.advance_col();
                    } else {
                        self.cx = 0;
                        self.coloff = 0;
                        self.advance_row();
                    }
                }
            },
            KEY_ACTION::ARROW_UP => {
                if filerow > 0 {
                    self.retreat_row();
                }
            },
            KEY_ACTION::ARROW_DOWN => {
                if filerow < self.rows.len() {
                    self.advance_row();
                }
            },
            _ => {},
        }
        assert(self@ == arrow_move(old(self)@, key));
        self.clamp_cursor();
    }

    /// Backspace: deletes the character before the cursor and moves the
    /// cursor back over it; at column zero joins the line onto the previous
    /// one, with the cursor at the join point.
    pub fn delete_character(&mut self)
        requires
            old(self)@.wf(),
            old(self)@.dirty < usize::MAX,
        ensures
            final(self)@ == delete_step(old(self)@),
            final(self)@.wf(),
    {
        proof {
            self.lemma_view_bounds();
        }
        let filerow = self.rowoff + self.cy;
        let filecol = self.coloff + self.cx;
        if filerow == 0 && filecol == 0 {
            return ;
        }
        if filerow < self.rows.len() {
            if filecol > 0 {
                delete_char_at(&mut self.rows, filerow, filecol);
                if self.cx == 0 {
                    self.coloff = self.coloff - 1;
                } else {
                    self.cx = self.cx - 1;
                }
            } else {
                let len = self.rows[filerow - 1].len();
                delete_char_at(&mut self.rows, filerow, filecol);
                self.retreat_row();
                self.place_cursor_col(len);
            }
            self.dirty = self.dirty + 1;
        }
    }

    /// Types `c` at the cursor and advances the cursor by one column.
    pub fn insert_char(&mut self, c: char)
        requires
            old(self)@.wf(),
            old(self)@.dirty < usize::MAX,
            old(self)@.rows.len() < usize::MAX,
        ensures
            final(self)@ == insert_char_step(old(self)@, c),
            final(self)@.wf(),
    {
        proof {
            self.lemma_view_bounds();
        }
        let filerow = self.rowoff + self.cy;
        let filecol = self.coloff + self.cx;
        let ghost old_lines = self@.rows;
        insert_char_at(&mut self.rows, filerow, filecol, c);
        proof {
            self.lemma_view_bounds();
            let grown = crate::buffer::grow_to(old_lines, filerow as nat);
            assert(crate::buffer::pad_to(grown[filerow as int], filecol as nat) == grown[filerow as int]);
            assert(self@.rows[filerow as int].len() == grown[filerow as int].len() + 1);
        }
        self.dirty = self.dirty + 1;
        self.advance_col();
    }

    /// Enter: splits the line at the cursor and moves the cursor to the start
    /// of the next row.
    pub fn insert_newline(&mut self)
        requires
            old(self)@.wf(),
            old(self)@.dirty < usize::MAX,
        ensures
            final(self)@ == newline_step(old(self)@),
            final(self)@.wf(),
    {
        proof {
            self.lemma_view_bounds();
        }
        let filerow = self.rowoff + self.cy;
        let filecol = self.coloff + self.cx;
        let inside = filerow < self.rows.len();
        split_line(&mut self.rows, filerow, filecol);
        if inside {
            self.dirty = self.dirty + 1;
        }
        proof {
            self.lemma_view_bounds();
        }
        self.advance_row();
        self.cx = 0;
        self.coloff = 0;
    }

    /// Takes a new viewport size, each side at least one; where the cursor
    /// would fall outside the new viewport, the view scrolls to keep it in.
    pub fn resize(&mut self, screenrows: usize, screencols: usize)
        requires
            old(self)@.wf(),
        ensures
            final(self)@ == resize_step(old(self)@, screenrows as nat, screencols as nat),
            final(self)@.wf(),
    {
        proof {
            self.lemma_view_bounds();
        }
        let sr = if screenrows == 0 {
            1
        } else {
            screenrows
        };
        let sc = if screencols == 0 {
            1
        } else {
            screencols
        };
        if self.cy >= sr {
            self.rowoff = self.rowoff + (self.cy - (sr - 1));
            self.cy = sr - 1;
        }
        if self.cx >= sc {
            self.coloff = self.coloff + (self.cx - (sc - 1));
            self.cx = sc - 1;
        }
        self.screenrows = sr;
        self.screencols = sc;
    }

    /// The text that the document is saved as: every line followed by a
    /// line break.
    pub fn save_contents(&self) -> (r: String)
        ensures
            r@ == saved_text(self@.rows),
    {
        save_text(&self.rows)
    }

    /// Records a successful save: no edits are left unsaved.
    pub fn mark_saved(&mut self)
        ensures
            final(self)@ == (EditorView { dirty: 0, ..old(self)@ }),
    {
        self.dirty = 0;
    }

    /// Appends the lines of a file's text, split at its line breaks; this is
    /// not counted as an edit.
    pub fn load(&mut self, text: &str)
        requires
            old(self)@.wf(),
        ensures
            final(self)@ == (EditorView { rows: final(self)@.rows, ..old(self)@ }),
            final(self)@.rows.take(old(self)@.rows.len() as int) == old(self)@.rows,
            has_no_breaks(final(self)@.rows.skip(old(self)@.rows.len() as int)),
            saved_text(final(self)@.rows.skip(old(self)@.rows.len() as int)) == terminated(text@),
            final(self)@.wf(),
    {
        let ghost old_rows = self@.rows;
        let mut lines = split_text(text);
        let ghost added = lines_of(lines@);
        self.rows.append(&mut lines);
        assert(self@.rows =~= old_rows + added);
        assert(self@.rows.take(old_rows.len() as int) =~= old_rows);
        assert(self@.rows.skip(old_rows.len() as int) =~= added);
    }
}

impl Default for Editor {
    /// An empty editor with a viewport of one row and one column.
    fn default() -> (r: Editor)
        ensures
            r@ == initial_view(0, 0),
            r@.wf(),
    {
        Editor::new(0, 0)
    }
}

} // verus!
