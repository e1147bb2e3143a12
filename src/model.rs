//! The editor's state as mathematical values, and the transition that each
//! command makes on it.
use vstd::prelude::*;

use crate::buffer::{delete_char_lines, insert_char_lines, line_len, split_lines_at};
use crate::persist::has_no_breaks;
use crate::status::StatusView;
use crate::KEY_ACTION;

verus! {

/// What an editor holds: the cursor `(cx, cy)` on the screen, the scroll
/// offsets `(rowoff, coloff)`, the viewport size, the lines, the count of
/// unsaved edits, the file name and the status message.
pub struct EditorView {
    pub cx: nat,
    pub cy: nat,
    pub rowoff: nat,
    pub coloff: nat,
    pub screenrows: nat,
    pub screencols: nat,
    pub rows: Seq<Seq<char>>,
    pub dirty: nat,
    pub filename: Option<Seq<char>>,
    pub status: StatusView,
}

impl EditorView {
    /// Row of the cursor in the document.
    pub open spec fn filerow(self) -> nat {
        self.rowoff + self.cy
    }

    /// Column of the cursor in the document.
    pub open spec fn filecol(self) -> nat {
        self.coloff + self.cx
    }

    /// Length of the line under the cursor (zero one past the last line).
    pub open spec fn cursor_line_len(self) -> nat {
        line_len(self.rows, self.filerow() as int)
    }

    /// The cursor lies inside a viewport of at least one row and column, on
    /// a line of the document or one past its end, and not beyond the end of
    /// its line.
    pub open spec fn wf(self) -> bool {
        &&& self.screenrows >= 1
        &&& self.screencols >= 1
        &&& self.cy < self.screenrows
        &&& self.cx < self.screencols
        &&& self.filerow() <= self.rows.len()
        &&& self.filecol() <= self.cursor_line_len()
    }
}

/// A fresh editor: no lines, no edits, no file name, an empty status
/// message set at time zero, and the cursor at the top left of a viewport of
/// `screenrows` by `screencols`, each at least one.
pub open spec fn initial_view(screenrows: nat, screencols: nat) -> EditorView {
    EditorView {
        cx: 0,
        cy: 0,
        rowoff: 0,
        coloff: 0,
        screenrows: if screenrows == 0 {
            1
        } else {
            screenrows
        },
        screencols: if screencols == 0 {
            1
        } else {
            screencols
        },
        rows: Seq::empty(),
        dirty: 0,
        filename: None,
        status: StatusView { message: Seq::empty(), time: 0 },
    }
}

/// One row down: the cursor moves, or the view scrolls when the cursor is on
/// the bottom row of the screen.
pub open spec fn row_down(v: EditorView) -> EditorView {
    if v.cy + 1 == v.screenrows {
        EditorView { rowoff: v.rowoff + 1, ..v }
    } else {
        EditorView { cy: v.cy + 1, ..v }
    }
}

/// One row up: the cursor moves, or the view scrolls when the cursor is on
/// the top row of the screen.
pub open spec fn row_up(v: EditorView) -> EditorView {
    if v.cy == 0 {
        EditorView { rowoff: (v.rowoff - 1) as nat, ..v }
    } else {
        EditorView { cy: (v.cy - 1) as nat, ..v }
    }
}

/// One column right: the cursor moves, or the view scrolls when the cursor
/// is in the rightmost column of the screen.
pub open spec fn col_right(v: EditorView) -> EditorView {
    if v.cx + 1 == v.screencols {
        EditorView { coloff: v.coloff + 1, ..v }
    } else {
        EditorView { cx: v.cx + 1, ..v }
    }
}

/// One column left: the cursor moves, or the view scrolls when the cursor is
/// in the leftmost column of the screen.
pub open spec fn col_left(v: EditorView) -> EditorView {
    if v.cx == 0 {
        EditorView { coloff: (v.coloff - 1) as nat, ..v }
    } else {
        EditorView { cx: (v.cx - 1) as nat, ..v }
    }
}

/// The cursor at column `col` of its line, scrolled no further right than
/// needed to show it.
pub open spec fn place_col(v: EditorView, col: nat) -> EditorView {
    if col < v.screencols {
        EditorView { cx: col, coloff: 0, ..v }
    } else {
        EditorView { cx: (v.screencols - 1) as nat, coloff: (col - (v.screencols - 1)) as nat, ..v }
    }
}

/// A cursor beyond the end of its line is brought back to the line's end,
/// scrolling left only as far as needed.
pub open spec fn clamp(v: EditorView) -> EditorView {
    let len = v.cursor_line_len();
    if v.filecol() > len {
        let coloff = if v.coloff <= len {
            v.coloff
        } else {
            len
        };
        EditorView { coloff, cx: (len - coloff) as nat, ..v }
    } else {
        v
    }
}

/// Typing `ch`: it goes in at the cursor and the cursor advances a column.
pub open spec fn insert_char_step(v: EditorView, ch: char) -> EditorView {
    col_right(
        EditorView {
            rows: insert_char_lines(v.rows, v.filerow(), v.filecol(), ch),
            dirty: v.dirty + 1,
            ..v
        },
    )
}

/// Enter: the line is split at the cursor (past the end of the document an
/// empty line is appended), and the cursor goes to column zero of the next row.
pub open spec fn newline_step(v: EditorView) -> EditorView {
    let split = EditorView {
        rows: split_lines_at(v.rows, v.filerow(), v.filecol()),
        dirty: if v.filerow() < v.rows.len() {
            v.dirty + 1
        } else {
            v.dirty
        },
        ..v
    };
    EditorView { cx: 0, coloff: 0, ..row_down(split) }
}

/// Backspace: the character before the cursor goes and the cursor retreats
/// a column; at column zero the line is joined onto the previous one and the
/// cursor goes to the join point. At the start of the document, and on the
/// empty row past its end, nothing happens.
pub open spec fn delete_step(v: EditorView) -> EditorView {
    let deleted = EditorView {
        rows: delete_char_lines(v.rows, v.filerow(), v.filecol()),
        dirty: v.dirty + 1,
        ..v
    };
    if (v.filerow() == 0 && v.filecol() == 0) || v.filerow() >= v.rows.len() {
        v
    } else if v.filecol() > 0 {
        col_left(deleted)
    } else {
        place_col(row_up(deleted), line_len(v.rows, v.filerow() - 1))
    }
}

/// Whether `key` is one of the four arrow keys.
pub open spec fn is_arrow(key: KEY_ACTION) -> bool {
    key is ARROW_LEFT || key is ARROW_RIGHT || key is ARROW_UP || key is ARROW_DOWN
}

/// An arrow key's move, before the cursor is brought back into its line.
/// Left at column zero wraps to the end of the previous line, right at the
/// end of a line wraps to the start of the next; up and down stop at the
/// start of the document and one past its end.
pub open spec fn arrow_move(v: EditorView, key: KEY_ACTION) -> EditorView {
    match key {
        KEY_ACTION::ARROW_LEFT => {
            if v.cx > 0 || v.coloff > 0 {
                col_left(v)
            } else if v.filerow() > 0 {
                place_col(row_up(v), line_len(v.rows, v.filerow() - 1))
            } else {
                v
            }
        },
        KEY_ACTION::ARROW_RIGHT => {
            if v.filerow() < v.rows.len() && v.filecol() < v.cursor_line_len() {
                col_right(v)
            } else if v.filerow() < v.rows.len() {
                row_down(EditorView { cx: 0, coloff: 0, ..v })
            } else {
                v
            }
        },
        KEY_ACTION::ARROW_UP => {
            if v.filerow() > 0 {
                row_up(v)
            } else {
                v
            }
        },
        KEY_ACTION::ARROW_DOWN => {
            if v.filerow() < v.rows.len() {
                row_down(v)
            } else {
                v
            }
        },
        _ => v,
    }
}

/// An arrow key: the move, then the cursor brought back into its line.
pub open spec fn move_step(v: EditorView, key: KEY_ACTION) -> EditorView {
    clamp(arrow_move(v, key))
}

/// A new viewport of `rows` by `cols` (at least one of each): where the
/// cursor would fall outside it, the view scrolls just enough to keep the
/// cursor's place in the document.
pub open spec fn resize_step(v: EditorView, rows: nat, cols: nat) -> EditorView {
    let sr: nat = if rows == 0 {
        1
    } else {
        rows
    };
    let sc: nat = if cols == 0 {
        1
    } else {
        cols
    };
    let cy: nat = if v.cy >= sr {
        (sr - 1) as nat
    } else {
        v.cy
    };
    let cx: nat = if v.cx >= sc {
        (sc - 1) as nat
    } else {
        v.cx
    };
    EditorView {
        screenrows: sr,
        screencols: sc,
        rowoff: (v.filerow() - cy) as nat,
        cy,
        coloff: (v.filecol() - cx) as nat,
        cx,
        ..v
    }
}

/// Every arrow key leaves the cursor inside the viewport, on a line of the
/// document or one past its end, and no further right than the end of its
/// line.
pub proof fn lemma_move_keeps_cursor_in_line(v: EditorView, key: KEY_ACTION)
    requires
        v.wf(),
        is_arrow(key),
    ensures
        move_step(v, key).wf(),
        move_step(v, key).filecol() <= line_len(move_step(v, key).rows, move_step(v, key).filerow() as int),
{
    let m = arrow_move(v, key);
    assert(m.screenrows >= 1 && m.screencols >= 1 && m.cy < m.screenrows && m.cx < m.screencols);
    assert(m.filerow() <= m.rows.len());
}

/// Typing a character inside the document and then pressing Backspace gives
/// back the lines as they were, with the cursor at the same place in the
/// document; both count as edits.
pub proof fn lemma_insert_then_delete(v: EditorView, ch: char)
    requires
        v.wf(),
        v.filerow() < v.rows.len(),
    ensures
        delete_step(insert_char_step(v, ch)).rows == v.rows,
        delete_step(insert_char_step(v, ch)).filerow() == v.filerow(),
        delete_step(insert_char_step(v, ch)).filecol() == v.filecol(),
        delete_step(insert_char_step(v, ch)).dirty == v.dirty + 2,
{
    let r = v.filerow() as int;
    let c = v.filecol() as int;
    let line = v.rows[r];
    let u = insert_char_step(v, ch);
    assert(crate::buffer::grow_to(v.rows, v.filerow()) == v.rows);
    assert(crate::buffer::pad_to(line, v.filecol()) == line);
    assert(u.rows == v.rows.update(r, line.insert(c, ch)));
    assert(u.filerow() == v.filerow());
    assert(u.filecol() == v.filecol() + 1);
    assert(line.insert(c, ch).remove(c) =~= line);
    assert(u.rows.update(r, u.rows[r].remove(c)) =~= v.rows);
}

/// Typing characters other than a line break, and pressing Enter, keep
/// every line free of line breaks, so the document survives a save and a
/// reload.
pub proof fn lemma_edits_keep_no_breaks(v: EditorView, ch: char)
    requires
        v.wf(),
        has_no_breaks(v.rows),
        ch != '\n',
    ensures
        has_no_breaks(insert_char_step(v, ch).rows),
        has_no_breaks(newline_step(v).rows),
{
    let r = v.filerow() as int;
    let c = v.filecol() as int;
    let grown = crate::buffer::grow_to(v.rows, v.filerow());
    assert(has_no_breaks(grown)) by {
        assert forall|i: int, j: int| 0 <= i < grown.len() && 0 <= j < grown[i].len() implies #[trigger] grown[i][j]
            != '\n' by {
            if i < v.rows.len() {
                assert(grown[i] == v.rows[i]);
            }
        }
    }
    assert(crate::buffer::pad_to(grown[r], v.filecol()) == grown[r]);
    let ins = insert_char_step(v, ch).rows;
    assert(ins == grown.update(r, grown[r].insert(c, ch)));
    assert forall|i: int, j: int| 0 <= i < ins.len() && 0 <= j < ins[i].len() implies #[trigger] ins[i][j]
        != '\n' by {
        if i == r {
            if j < c {
                assert(ins[i][j] == grown[r][j]);
            } else if j > c {
                assert(ins[i][j] == grown[r][j - 1]);
            }
        }
    }
    let nl = newline_step(v).rows;
    if r < v.rows.len() {
        let line = v.rows[r];
        assert forall|i: int, j: int| 0 <= i < nl.len() && 0 <= j < nl[i].len() implies #[trigger] nl[i][j]
            != '\n' by {
            if i < r {
                assert(nl[i] == v.rows[i]);
            } else if i == r {
                assert(nl[i][j] == line[j]);
            } else if i == r + 1 {
                assert(nl[i][j] == line[c + j]);
            } else {
                assert(nl[i] == v.rows[i - 1]);
            }
        }
    } else {
        assert forall|i: int, j: int| 0 <= i < nl.len() && 0 <= j < nl[i].len() implies #[trigger] nl[i][j]
            != '\n' by {
            if i < v.rows.len() {
                assert(nl[i] == v.rows[i]);
            }
        }
    }
}

/// Enter inside the document splits the cursor's line exactly at the cursor
/// column: the line keeps what lies before the cursor, the rest (empty at
/// the end of the line) becomes a new line right after it, every other line
/// is kept in order, and the cursor goes to the start of the new line.
pub proof fn lemma_newline_splits_at_cursor(v: EditorView)
    requires
        v.wf(),
        v.filerow() < v.rows.len(),
    ensures
        newline_step(v).rows.len() == v.rows.len() + 1,
        newline_step(v).rows[v.filerow() as int] == v.rows[v.filerow() as int].take(
            v.filecol() as int,
        ),
        newline_step(v).rows[v.filerow() + 1 as int] == v.rows[v.filerow() as int].skip(
            v.filecol() as int,
        ),
        forall|i: int| 0 <= i < v.filerow() ==> newline_step(v).rows[i] == #[trigger] v.rows[i],
        forall|i: int|
            v.filerow() < i < v.rows.len() ==> newline_step(v).rows[i + 1] == #[trigger] v.rows[i],
        newline_step(v).filerow() == v.filerow() + 1,
        newline_step(v).filecol() == 0,
{
}

} // verus!
