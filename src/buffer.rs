//! The document as an ordered sequence of lines, and the edits on it.
use vstd::prelude::*;

verus! {

/// The character sequences of `rows`.
pub open spec fn lines_of(rows: Seq<Vec<char>>) -> Seq<Seq<char>> {
    rows.map_values(|r: Vec<char>| r@)
}

/// Length of line `row`; a row past the end counts as an empty line.
pub open spec fn line_len(lines: Seq<Seq<char>>, row: int) -> nat {
    if 0 <= row < lines.len() {
        lines[row].len()
    } else {
        0
    }
}

/// `n` copies of `c`.
pub open spec fn repeat(c: char, n: nat) -> Seq<char> {
    Seq::new(n, |_i: int| c)
}

/// `lines`, grown with empty lines until it holds line `row`.
pub open spec fn grow_to(lines: Seq<Seq<char>>, row: nat) -> Seq<Seq<char>> {
    if row < lines.len() {
        lines
    } else {
        lines + Seq::new((row + 1 - lines.len()) as nat, |_i: int| Seq::<char>::empty())
    }
}

/// `line`, padded with spaces until it is `col` characters long.
pub open spec fn pad_to(line: Seq<char>, col: nat) -> Seq<char> {
    if col <= line.len() {
        line
    } else {
        line + repeat(' ', (col - line.len()) as nat)
    }
}

/// Inserting `ch` at `(row, col)`: the document grows with empty lines up to
/// `row`, the line is padded with spaces up to `col`, and `ch` goes in at `col`.
pub open spec fn insert_char_lines(lines: Seq<Seq<char>>, row: nat, col: nat, ch: char) -> Seq<
    Seq<char>,
> {
    let grown = grow_to(lines, row);
    grown.update(row as int, pad_to(grown[row as int], col).insert(col as int, ch))
}

/// Splitting line `row` at `col`: the line keeps its first `col` characters
/// and the rest becomes a new line right after it. Past the end of the
/// document, an empty line is appended instead.
pub open spec fn split_lines_at(lines: Seq<Seq<char>>, row: nat, col: nat) -> Seq<Seq<char>> {
    if row < lines.len() {
        let line = lines[row as int];
        let at = if col <= line.len() {
            col as int
        } else {
            line.len() as int
        };
        lines.update(row as int, line.take(at)).insert(row + 1 as int, line.skip(at))
    } else {
        lines.push(Seq::empty())
    }
}

/// Joining line `row` onto the end of the line before it.
pub open spec fn join_lines_at(lines: Seq<Seq<char>>, row: nat) -> Seq<Seq<char>> {
    lines.update(row - 1, lines[row - 1] + lines[row as int]).remove(row as int)
}

/// Deleting before `(row, col)`: the character before `col` goes; at column
/// zero the line is joined onto the previous one. At the start of the
/// document, or past its end, nothing changes.
pub open spec fn delete_char_lines(lines: Seq<Seq<char>>, row: nat, col: nat) -> Seq<Seq<char>> {
    if row >= lines.len() || (row == 0 && col == 0) || col > lines[row as int].len() {
        lines
    } else if col > 0 {
        lines.update(row as int, lines[row as int].remove(col - 1))
    } else {
        join_lines_at(lines, row)
    }
}

/// Inserts `ch` at `(row, col)`, growing the document and padding the line
/// as needed.
pub fn insert_char_at(rows: &mut Vec<Vec<char>>, row: usize, col: usize, ch: char)
    requires
        row < usize::MAX,
    ensures
        lines_of(final(rows)@) == insert_char_lines(lines_of(old(rows)@), row as nat, col as nat, ch),
{
    let ghost old_lines = lines_of(rows@);
    while rows.len() <= row
        invariant
            old_lines.len() <= rows@.len(),
            rows@.len() <= row + 1 || rows@.len() == old_lines.len(),
            lines_of(rows@) == grow_to(old_lines, row as nat).take(rows@.len() as int),
        decreases row + 1 - rows@.len(),
    {
        rows.push(Vec::new());
        assert(lines_of(rows@) =~= grow_to(old_lines, row as nat).take(rows@.len() as int));
    }
    assert(grow_to(old_lines, row as nat).len() == rows@.len());
    assert(lines_of(rows@) =~= grow_to(old_lines, row as nat));
    let ghost grown = lines_of(rows@);
    let line = &mut rows[row];
    let ghost start = line@;
    while line.len() < col
        invariant
            row < grown.len(),
            start == grown[row as int],
            line@ == pad_to(start, col as nat).take(line@.len() as int),
            start.len() <= line@.len(),
            line@.len() <= col || line@ == start,
        decreases col - line@.len(),
    {
        line.push(' ');
        assert(line@ =~= pad_to(start, col as nat).take(line@.len() as int));
    }
    assert(line@ =~= pad_to(start, col as nat));
    line.insert(col, ch);
    assert(lines_of(rows@) =~= insert_char_lines(old_lines, row as nat, col as nat, ch));
}

/// Splits line `row` at `col`, or appends an empty line when `row` is past
/// the end of the document.
pub fn split_line(rows: &mut Vec<Vec<char>>, row: usize, col: usize)
    ensures
        lines_of(final(rows)@) == split_lines_at(lines_of(old(rows)@), row as nat, col as nat),
{
    let ghost old_lines = lines_of(rows@);
    if row < rows.len() {
        let line = &mut rows[row];
        let at = if col <= line.len() {
            col
        } else {
            line.len()
        };
        let rest = line.split_off(at);
        rows.insert(row + 1, rest);
        let ghost l = old_lines[row as int];
        assert(lines_of(rows@) =~= old_lines.update(row as int, l.take(at as int)).insert(
            row + 1,
            l.skip(at as int),
        ));
    } else {
        rows.push(Vec::new());
        assert(lines_of(rows@) =~= old_lines.push(Seq::empty()));
    }
}

/// Deletes the character before `(row, col)`, joining line `row` onto the
/// previous one at column zero.
pub fn delete_char_at(rows: &mut Vec<Vec<char>>, row: usize, col: usize)
    ensures
        lines_of(final(rows)@) == delete_char_lines(lines_of(old(rows)@), row as nat, col as nat),
{
    let ghost old_lines = lines_of(rows@);
    if row >= rows.len() || (row == 0 && col == 0) || col > rows[row].len() {
        return ;
    }
    if col > 0 {
        rows[row].remove(col - 1);
        assert(lines_of(rows@) =~= old_lines.update(
            row as int,
            old_lines[row as int].remove(col - 1),
        ));
    } else {
        let mut line = rows.remove(row);
        rows[row - 1].append(&mut line);
        assert(lines_of(rows@) =~= join_lines_at(old_lines, row as nat));
    }
}

} // verus!
