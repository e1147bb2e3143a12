//! The document as text on disk: every line followed by a line break.
use vstd::prelude::*;

use crate::buffer::lines_of;
use crate::text::{push_chars, string_of};

verus! {

/// The text that a document is saved as: each line followed by `'\n'`.
pub open spec fn saved_text(lines: Seq<Seq<char>>) -> Seq<char>
    decreases lines.len(),
{
    if lines.len() == 0 {
        Seq::empty()
    } else {
        lines[0] + seq!['\n'] + saved_text(lines.drop_first())
    }
}

/// Whether no line holds a line break.
pub open spec fn has_no_breaks(lines: Seq<Seq<char>>) -> bool {
    forall|i: int, j: int| 0 <= i < lines.len() && 0 <= j < lines[i].len() ==> #[trigger] lines[i][j] != '\n'
}

/// `text` with a line break added after an unterminated last line.
pub open spec fn terminated(text: Seq<char>) -> Seq<char> {
    if text.len() == 0 || text.last() == '\n' {
        text
    } else {
        text.push('\n')
    }
}

proof fn lemma_saved_text_push(lines: Seq<Seq<char>>, line: Seq<char>)
    ensures
        saved_text(lines.push(line)) == saved_text(lines) + line + seq!['\n'],
    decreases lines.len(),
{
    if lines.len() == 0 {
        assert(lines.push(line).drop_first() =~= Seq::<Seq<char>>::empty());
        assert(saved_text(lines.push(line).drop_first()) == Seq::<char>::empty());
        assert(lines.push(line)[0] == line);
        assert(saved_text(lines.push(line)) =~= saved_text(lines) + line + seq!['\n']);
    } else {
        lemma_saved_text_push(lines.drop_first(), line);
        assert(lines.push(line).drop_first() =~= lines.drop_first().push(line));
        assert(saved_text(lines.push(line)) =~= saved_text(lines) + line + seq!['\n']);
    }
}

proof fn lemma_saved_text_ends(lines: Seq<Seq<char>>)
    ensures
        lines.len() == 0 <==> saved_text(lines).len() == 0,
        lines.len() > 0 ==> saved_text(lines).last() == '\n',
    decreases lines.len(),
{
    if lines.len() > 0 {
        lemma_saved_text_ends(lines.drop_first());
    }
}

/// Saved texts of documents without line breaks in their lines are equal
/// only when the documents are: the first line break ends the first line.
pub proof fn lemma_saved_text_injective(a: Seq<Seq<char>>, b: Seq<Seq<char>>)
    requires
        has_no_breaks(a),
        has_no_breaks(b),
        saved_text(a) == saved_text(b),
    ensures
        a == b,
    decreases a.len(),
{
    lemma_saved_text_ends(a);
    lemma_saved_text_ends(b);
    if a.len() > 0 {
        let t = saved_text(a);
        let (la, lb) = (a[0], b[0]);
        assert(t == la + seq!['\n'] + saved_text(a.drop_first()));
        assert(t == lb + seq!['\n'] + saved_text(b.drop_first()));
        if la.len() < lb.len() {
            assert(t[la.len() as int] == '\n');
            assert(t[la.len() as int] == lb[la.len() as int]);
            assert(b[0][la.len() as int] != '\n');
        } else if lb.len() < la.len() {
            assert(t[lb.len() as int] == '\n');
            assert(t[lb.len() as int] == la[lb.len() as int]);
            assert(a[0][lb.len() as int] != '\n');
        }
        assert(la =~= t.take(la.len() as int));
        assert(lb =~= t.take(lb.len() as int));
        assert(saved_text(a.drop_first()) =~= t.skip(la.len() + 1 as int));
        assert(saved_text(b.drop_first()) =~= t.skip(lb.len() + 1 as int));
        assert(has_no_breaks(a.drop_first())) by {
            assert forall|i: int, j: int|
                0 <= i < a.drop_first().len() && 0 <= j < a.drop_first()[i].len() implies #[trigger] a.drop_first()[i][j]
                != '\n' by {
                assert(a.drop_first()[i] == a[i + 1]);
            }
        }
        assert(has_no_breaks(b.drop_first())) by {
            assert forall|i: int, j: int|
                0 <= i < b.drop_first().len() && 0 <= j < b.drop_first()[i].len() implies #[trigger] b.drop_first()[i][j]
                != '\n' by {
                assert(b.drop_first()[i] == b[i + 1]);
            }
        }
        lemma_saved_text_injective(a.drop_first(), b.drop_first());
        assert(a =~= seq![la] + a.drop_first());
        assert(b =~= seq![lb] + b.drop_first());
    } else {
        assert(a =~= b);
    }
}

/// Saving a document whose lines hold no line breaks and reading the file
/// back, split at its line breaks, gives the same lines.
pub proof fn lemma_save_load_round_trip(lines: Seq<Seq<char>>, loaded: Seq<Seq<char>>)
    requires
        has_no_breaks(lines),
        has_no_breaks(loaded),
        saved_text(loaded) == terminated(saved_text(lines)),
    ensures
        loaded == lines,
{
    lemma_saved_text_ends(lines);
    lemma_saved_text_injective(loaded, lines);
}

/// The text that `rows` is saved as.
pub fn save_text(rows: &Vec<Vec<char>>) -> (r: String)
    ensures
        r@ == saved_text(lines_of(rows@)),
{
    let mut out: Vec<char> = Vec::new();
    let mut i: usize = 0;
    while i < rows.len()
        invariant
            i <= rows@.len(),
            out@ == saved_text(lines_of(rows@).take(i as int)),
        decreases rows@.len() - i,
    {
        proof {
            lemma_saved_text_push(lines_of(rows@).take(i as int), rows@[i as int]@);
            assert(lines_of(rows@).take(i as int).push(rows@[i as int]@) =~= lines_of(rows@).take(
                i + 1,
            ));
        }
        push_chars(&mut out, rows[i].as_slice());
        out.push('\n');
        i = i + 1;
    }
    assert(lines_of(rows@).take(rows@.len() as int) =~= lines_of(rows@));
    string_of(out.as_slice())
}

/// The lines of `text`, split at its line breaks; an unterminated last line
/// counts as a line.
pub fn split_text(text: &str) -> (r: Vec<Vec<char>>)
    ensures
        has_no_breaks(lines_of(r@)),
        saved_text(lines_of(r@)) == terminated(text@),
{
    let chars = crate::text::chars_of(text);
    let mut done: Vec<Vec<char>> = Vec::new();
    let mut cur: Vec<char> = Vec::new();
    let mut i: usize = 0;
    while i < chars.len()
        invariant
            i <= chars@.len(),
            chars@ == text@,
            has_no_breaks(lines_of(done@)),
            forall|j: int| 0 <= j < cur@.len() ==> cur@[j] != '\n',
            saved_text(lines_of(done@)) + cur@ == chars@.take(i as int),
            cur@.len() == 0 && i > 0 ==> chars@[i - 1] == '\n',
        decreases chars@.len() - i,
    {
        let c = chars[i];
        let ghost before = chars@.take(i as int);
        assert(chars@.take(i + 1) =~= before.push(c));
        if c == '\n' {
            let ghost prev = lines_of(done@);
            proof {
                lemma_saved_text_push(prev, cur@);
            }
            let mut line: Vec<char> = Vec::new();
            core::mem::swap(&mut line, &mut cur);
            done.push(line);
            assert(lines_of(done@) =~= prev.push(line@));
            assert(saved_text(lines_of(done@)) + cur@ =~= chars@.take(i + 1));
        } else {
            cur.push(c);
            assert(saved_text(lines_of(done@)) + cur@ =~= chars@.take(i + 1));
        }
        i = i + 1;
    }
    assert(chars@.take(chars@.len() as int) =~= chars@);
    if cur.len() > 0 {
        let ghost prev = lines_of(done@);
        proof {
            lemma_saved_text_push(prev, cur@);
        }
        let ghost last = cur@;
        done.push(cur);
        assert(lines_of(done@) =~= prev.push(last));
        assert(text@.last() == last.last());
    }
    done
}

/// Added to a file's name to name the file that a save writes first,
/// beside it, before renaming it over the file itself.
pub const SAVE_SUFFIX: &'static str = "~kirosave";

/// Name of the file that a save of `file_name` writes first.
pub fn save_file_name(file_name: &str) -> (r: String)
    ensures
        r@ == file_name@ + SAVE_SUFFIX@,
{
    let mut out = crate::text::chars_of(file_name);
    push_chars(&mut out, crate::text::chars_of(SAVE_SUFFIX).as_slice());
    string_of(out.as_slice())
}

} // verus!
