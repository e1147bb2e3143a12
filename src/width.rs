//! Display width of characters and strings, and cropping of a line to a
//! window of display columns.
use vstd::prelude::*;

verus! {

/// Display width of a tab.
pub const TAB_WIDTH: usize = 8;

/// Control codes (other than NUL and tab) have no printable width.
pub open spec fn is_control(cp: u32) -> bool {
    (1 <= cp < 0x20) || (0x7f <= cp < 0xa0)
}

/// Code points that are reserved: the noncharacters at the end of each plane,
/// the planes that hold no assignments, and the gaps in the Greek, Armenian
/// and Hebrew blocks.
pub open spec fn is_unassigned(cp: u32) -> bool {
    cp % 0x10000 >= 0xfffe || (0x40000 <= cp < 0xe0000)
        || (0x0378 <= cp <= 0x0379) || (0x0380 <= cp <= 0x0383) || cp == 0x038b
        || cp == 0x038d || cp == 0x03a2 || cp == 0x0530 || (0x0557 <= cp <= 0x0558)
        || (0x058b <= cp <= 0x058c) || cp == 0x0590 || (0x05c8 <= cp <= 0x05cf)
        || (0x05eb <= cp <= 0x05ee) || (0x05f5 <= cp <= 0x05ff)
}

/// Combining marks (including the non-spacing marks of Devanagari, Bengali,
/// Tibetan and Myanmar, and the Hangul vowel and final jamo), joiners and
/// other code points drawn over their neighbour.
pub open spec fn is_zero_width(cp: u32) -> bool {
    (0x0300 <= cp <= 0x036f) || (0x0483 <= cp <= 0x0489) || (0x0591 <= cp <= 0x05bd)
        || cp == 0x05bf || (0x05c1 <= cp <= 0x05c2) || (0x05c4 <= cp <= 0x05c5) || cp == 0x05c7
        || (0x0610 <= cp <= 0x061a) || (0x064b <= cp <= 0x065f) || cp == 0x0670
        || (0x06d6 <= cp <= 0x06dc) || (0x06df <= cp <= 0x06e4) || (0x06e7 <= cp <= 0x06e8)
        || (0x06ea <= cp <= 0x06ed) || cp == 0x0e31 || (0x0e34 <= cp <= 0x0e3a)
        || (0x0e47 <= cp <= 0x0e4e) || (0x1ab0 <= cp <= 0x1aff) || (0x1dc0 <= cp <= 0x1dff)
        || (0x200b <= cp <= 0x200f) || (0x202a <= cp <= 0x202e) || (0x2060 <= cp <= 0x2064)
        || (0x20d0 <= cp <= 0x20ff) || (0x302a <= cp <= 0x302d) || (0x3099 <= cp <= 0x309a)
        || (0xfe00 <= cp <= 0xfe0f) || (0xfe20 <= cp <= 0xfe2f) || cp == 0xfeff
        || (0xe0100 <= cp <= 0xe01ef)
        || (0x0900 <= cp <= 0x0902) || cp == 0x093a || cp == 0x093c
        || (0x0941 <= cp <= 0x0948) || cp == 0x094d || (0x0951 <= cp <= 0x0957)
        || (0x0962 <= cp <= 0x0963) || cp == 0x0981 || cp == 0x09bc
        || (0x09c1 <= cp <= 0x09c4) || cp == 0x09cd || (0x09e2 <= cp <= 0x09e3)
        || (0x0f71 <= cp <= 0x0f7e) || (0x102d <= cp <= 0x1030) || (0x1160 <= cp <= 0x11ff)
}

/// East Asian wide and fullwidth code points, and wide emoji and symbols.
pub open spec fn is_wide(cp: u32) -> bool {
    (0x1100 <= cp <= 0x115f) || (0x2e80 <= cp <= 0x303e) || (0x3041 <= cp <= 0x33ff)
        || (0x3400 <= cp <= 0x4dbf) || (0x4e00 <= cp <= 0x9fff) || (0xa000 <= cp <= 0xa4cf)
        || (0xac00 <= cp <= 0xd7a3) || (0xf900 <= cp <= 0xfaff) || (0xfe30 <= cp <= 0xfe4f)
        || (0xff00 <= cp <= 0xff60) || (0xffe0 <= cp <= 0xffe6) || (0x1f300 <= cp <= 0x1f64f)
        || (0x1f900 <= cp <= 0x1f9ff) || (0x20000 <= cp <= 0x2fffd) || (0x30000 <= cp
        <= 0x3fffd)
        || (0x1f200 <= cp <= 0x1f2ff) || (0x1f680 <= cp <= 0x1f6ff)
        || (0x1f7e0 <= cp <= 0x1f7eb) || (0x1fa70 <= cp <= 0x1faff)
}

/// Number of terminal columns that `c` occupies, or `None` where it has no
/// printable width.
pub open spec fn width_of(c: char) -> Option<nat> {
    let cp = c as u32;
    if c == '\t' {
        Some(TAB_WIDTH as nat)
    } else if is_control(cp) || is_unassigned(cp) {
        None
    } else if cp == 0 || is_zero_width(cp) {
        Some(0)
    } else if is_wide(cp) {
        Some(2)
    } else {
        Some(1)
    }
}

/// Width used for layout: a character without a printable width counts as
/// one column, as if its text length were its width.
pub open spec fn layout_width(c: char) -> nat {
    match width_of(c) {
        Some(w) => w,
        None => 1,
    }
}

/// Whether every character of `s` has a printable width.
pub open spec fn all_printable(s: Seq<char>) -> bool {
    forall|i: int| 0 <= i < s.len() ==> (#[trigger] width_of(s[i])) is Some
}

/// Sum of the layout widths of the characters of `s`.
pub open spec fn columns(s: Seq<char>) -> nat
    decreases s.len(),
{
    if s.len() == 0 {
        0
    } else {
        columns(s.drop_last()) + layout_width(s.last())
    }
}

/// Display width of a string: the sum of its characters' widths, or `None`
/// when a character has no printable width or the sum does not fit a `usize`.
pub open spec fn render_width_of(s: Seq<char>) -> Option<nat> {
    if all_printable(s) && columns(s) <= usize::MAX {
        Some(columns(s))
    } else {
        None
    }
}

/// Column at which character `i` of `s` starts: the layout widths of the
/// characters before it, added up.
pub open spec fn column_of(s: Seq<char>, i: int) -> nat {
    columns(s.take(i))
}

/// The characters of `s`, from its start, that start less than `room`
/// columns in.
pub open spec fn take_starting_within(s: Seq<char>, room: nat) -> Seq<char>
    decreases s.len(),
{
    if s.len() == 0 || room == 0 {
        Seq::empty()
    } else {
        let w = layout_width(s[0]);
        let rest: nat = if w < room {
            (room - w) as nat
        } else {
            0
        };
        seq![s[0]] + take_starting_within(s.drop_first(), rest)
    }
}

/// The characters of `s` that start inside the display columns
/// `[start, start + width)`: those that start before `start` are skipped,
/// and a wide character that starts in the last column is kept.
pub open spec fn crop(s: Seq<char>, start: nat, width: nat) -> Seq<char>
    decreases s.len(),
{
    if start == 0 {
        take_starting_within(s, width)
    } else if s.len() == 0 {
        Seq::empty()
    } else if layout_width(s[0]) < start {
        crop(s.drop_first(), (start - layout_width(s[0])) as nat, width)
    } else {
        let over = (layout_width(s[0]) - start) as nat;
        let room: nat = if over < width {
            (width - over) as nat
        } else {
            0
        };
        take_starting_within(s.drop_first(), room)
    }
}

fn is_control_code(cp: u32) -> (r: bool)
    ensures
        r == is_control(cp),
{
    (1 <= cp && cp < 0x20) || (0x7f <= cp && cp < 0xa0)
}

fn is_unassigned_code(cp: u32) -> (r: bool)
    ensures
        r == is_unassigned(cp),
{
    cp % 0x10000 >= 0xfffe || (0x40000 <= cp && cp < 0xe0000)
        || (0x0378 <= cp && cp <= 0x0379) || (0x0380 <= cp && cp <= 0x0383) || cp == 0x038b
        || cp == 0x038d || cp == 0x03a2 || cp == 0x0530 || (0x0557 <= cp && cp <= 0x0558)
        || (0x058b <= cp && cp <= 0x058c) || cp == 0x0590 || (0x05c8 <= cp && cp <= 0x05cf)
        || (0x05eb <= cp && cp <= 0x05ee) || (0x05f5 <= cp && cp <= 0x05ff)
}

fn is_zero_width_code(cp: u32) -> (r: bool)
    ensures
        r == is_zero_width(cp),
{
    (0x0300 <= cp && cp <= 0x036f) || (0x0483 <= cp && cp <= 0x0489) || (0x0591 <= cp && cp
        <= 0x05bd) || cp == 0x05bf || (0x05c1 <= cp && cp <= 0x05c2) || (0x05c4 <= cp && cp
        <= 0x05c5) || cp == 0x05c7 || (0x0610 <= cp && cp <= 0x061a) || (0x064b <= cp && cp
        <= 0x065f) || cp == 0x0670 || (0x06d6 <= cp && cp <= 0x06dc) || (0x06df <= cp && cp
        <= 0x06e4) || (0x06e7 <= cp && cp <= 0x06e8) || (0x06ea <= cp && cp <= 0x06ed) || cp
        == 0x0e31 || (0x0e34 <= cp && cp <= 0x0e3a) || (0x0e47 <= cp && cp <= 0x0e4e) || (
    0x1ab0 <= cp && cp <= 0x1aff) || (0x1dc0 <= cp && cp <= 0x1dff) || (0x200b <= cp && cp
        <= 0x200f) || (0x202a <= cp && cp <= 0x202e) || (0x2060 <= cp && cp <= 0x2064) || (
    0x20d0 <= cp && cp <= 0x20ff) || (0x302a <= cp && cp <= 0x302d) || (0x3099 <= cp && cp
        <= 0x309a) || (0xfe00 <= cp && cp <= 0xfe0f) || (0xfe20 <= cp && cp <= 0xfe2f) || cp
        == 0xfeff || (0xe0100 <= cp && cp <= 0xe01ef)
        || (0x0900 <= cp && cp <= 0x0902) || cp == 0x093a || cp == 0x093c
        || (0x0941 <= cp && cp <= 0x0948) || cp == 0x094d || (0x0951 <= cp && cp <= 0x0957)
        || (0x0962 <= cp && cp <= 0x0963) || cp == 0x0981 || cp == 0x09bc
        || (0x09c1 <= cp && cp <= 0x09c4) || cp == 0x09cd || (0x09e2 <= cp && cp <= 0x09e3)
        || (0x0f71 <= cp && cp <= 0x0f7e) || (0x102d <= cp && cp <= 0x1030)
        || (0x1160 <= cp && cp <= 0x11ff)
}

fn is_wide_code(cp: u32) -> (r: bool)
    ensures
        r == is_wide(cp),
{
    (0x1100 <= cp && cp <= 0x115f) || (0x2e80 <= cp && cp <= 0x303e) || (0x3041 <= cp && cp
        <= 0x33ff) || (0x3400 <= cp && cp <= 0x4dbf) || (0x4e00 <= cp && cp <= 0x9fff) || (
    0xa000 <= cp && cp <= 0xa4cf) || (0xac00 <= cp && cp <= 0xd7a3) || (0xf900 <= cp && cp
        <= 0xfaff) || (0xfe30 <= cp && cp <= 0xfe4f) || (0xff00 <= cp && cp <= 0xff60) || (
    0xffe0 <= cp && cp <= 0xffe6) || (0x1f300 <= cp && cp <= 0x1f64f) || (0x1f900 <= cp
        && cp <= 0x1f9ff) || (0x20000 <= cp && cp <= 0x2fffd) || (0x30000 <= cp && cp
        <= 0x3fffd)
        || (0x1f200 <= cp && cp <= 0x1f2ff) || (0x1f680 <= cp && cp <= 0x1f6ff)
        || (0x1f7e0 <= cp && cp <= 0x1f7eb) || (0x1fa70 <= cp && cp <= 0x1faff)
}

/// Display width of `c`: 8 for a tab, 0 for combining marks, 2 for wide
/// characters, 1 otherwise, and `None` for control codes and reserved code
/// points.
pub fn char_width(c: char) -> (r: Option<usize>)
    ensures
        r matches Some(w) ==> width_of(c) == Some(w as nat),
        r is None ==> width_of(c) is None,
{
    let cp = c as u32;
    if c == '\t' {
        Some(TAB_WIDTH)
    } else if is_control_code(cp) || is_unassigned_code(cp) {
        None
    } else if cp == 0 || is_zero_width_code(cp) {
        Some(0)
    } else if is_wide_code(cp) {
        Some(2)
    } else {
        Some(1)
    }
}

/// Layout width of `c`: its display width, or one column where it has none.
pub fn char_layout_width(c: char) -> (r: usize)
    ensures
        r == layout_width(c),
        r <= TAB_WIDTH,
{
    match char_width(c) {
        Some(w) => w,
        None => 1,
    }
}

proof fn lemma_columns_step(s: Seq<char>, i: int)
    requires
        0 <= i < s.len(),
    ensures
        columns(s.take(i + 1)) == columns(s.take(i)) + layout_width(s[i]),
{
    assert(s.take(i + 1).drop_last() =~= s.take(i));
}

proof fn lemma_columns_monotone(s: Seq<char>, i: int, j: int)
    requires
        0 <= i <= j <= s.len(),
    ensures
        columns(s.take(i)) <= columns(s.take(j)),
    decreases j - i,
{
    if i < j {
        lemma_columns_monotone(s, i, j - 1);
        lemma_columns_step(s, j - 1);
    }
}

/// Display width of `s`, the sum of its characters' widths; `None` where a
/// character has no printable width.
pub fn render_width(s: &[char]) -> (r: Option<usize>)
    ensures
        r matches Some(w) ==> render_width_of(s@) == Some(w as nat),
        r is None ==> render_width_of(s@) is None,
{
    let mut total: usize = 0;
    let mut i: usize = 0;
    while i < s.len()
        invariant
            i <= s@.len(),
            total == columns(s@.take(i as int)),
            all_printable(s@.take(i as int)),
        decreases s@.len() - i,
    {
        proof {
            lemma_columns_step(s@, i as int);
        }
        match char_width(s[i]) {
            Some(w) => {
                match total.checked_add(w) {
                    Some(t) => {
                        total = t;
                    },
                    None => {
                        proof {
                            lemma_columns_monotone(s@, i + 1, s@.len() as int);
                            assert(s@.take(s@.len() as int) =~= s@);
                        }
                        return None;
                    },
                }
            },
            None => {
                assert(width_of(s@[i as int]) is None);
                return None;
            },
        }
        i = i + 1;
        assert(all_printable(s@.take(i as int))) by {
            assert forall|k: int| 0 <= k < i implies (#[trigger] width_of(s@.take(i as int)[k]))
                is Some by {
                if k < i - 1 {
                    assert(s@.take(i as int)[k] == s@.take(i - 1)[k]);
                }
            }
        }
    }
    assert(s@.take(s@.len() as int) =~= s@);
    Some(total)
}

/// The characters of `s` that start inside the display columns
/// `[start, start + width)`, found by walking display widths.
pub fn crop_to(s: &[char], start: usize, width: usize) -> (r: Vec<char>)
    ensures
        r@ == crop(s@, start as nat, width as nat),
{
    let mut i: usize = 0;
    let mut gap: usize = start;
    let mut room: usize = width;
    assert(s@.skip(0) =~= s@);
    while gap > 0 && i < s.len()
        invariant
            i <= s@.len(),
            gap > 0 ==> crop(s@, start as nat, width as nat) == crop(
                s@.skip(i as int),
                gap as nat,
                width as nat,
            ),
            gap == 0 ==> crop(s@, start as nat, width as nat) == take_starting_within(
                s@.skip(i as int),
                room as nat,
            ),
        decreases s@.len() - i,
    {
        let w = char_layout_width(s[i]);
        assert(s@.skip(i as int)[0] == s@[i as int]);
        assert(s@.skip(i as int).drop_first() =~= s@.skip(i + 1));
        if w < gap {
            gap = gap - w;
        } else {
            room = if w - gap < width {
                width - (w - gap)
            } else {
                0
            };
            gap = 0;
        }
        i = i + 1;
    }
    if gap > 0 {
        return Vec::new();
    }
    let mut out: Vec<char> = Vec::new();
    while i < s.len() && room > 0
        invariant
            i <= s@.len(),
            crop(s@, start as nat, width as nat) == out@ + take_starting_within(
                s@.skip(i as int),
                room as nat,
            ),
        decreases s@.len() - i,
    {
        let w = char_layout_width(s[i]);
        assert(s@.skip(i as int)[0] == s@[i as int]);
        assert(s@.skip(i as int).drop_first() =~= s@.skip(i + 1));
        let ghost prev = out@;
        let ghost before = room;
        out.push(s[i]);
        room = if w < room {
            room - w
        } else {
            0
        };
        i = i + 1;
        assert(prev + take_starting_within(s@.skip(i - 1), before as nat) =~= out@
            + take_starting_within(s@.skip(i as int), room as nat));
    }
    assert(out@ + take_starting_within(s@.skip(i as int), room as nat) =~= out@);
    out
}

/// Whether every character of `s` is printable ASCII, one column wide each.
pub open spec fn is_plain_ascii(s: Seq<char>) -> bool {
    forall|i: int| 0 <= i < s.len() ==> 0x20 <= (#[trigger] s[i]) as u32 && (s[i] as u32) < 0x7f
}

/// Cropping plain ASCII text from column zero to `n` columns keeps exactly
/// its first `n` characters (all of them if it is shorter).
pub proof fn lemma_crop_ascii_prefix(s: Seq<char>, n: nat)
    requires
        is_plain_ascii(s),
    ensures
        crop(s, 0, n) == s.take(if n < s.len() { n as int } else { s.len() as int }),
    decreases s.len(),
{
    if s.len() == 0 {
        assert(s.take(0) =~= s);
    } else {
        assert(0x20 <= s[0] as u32 && (s[0] as u32) < 0x7f);
        assert(layout_width(s[0]) == 1);
        if n == 0 {
            assert(s.take(0) =~= Seq::<char>::empty());
        } else {
            let rest = s.drop_first();
            assert(is_plain_ascii(rest)) by {
                assert forall|i: int| 0 <= i < rest.len() implies 0x20 <= (#[trigger] rest[i]) as u32
                    && (rest[i] as u32) < 0x7f by {
                    assert(rest[i] == s[i + 1]);
                }
            }
            lemma_crop_ascii_prefix(rest, (n - 1) as nat);
            let k: int = if n < s.len() { n as int } else { s.len() as int };
            assert(seq![s[0]] + rest.take(k - 1) =~= s.take(k));
        }
    }
}

proof fn lemma_columns_cons(c: char, s: Seq<char>)
    ensures
        columns(seq![c] + s) == layout_width(c) + columns(s),
    decreases s.len(),
{
    let x = seq![c] + s;
    if s.len() == 0 {
        assert(x.drop_last() =~= Seq::<char>::empty());
        assert(columns(x.drop_last()) == 0);
        assert(x.last() == c);
        assert(columns(s) == 0);
    } else {
        lemma_columns_cons(c, s.drop_last());
        assert(x.drop_last() =~= seq![c] + s.drop_last());
        assert(x.last() == s.last());
    }
}

proof fn lemma_column_of_cons(s: Seq<char>, i: int)
    requires
        0 < i <= s.len(),
    ensures
        column_of(s, i) == layout_width(s[0]) + column_of(s.drop_first(), i - 1),
{
    assert(s.take(i) =~= seq![s[0]] + s.drop_first().take(i - 1));
    lemma_columns_cons(s[0], s.drop_first().take(i - 1));
}

proof fn lemma_take_starting_within(s: Seq<char>, room: nat) -> (b: int)
    ensures
        0 <= b <= s.len(),
        take_starting_within(s, room) == s.take(b),
        forall|i: int| 0 <= i < s.len() ==> (i < b <==> #[trigger] column_of(s, i) < room),
    decreases s.len(),
{
    assert(forall|i: int| 0 <= i < s.len() ==> #[trigger] column_of(s, i) >= 0);
    if s.len() == 0 || room == 0 {
        assert(s.take(0) =~= Seq::<char>::empty());
        0
    } else {
        let w = layout_width(s[0]);
        let rest: nat = if w < room {
            (room - w) as nat
        } else {
            0
        };
        let t = s.drop_first();
        let b0 = lemma_take_starting_within(t, rest);
        assert(seq![s[0]] + t.take(b0) =~= s.take(b0 + 1));
        assert(s.take(0) =~= Seq::<char>::empty());
        assert(column_of(s, 0) == 0);
        assert forall|i: int| 0 <= i < s.len() implies (i < b0 + 1 <==> #[trigger] column_of(s, i)
            < room) by {
            if i > 0 {
                lemma_column_of_cons(s, i);
                assert(i - 1 < b0 <==> column_of(t, i - 1) < rest);
            }
        }
        b0 + 1
    }
}

/// A crop keeps exactly the characters that start inside the window: it is
/// the piece of `s` from index `a` to `b`, and character `i` lies in that
/// piece exactly when its first column `p` satisfies
/// `start <= p < start + width`.
pub proof fn lemma_crop_window(s: Seq<char>, start: nat, width: nat) -> (r: (int, int))
    ensures
        0 <= r.0 <= r.1 <= s.len(),
        crop(s, start, width) == s.subrange(r.0, r.1),
        forall|i: int|
            0 <= i < s.len() ==> (r.0 <= i < r.1 <==> start <= #[trigger] column_of(s, i) < start
                + width),
    decreases s.len(),
{
    if start == 0 {
        let b = lemma_take_starting_within(s, width);
        assert(s.subrange(0, b) =~= s.take(b));
        (0, b)
    } else if s.len() == 0 {
        assert(s.subrange(0, 0) =~= Seq::<char>::empty());
        (0, 0)
    } else {
        let w = layout_width(s[0]);
        let t = s.drop_first();
        assert(s.take(0) =~= Seq::<char>::empty());
        assert(column_of(s, 0) == 0);
        if w < start {
            let (a0, b0) = lemma_crop_window(t, (start - w) as nat, width);
            assert(t.subrange(a0, b0) =~= s.subrange(a0 + 1, b0 + 1));
            assert forall|i: int| 0 <= i < s.len() implies (a0 + 1 <= i < b0 + 1 <==> start
                <= #[trigger] column_of(s, i) < start + width) by {
                if i > 0 {
                    lemma_column_of_cons(s, i);
                    assert(a0 <= i - 1 < b0 <==> (start - w) as nat <= column_of(t, i - 1) < (
                    start - w) as nat + width);
                }
            }
            (a0 + 1, b0 + 1)
        } else {
            let over = (w - start) as nat;
            let room: nat = if over < width {
                (width - over) as nat
            } else {
                0
            };
            let b0 = lemma_take_starting_within(t, room);
            assert(t.take(b0) =~= s.subrange(1, b0 + 1));
            assert forall|i: int| 0 <= i < s.len() implies (1 <= i < b0 + 1 <==> start
                <= #[trigger] column_of(s, i) < start + width) by {
                if i > 0 {
                    lemma_column_of_cons(s, i);
                    assert(i - 1 < b0 <==> column_of(t, i - 1) < room);
                }
            }
            (1, b0 + 1)
        }
    }
}

} // verus!
