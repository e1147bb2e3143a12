//! Terminal control sequences.
use vstd::prelude::*;

use crate::text::{decimal, push_decimal, string_of};

verus! {

/// Hides the cursor.
pub const HIDE_CURSOR: &'static str = "\x1B[?25l";

/// Shows the cursor.
pub const SHOW_CURSOR: &'static str = "\x1B[?25h";

/// Moves the cursor to the top left corner.
pub const GOTO_TOP_LEFT: &'static str = "\x1B[H";

/// Erases from the cursor to the end of the line.
pub const CLEAR_REST_OF_LINE: &'static str = "\x1B[0K";

/// Switches to the alternative screen buffer.
pub const ALTERNATIVE_BUFFER: &'static str = "\x1B[?1049h";

/// Switches back to the primary screen buffer.
pub const PRIMARY_BUFFER: &'static str = "\x1B[?1049l";

/// Reverse video.
pub const REVERSE: &'static str = "\x1B[7m";

/// Ends all character attributes.
pub const RESET: &'static str = "\x1B[0m";

/// Ends a line of output.
pub const EOL: &'static str = "\r\n";

/// The sequence that moves the cursor to column `x` of row `y`, both
/// counted from one.
pub open spec fn goto_text(x: nat, y: nat) -> Seq<char> {
    seq!['\x1B', '['] + decimal(y) + seq![';'] + decimal(x) + seq!['H']
}

/// Appends the sequence that moves the cursor to column `x` of row `y`.
pub fn push_goto(out: &mut Vec<char>, x: usize, y: usize)
    ensures
        final(out)@ == old(out)@ + goto_text(x as nat, y as nat),
{
    out.push('\x1B');
    out.push('[');
    push_decimal(out, y as u64);
    out.push(';');
    push_decimal(out, x as u64);
    out.push('H');
    assert(out@ =~= old(out)@ + goto_text(x as nat, y as nat));
}

/// The sequence that moves the cursor to column `x` of row `y`, both
/// counted from one.
pub fn goto_position(x: usize, y: usize) -> (r: String)
    ensures
        r@ == goto_text(x as nat, y as nat),
{
    let mut out: Vec<char> = Vec::new();
    push_goto(&mut out, x, y);
    assert(out@ =~= goto_text(x as nat, y as nat));
    string_of(out.as_slice())
}

} // verus!
