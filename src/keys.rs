//! Recognising keys in the bytes that a terminal sends.
use vstd::prelude::*;

use crate::{key_code, KEY_ACTION};

verus! {

/// The key that an escape sequence stands for, given the bytes after the
/// escape byte: the arrow keys as `[A` to `[D`, Home as `[H`, `OH`, `[1~`
/// or `[7~`, End as `[F`, `OF`, `[4~` or `[8~`, Delete as `[3~`, and Page
/// Up and Down as `[5~` and `[6~`.
pub open spec fn escape_key(seq: Seq<u8>) -> Option<KEY_ACTION> {
    if seq.len() == 2 && seq[0] == 0x5b {
        let b = seq[1];
        if b == 0x41 {
            Some(KEY_ACTION::ARROW_UP)
        } else if b == 0x42 {
            Some(KEY_ACTION::ARROW_DOWN)
        } else if b == 0x43 {
            Some(KEY_ACTION::ARROW_RIGHT)
        } else if b == 0x44 {
            Some(KEY_ACTION::ARROW_LEFT)
        } else if b == 0x48 {
            Some(KEY_ACTION::HOME_KEY)
        } else if b == 0x46 {
            Some(KEY_ACTION::END_KEY)
        } else {
            None
        }
    } else if seq.len() == 2 && seq[0] == 0x4f {
        if seq[1] == 0x48 {
            Some(KEY_ACTION::HOME_KEY)
        } else if seq[1] == 0x46 {
            Some(KEY_ACTION::END_KEY)
        } else {
            None
        }
    } else if seq.len() == 3 && seq[0] == 0x5b && seq[2] == 0x7e {
        let b = seq[1];
        if b == 0x31 || b == 0x37 {
            Some(KEY_ACTION::HOME_KEY)
        } else if b == 0x34 || b == 0x38 {
            Some(KEY_ACTION::END_KEY)
        } else if b == 0x33 {
            Some(KEY_ACTION::DEL_KEY)
        } else if b == 0x35 {
            Some(KEY_ACTION::PAGE_UP)
        } else if b == 0x36 {
            Some(KEY_ACTION::PAGE_DOWN)
        } else {
            None
        }
    } else {
        None
    }
}

/// The control key that the byte `b` stands for, if any: the key whose code
/// is `b`.
pub fn key_of_byte(b: u8) -> (r: Option<KEY_ACTION>)
    ensures
        r matches Some(k) ==> key_code(k) == b as u32,
        r is None <==> forall|k: KEY_ACTION| key_code(k) != b as u32,
{
    let r = match b {
        0 => Some(KEY_ACTION::KEY_NULL),
        3 => Some(KEY_ACTION::CTRL_C),
        4 => Some(KEY_ACTION::CTRL_D),
        8 => Some(KEY_ACTION::CTRL_H),
        9 => Some(KEY_ACTION::TAB),
        12 => Some(KEY_ACTION::CTRL_L),
        13 => Some(KEY_ACTION::ENTER),
        17 => Some(KEY_ACTION::CTRL_Q),
        19 => Some(KEY_ACTION::CTRL_S),
        21 => Some(KEY_ACTION::CTRL_U),
        27 => Some(KEY_ACTION::ESC),
        127 => Some(KEY_ACTION::BACKSPACE),
        _ => None,
    };
    proof {
        if r is None {
            assert forall|k: KEY_ACTION| key_code(k) != b as u32 by {
            }
        } else {
            let k = r->Some_0;
            assert(key_code(k) == b as u32);
        }
    }
    r
}

/// The key that an escape sequence stands for, given the bytes after the
/// escape byte; `None` for a sequence that is not one of them.
pub fn decode_escape(seq: &[u8]) -> (r: Option<KEY_ACTION>)
    ensures
        r == escape_key(seq@),
{
    if seq.len() == 2 && seq[0] == 0x5b {
        let b = seq[1];
        if b == 0x41 {
            Some(KEY_ACTION::ARROW_UP)
        } else if b == 0x42 {
            Some(KEY_ACTION::ARROW_DOWN)
        } else if b == 0x43 {
            Some(KEY_ACTION::ARROW_RIGHT)
        } else if b == 0x44 {
            Some(KEY_ACTION::ARROW_LEFT)
        } else if b == 0x48 {
            Some(KEY_ACTION::HOME_KEY)
        } else if b == 0x46 {
            Some(KEY_ACTION::END_KEY)
        } else {
            None
        }
    } else if seq.len() == 2 && seq[0] == 0x4f {
        if seq[1] == 0x48 {
            Some(KEY_ACTION::HOME_KEY)
        } else if seq[1] == 0x46 {
            Some(KEY_ACTION::END_KEY)
        } else {
            None
        }
    } else if seq.len() == 3 && seq[0] == 0x5b && seq[2] == 0x7e {
        let b = seq[1];
        if b == 0x31 || b == 0x37 {
            Some(KEY_ACTION::HOME_KEY)
        } else if b == 0x34 || b == 0x38 {
            Some(KEY_ACTION::END_KEY)
        } else if b == 0x33 {
            Some(KEY_ACTION::DEL_KEY)
        } else if b == 0x35 {
            Some(KEY_ACTION::PAGE_UP)
        } else if b == 0x36 {
            Some(KEY_ACTION::PAGE_DOWN)
        } else {
            None
        }
    } else {
        None
    }
}

} // verus!
