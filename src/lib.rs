//! The editing and rendering core of a small terminal text editor.
use vstd::prelude::*;

pub mod ansi;
pub mod buffer;
pub mod commands;
pub mod editor;
pub mod keys;
pub mod model;
pub mod persist;
pub mod render;
pub mod status;
pub mod text;
pub mod width;

verus! {

/// The editor's version, shown in the welcome message.
pub const VERSION: &'static str = "0.1.0";

/// Message shown when the editor starts.
pub const HELP_MESSAGE: &'static str = "HELP: Ctrl-S = save | Ctrl-Q = quit";

/// What can go wrong in the editor core.
#[derive(Clone, Copy, Debug, PartialEq, Eq, Structural)]
pub enum Error {
    /// The program was started without a file name.
    IncorrectInvocation,
    /// The welcome message has no display width: the character width table
    /// does not cover it.
    UnknownWidth,
}

/// The keys that the editor distinguishes: control keys by their byte, the
/// keys that terminals send as escape sequences by codes of their own.
#[allow(non_camel_case_types)]
#[derive(Clone, Copy, Debug, PartialEq, Eq, Structural)]
pub enum KEY_ACTION {
    KEY_NULL,
    CTRL_C,
    CTRL_D,
    CTRL_H,
    TAB,
    CTRL_L,
    ENTER,
    CTRL_Q,
    CTRL_S,
    CTRL_U,
    ESC,
    BACKSPACE,
    ARROW_LEFT,
    ARROW_RIGHT,
    ARROW_UP,
    ARROW_DOWN,
    DEL_KEY,
    HOME_KEY,
    END_KEY,
    PAGE_UP,
    PAGE_DOWN,
}

impl KEY_ACTION {
    /// The key's code: the byte that a control key sends, or a code above
    /// the byte range for the keys that arrive as escape sequences.
    pub fn code(&self) -> (r: u32)
        ensures
            r == key_code(*self),
    {
        match self {
            KEY_ACTION::KEY_NULL => 0,
            KEY_ACTION::CTRL_C => 3,
            KEY_ACTION::CTRL_D => 4,
            KEY_ACTION::CTRL_H => 8,
            KEY_ACTION::TAB => 9,
            KEY_ACTION::CTRL_L => 12,
            KEY_ACTION::ENTER => 13,
            KEY_ACTION::CTRL_Q => 17,
            KEY_ACTION::CTRL_S => 19,
            KEY_ACTION::CTRL_U => 21,
            KEY_ACTION::ESC => 27,
            KEY_ACTION::BACKSPACE => 127,
            KEY_ACTION::ARROW_LEFT => 1000,
            KEY_ACTION::ARROW_RIGHT => 1001,
            KEY_ACTION::ARROW_UP => 1002,
            KEY_ACTION::ARROW_DOWN => 1003,
            KEY_ACTION::DEL_KEY => 1004,
            KEY_ACTION::HOME_KEY => 1005,
            KEY_ACTION::END_KEY => 1006,
            KEY_ACTION::PAGE_UP => 1007,
            KEY_ACTION::PAGE_DOWN => 1008,
        }
    }
}

/// The code of each key.
pub open spec fn key_code(k: KEY_ACTION) -> u32 {
    match k {
        KEY_ACTION::KEY_NULL => 0,
        KEY_ACTION::CTRL_C => 3,
        KEY_ACTION::CTRL_D => 4,
        KEY_ACTION::CTRL_H => 8,
        KEY_ACTION::TAB => 9,
        KEY_ACTION::CTRL_L => 12,
        KEY_ACTION::ENTER => 13,
        KEY_ACTION::CTRL_Q => 17,
        KEY_ACTION::CTRL_S => 19,
        KEY_ACTION::CTRL_U => 21,
        KEY_ACTION::ESC => 27,
        KEY_ACTION::BACKSPACE => 127,
        KEY_ACTION::ARROW_LEFT => 1000,
        KEY_ACTION::ARROW_RIGHT => 1001,
        KEY_ACTION::ARROW_UP => 1002,
        KEY_ACTION::ARROW_DOWN => 1003,
        KEY_ACTION::DEL_KEY => 1004,
        KEY_ACTION::HOME_KEY => 1005,
        KEY_ACTION::END_KEY => 1006,
        KEY_ACTION::PAGE_UP => 1007,
        KEY_ACTION::PAGE_DOWN => 1008,
    }
}

} // verus!
