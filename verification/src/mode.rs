//! The two modes of the editor and what a key does in each.

use crate::editor::erased;
use crate::editor::inserted;
use crate::line::Line;
use crate::motion::moved_down;
use crate::motion::moved_left;
use crate::motion::moved_right;
use crate::motion::moved_up;
use vstd::prelude::*;

verus! {

/// How keys are read: as commands, or as text to insert.
#[derive(Debug, Clone, Copy, PartialEq, Eq, Structural)]
pub enum Mode {
    Normal,
    Insert,
}

/// A key as the editor tells keys apart.
#[derive(Debug, Clone, Copy, PartialEq, Eq, Structural)]
pub enum Key {
    Escape,
    Backspace,
    Char(char),
    Other,
}

/// One key event: the key, and whether a modifier was held with it.
#[derive(Debug, Clone, Copy, PartialEq, Eq, Structural)]
pub struct KeyPress {
    pub key: Key,
    pub modified: bool,
}

/// What the loop around the editor has to do after a key.
#[derive(Debug, Clone, Copy, PartialEq, Eq, Structural)]
pub enum Action {
    /// Draw and read the next key.
    Continue,
    /// Write the text to its file, then go on.
    Save,
    /// Leave the loop.
    Quit,
}

/// The mode after a key, and what the loop has to do.
#[derive(Debug, Clone, Copy, PartialEq, Eq, Structural)]
pub struct Transition {
    pub mode: Mode,
    pub action: Action,
}

/// The mode after `press` arrives in `mode`: `e` enters Insert with or
/// without a modifier, a bare Escape leaves it.
pub open spec fn next_mode(mode: Mode, press: KeyPress) -> Mode {
    match mode {
        Mode::Normal => if press.key == Key::Char('e') {
            Mode::Insert
        } else {
            Mode::Normal
        },
        Mode::Insert => if press.key == Key::Escape && !press.modified {
            Mode::Normal
        } else {
            Mode::Insert
        },
    }
}

/// What the loop has to do after `press` arrived in `mode`: quit on `q` in
/// Normal, save when a bare Escape leaves Insert.
pub open spec fn action_of(mode: Mode, press: KeyPress) -> Action {
    match mode {
        Mode::Normal => if press.key == Key::Char('q') {
            Action::Quit
        } else {
            Action::Continue
        },
        Mode::Insert => if press.key == Key::Escape && !press.modified {
            Action::Save
        } else {
            Action::Continue
        },
    }
}

/// The text and the cursor after `press` arrived in `mode`. In Normal the
/// keys `a`, `d`, `w`, `s` move the cursor; in Insert a bare Backspace erases
/// and a bare character is typed. Every other key changes nothing.
pub open spec fn edited(
    mode: Mode,
    press: KeyPress,
    text: Seq<char>,
    lines: Seq<Line>,
    cursor: int,
) -> (Seq<char>, int) {
    match mode {
        Mode::Normal => match press.key {
            Key::Char(c) => if c == 'a' {
                (text, moved_left(cursor))
            } else if c == 'd' {
                (text, moved_right(text.len() as int, cursor))
            } else if c == 'w' {
                (text, moved_up(lines, cursor))
            } else if c == 's' {
                (text, moved_down(lines, cursor))
            } else {
                (text, cursor)
            },
            _ => (text, cursor),
        },
        Mode::Insert => if press.modified {
            (text, cursor)
        } else {
            match press.key {
                Key::Backspace => erased(text, cursor),
                Key::Char(c) => inserted(text, cursor, c),
                _ => (text, cursor),
            }
        },
    }
}

/// The mode and the action that follow a key.
pub fn transition(mode: Mode, press: KeyPress) -> (next: Transition)
    ensures
        next.mode == next_mode(mode, press),
        next.action == action_of(mode, press),
{
    match mode {
        Mode::Normal => match press.key {
            Key::Char('e') => Transition { mode: Mode::Insert, action: Action::Continue },
            Key::Char('q') => Transition { mode: Mode::Normal, action: Action::Quit },
            _ => Transition { mode: Mode::Normal, action: Action::Continue },
        },
        Mode::Insert => match press.key {
            Key::Escape => if press.modified {
                Transition { mode: Mode::Insert, action: Action::Continue }
            } else {
                Transition { mode: Mode::Normal, action: Action::Save }
            },
            _ => Transition { mode: Mode::Insert, action: Action::Continue },
        },
    }
}

} // verus!
