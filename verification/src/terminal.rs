//! What the curses library reports when it is asked for the next key, and
//! the key event that each report stands for.

use crate::keyboard::KeyStroke;
use vstd::prelude::*;

verus! {

/// The numbers by which the curses library reports what is no character.
#[derive(Debug, Clone, Copy, PartialEq, Eq, Structural)]
pub struct CursesCodes {
    /// Nothing could be read.
    pub closed: i32,
    /// The terminal has a new size.
    pub resize: i32,
    pub up: i32,
    pub down: i32,
    pub left: i32,
    pub right: i32,
    pub previous_page: i32,
    pub next_page: i32,
    pub home: i32,
    pub end: i32,
    pub enter: i32,
    pub backspace: i32,
    pub delete: i32,
}

/// The numbers of the curses library.
pub open spec fn spec_curses_codes() -> CursesCodes {
    CursesCodes {
        closed: -1i32,
        resize: 0x19a,
        up: 0x103,
        down: 0x102,
        left: 0x104,
        right: 0x105,
        previous_page: 0x153,
        next_page: 0x152,
        home: 0x106,
        end: 0x168,
        enter: 0x157,
        backspace: 0x107,
        delete: 0x14a,
    }
}

/// The number by which the curses library reports function key `n`.
pub open spec fn spec_function_key_code(n: u8) -> int {
    0x108 + n
}

/// The constants `ERR`, `KEY_RESIZE`, `KEY_UP`, `KEY_DOWN`, `KEY_LEFT`,
/// `KEY_RIGHT`, `KEY_PPAGE`, `KEY_NPAGE`, `KEY_HOME`, `KEY_END`,
/// `KEY_ENTER`, `KEY_BACKSPACE` and `KEY_DC` of the crate `ncurses`. The
/// contract gives each the value that the crate's source gives it.
#[verifier::external_body]
fn curses_codes() -> (codes: CursesCodes)
    ensures
        codes == spec_curses_codes(),
{
    CursesCodes {
        closed: ncurses::ERR, resize: ncurses::KEY_RESIZE,
        up: ncurses::KEY_UP, down: ncurses::KEY_DOWN,
        left: ncurses::KEY_LEFT, right: ncurses::KEY_RIGHT,
        previous_page: ncurses::KEY_PPAGE, next_page: ncurses::KEY_NPAGE,
        home: ncurses::KEY_HOME, end: ncurses::KEY_END,
        enter: ncurses::KEY_ENTER, backspace: ncurses::KEY_BACKSPACE,
        delete: ncurses::KEY_DC,
    }
}

/// `ncurses::KEY_F`: the number of function key `n`, which is `KEY_F0`
/// plus `n`. The function panics from 16 on.
#[verifier::external_body]
fn function_key_code(n: u8) -> (code: i32)
    requires
        n < 16,
    ensures
        code == spec_function_key_code(n),
{
    ncurses::KEY_F(n)
}

/// What one read from the terminal brought.
#[derive(Debug, Clone, Copy, PartialEq, Eq, Structural)]
pub enum Input {
    /// A key was pressed.
    Key(KeyStroke),
    /// The terminal has a new size.
    Resized,
    /// Something that is no key of the editor.
    Unknown,
    /// The input has ended.
    Closed,
}

/// The highest function key that a report is read as.
pub const LAST_FUNCTION_KEY: u8 = 12;

/// What the report `code` of the curses library stands for.
///
/// The library's own numbers stand for the named keys, for a change of
/// size and for the end of the input. The numbers from 0 to 255 are
/// characters, but for escape, tab, line feed, carriage return and delete,
/// which are the keys of these names. Every other number is unknown.
pub open spec fn spec_from_code(code: i32) -> Input {
    let codes = spec_curses_codes();
    if code == codes.closed {
        Input::Closed
    } else if code == codes.resize {
        Input::Resized
    } else if code == codes.up {
        Input::Key(KeyStroke::KeyUp)
    } else if code == codes.down {
        Input::Key(KeyStroke::KeyDown)
    } else if code == codes.left {
        Input::Key(KeyStroke::KeyLeft)
    } else if code == codes.right {
        Input::Key(KeyStroke::KeyRight)
    } else if code == codes.previous_page {
        Input::Key(KeyStroke::KeyPreviousPage)
    } else if code == codes.next_page {
        Input::Key(KeyStroke::KeyNextPage)
    } else if code == codes.home {
        Input::Key(KeyStroke::KeyHome)
    } else if code == codes.end {
        Input::Key(KeyStroke::KeyEnd)
    } else if code == codes.enter || code == 0x0a || code == 0x0d {
        Input::Key(KeyStroke::KeyEnter)
    } else if code == codes.backspace || code == 0x7f {
        Input::Key(KeyStroke::KeyBackSpace)
    } else if code == codes.delete {
        Input::Key(KeyStroke::KeyDelete)
    } else if code == 0x09 {
        Input::Key(KeyStroke::KeyTab)
    } else if code == 0x1b {
        Input::Key(KeyStroke::KeyEscape)
    } else if spec_function_key_code(1) <= code <= spec_function_key_code(LAST_FUNCTION_KEY) {
        Input::Key(KeyStroke::KeyF((code - spec_function_key_code(0)) as u8))
    } else if 0 <= code <= 0xff {
        Input::Key(KeyStroke::Char(code as u8 as char))
    } else {
        Input::Unknown
    }
}

impl Input {
    /// Reads a report of the curses library.
    pub fn from_code(code: i32) -> (input: Input)
        ensures
            input == spec_from_code(code),
    {
        let codes = curses_codes();
        if code == codes.closed {
            Input::Closed
        } else if code == codes.resize {
            Input::Resized
        } else if code == codes.up {
            Input::Key(KeyStroke::KeyUp)
        } else if code == codes.down {
            Input::Key(KeyStroke::KeyDown)
        } else if code == codes.left {
            Input::Key(KeyStroke::KeyLeft)
        } else if code == codes.right {
            Input::Key(KeyStroke::KeyRight)
        } else if code == codes.previous_page {
            Input::Key(KeyStroke::KeyPreviousPage)
        } else if code == codes.next_page {
            Input::Key(KeyStroke::KeyNextPage)
        } else if code == codes.home {
            Input::Key(KeyStroke::KeyHome)
        } else if code == codes.end {
            Input::Key(KeyStroke::KeyEnd)
        } else if code == codes.enter || code == 0x0a || code == 0x0d {
            Input::Key(KeyStroke::KeyEnter)
        } else if code == codes.backspace || code == 0x7f {
            Input::Key(KeyStroke::KeyBackSpace)
        } else if code == codes.delete {
            Input::Key(KeyStroke::KeyDelete)
        } else if code == 0x09 {
            Input::Key(KeyStroke::KeyTab)
        } else if code == 0x1b {
            Input::Key(KeyStroke::KeyEscape)
        } else if function_key_code(1) <= code && code <= function_key_code(LAST_FUNCTION_KEY) {
            Input::Key(KeyStroke::KeyF((code - function_key_code(0)) as u8))
        } else if 0 <= code && code <= 0xff {
            Input::Key(KeyStroke::Char(code as u8 as char))
        } else {
            Input::Unknown
        }
    }
}

} // verus!
