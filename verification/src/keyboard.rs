//! Key events as the editor sees them, and the textual descriptions that
//! configuration uses to name them.

use vstd::prelude::*;

verus! {

/// A single key event, normalized: either a character or one of the named
/// keys of a terminal keyboard.
#[derive(Debug, Clone, Copy, Hash, PartialEq, Eq, Structural)]
pub enum KeyStroke {
    /// A character key.
    Char(char),
    KeyUp,
    KeyDown,
    KeyLeft,
    KeyRight,
    KeyPreviousPage,
    KeyNextPage,
    KeyHome,
    KeyEnd,
    KeyEscape,
    KeyEnter,
    KeyTab,
    KeyBackSpace,
    KeyDelete,
    /// A function key, by its number.
    KeyF(u8),
}

/// A key description that names no key.
#[derive(Debug, Clone, Copy, PartialEq, Eq, Structural)]
pub struct ParseError;

/// Control characters: the code points U+0000 to U+001F and U+007F to U+009F.
pub open spec fn is_control(c: char) -> bool {
    c <= '\u{1f}' || ('\u{7f}' <= c && c <= '\u{9f}')
}

/// A character that can stand in text: any but the control characters.
pub open spec fn is_printable(c: char) -> bool {
    !is_control(c)
}

/// The value of a decimal digit.
pub open spec fn digit_value(c: char) -> int
    recommends
        '0' <= c <= '9',
{
    c as int - '0' as int
}

/// The function key that `text` describes: `<f1>` to `<f12>`, the number in
/// decimal without a leading zero.
pub open spec fn spec_function_key(text: Seq<char>) -> Option<KeyStroke> {
    if text.len() == 4 && text[0] == '<' && text[1] == 'f' && '1' <= text[2] <= '9' && text[3]
        == '>' {
        Some(KeyStroke::KeyF(digit_value(text[2]) as u8))
    } else if text.len() == 5 && text[0] == '<' && text[1] == 'f' && text[2] == '1' && '0'
        <= text[3] <= '2' && text[4] == '>' {
        Some(KeyStroke::KeyF((10 + digit_value(text[3])) as u8))
    } else {
        None
    }
}

/// The named key, other than a function key, that `text` describes.
pub open spec fn spec_named_key(text: Seq<char>) -> Option<KeyStroke> {
    if text == "<up>"@ {
        Some(KeyStroke::KeyUp)
    } else if text == "<down>"@ {
        Some(KeyStroke::KeyDown)
    } else if text == "<left>"@ {
        Some(KeyStroke::KeyLeft)
    } else if text == "<right>"@ {
        Some(KeyStroke::KeyRight)
    } else if text == "<page_up>"@ {
        Some(KeyStroke::KeyPreviousPage)
    } else if text == "<page_down>"@ {
        Some(KeyStroke::KeyNextPage)
    } else if text == "<home>"@ {
        Some(KeyStroke::KeyHome)
    } else if text == "<end>"@ {
        Some(KeyStroke::KeyEnd)
    } else if text == "<esc>"@ {
        Some(KeyStroke::KeyEscape)
    } else if text == "<enter>"@ {
        Some(KeyStroke::KeyEnter)
    } else if text == "<tab>"@ {
        Some(KeyStroke::KeyTab)
    } else if text == "<backspace>"@ {
        Some(KeyStroke::KeyBackSpace)
    } else if text == "<del>"@ {
        Some(KeyStroke::KeyDelete)
    } else {
        None
    }
}

/// The key that a description names, if it names one.
///
/// A description of exactly one printable character names that character's
/// key. Every other key is written as a lower-case name between angle
/// brackets. Nothing else is a description.
pub open spec fn spec_parse_description(text: Seq<char>) -> Option<KeyStroke> {
    if text.len() == 1 {
        if is_printable(text[0]) {
            Some(KeyStroke::Char(text[0]))
        } else {
            None
        }
    } else if spec_named_key(text) is Some {
        spec_named_key(text)
    } else {
        spec_function_key(text)
    }
}

/// Whether two texts hold the same characters.
pub(crate) fn same_text(a: &str, b: &str) -> (same: bool)
    ensures
        same == (a@ == b@),
{
    a.to_owned() == b.to_owned()
}

/// Whether `c` is a control character.
pub fn char_is_control(c: char) -> (control: bool)
    ensures
        control == is_control(c),
{
    c <= '\u{1f}' || ('\u{7f}' <= c && c <= '\u{9f}')
}

/// A key has one description only: two texts that name the same key are
/// the same text.
pub proof fn lemma_description_names_one_key(a: Seq<char>, b: Seq<char>)
    requires
        spec_parse_description(a) is Some,
        spec_parse_description(a) == spec_parse_description(b),
    ensures
        a == b,
{
    match spec_parse_description(a)->0 {
        KeyStroke::Char(c) => {
            assert(a.len() == 1 && b.len() == 1);
            assert(a =~= b);
        },
        KeyStroke::KeyF(n) => {
            assert(spec_function_key(a) == Some(KeyStroke::KeyF(n)));
            assert(spec_function_key(b) == Some(KeyStroke::KeyF(n)));
            assert(a.len() == b.len());
            assert(a =~= b);
        },
        _ => {},
    }
}

fn digit_of(c: char) -> (value: u8)
    requires
        '0' <= c <= '9',
    ensures
        value == digit_value(c),
{
    c as u8 - '0' as u8
}

fn named_key(text: &str) -> (key: Option<KeyStroke>)
    ensures
        key == spec_named_key(text@),
{
    if same_text(text, "<up>") {
        Some(KeyStroke::KeyUp)
    } else if same_text(text, "<down>") {
        Some(KeyStroke::KeyDown)
    } else if same_text(text, "<left>") {
        Some(KeyStroke::KeyLeft)
    } else if same_text(text, "<right>") {
        Some(KeyStroke::KeyRight)
    } else if same_text(text, "<page_up>") {
        Some(KeyStroke::KeyPreviousPage)
    } else if same_text(text, "<page_down>") {
        Some(KeyStroke::KeyNextPage)
    } else if same_text(text, "<home>") {
        Some(KeyStroke::KeyHome)
    } else if same_text(text, "<end>") {
        Some(KeyStroke::KeyEnd)
    } else if same_text(text, "<esc>") {
        Some(KeyStroke::KeyEscape)
    } else if same_text(text, "<enter>") {
        Some(KeyStroke::KeyEnter)
    } else if same_text(text, "<tab>") {
        Some(KeyStroke::KeyTab)
    } else if same_text(text, "<backspace>") {
        Some(KeyStroke::KeyBackSpace)
    } else if same_text(text, "<del>") {
        Some(KeyStroke::KeyDelete)
    } else {
        None
    }
}

fn function_key(text: &str, len: usize) -> (key: Option<KeyStroke>)
    requires
        len == text@.len(),
    ensures
        key == spec_function_key(text@),
{
    if len == 4 {
        let digit = text.get_char(2);
        if text.get_char(0) == '<' && text.get_char(1) == 'f' && '1' <= digit && digit <= '9'
            && text.get_char(3) == '>' {
            Some(KeyStroke::KeyF(digit_of(digit)))
        } else {
            None
        }
    } else if len == 5 {
        let digit = text.get_char(3);
        if text.get_char(0) == '<' && text.get_char(1) == 'f' && text.get_char(2) == '1' && '0'
            <= digit && digit <= '2' && text.get_char(4) == '>' {
            Some(KeyStroke::KeyF(10 + digit_of(digit)))
        } else {
            None
        }
    } else {
        None
    }
}

impl KeyStroke {
    /// Reads a key description. Fails on any text that is no description:
    /// nothing is guessed.
    pub fn parse_description(text: &str) -> (parsed: Result<KeyStroke, ParseError>)
        ensures
            match parsed {
                Ok(key) => spec_parse_description(text@) == Some(key),
                Err(_) => spec_parse_description(text@) is None,
            },
    {
        let len: usize = text.unicode_len();
        if len == 1 {
            let c = text.get_char(0);
            if char_is_control(c) {
                Err(ParseError)
            } else {
                Ok(KeyStroke::Char(c))
            }
        } else {
            match named_key(text) {
                Some(key) => Ok(key),
                None => match function_key(text, len) {
                    Some(key) => Ok(key),
                    None => Err(ParseError),
                },
            }
        }
    }

    /// A number that stands for this key: a character's code point, and
    /// numbers above every code point for the named keys.
    pub open spec fn spec_code(self) -> u64 {
        match self {
            KeyStroke::Char(c) => c as u64,
            KeyStroke::KeyUp => 0x11_0000,
            KeyStroke::KeyDown => 0x11_0001,
            KeyStroke::KeyLeft => 0x11_0002,
            KeyStroke::KeyRight => 0x11_0003,
            KeyStroke::KeyPreviousPage => 0x11_0004,
            KeyStroke::KeyNextPage => 0x11_0005,
            KeyStroke::KeyHome => 0x11_0006,
            KeyStroke::KeyEnd => 0x11_0007,
            KeyStroke::KeyEscape => 0x11_0008,
            KeyStroke::KeyEnter => 0x11_0009,
            KeyStroke::KeyTab => 0x11_000a,
            KeyStroke::KeyBackSpace => 0x11_000b,
            KeyStroke::KeyDelete => 0x11_000c,
            KeyStroke::KeyF(n) => (0x11_0100 + n) as u64,
        }
    }

    /// The number under which a table files this key.
    pub fn code(&self) -> (code: u64)
        ensures
            code == self.spec_code(),
    {
        match *self {
            KeyStroke::Char(c) => c as u64,
            KeyStroke::KeyUp => 0x11_0000,
            KeyStroke::KeyDown => 0x11_0001,
            KeyStroke::KeyLeft => 0x11_0002,
            KeyStroke::KeyRight => 0x11_0003,
            KeyStroke::KeyPreviousPage => 0x11_0004,
            KeyStroke::KeyNextPage => 0x11_0005,
            KeyStroke::KeyHome => 0x11_0006,
            KeyStroke::KeyEnd => 0x11_0007,
            KeyStroke::KeyEscape => 0x11_0008,
            KeyStroke::KeyEnter => 0x11_0009,
            KeyStroke::KeyTab => 0x11_000a,
            KeyStroke::KeyBackSpace => 0x11_000b,
            KeyStroke::KeyDelete => 0x11_000c,
            KeyStroke::KeyF(n) => 0x11_0100 + n as u64,
        }
    }

    /// Two keys have the same number only if they are the same key, so a
    /// table keyed by the number is a table keyed by the key.
    pub proof fn lemma_code_injective(a: KeyStroke, b: KeyStroke)
        ensures
            a.spec_code() == b.spec_code() <==> a == b,
    {
    }
}

} // verus!
