//! The key-string normalizer: a raw key press (code plus modifier set)
//! becomes a canonical chord string such as `Ctrl+b`, the form the
//! keybinding tables are keyed by.

use vstd::prelude::*;
use crate::text::chars_of;

verus! {

/// A key code, as the editor models it once the terminal layer has
/// decoded the raw event. Keys the editor has no use for arrive as
/// [`KeyCode::Other`]; their chord never matches a binding, so they
/// are inert.
#[derive(Clone, Copy, PartialEq, Eq, Structural, Debug)]
pub enum KeyCode {
    Char(char),
    F(u8),
    Enter,
    Left,
    Right,
    Up,
    Down,
    Backspace,
    Delete,
    Home,
    End,
    PageUp,
    PageDown,
    Tab,
    BackTab,
    Insert,
    Esc,
    Other,
}

/// One key press: the code and the modifier set.
#[derive(Clone, Copy, PartialEq, Eq, Structural, Debug)]
pub struct KeyInput {
    pub code: KeyCode,
    pub ctrl: bool,
    pub alt: bool,
    pub shift: bool,
}

/// The character for one decimal digit.
pub open spec fn spec_digit(n: int) -> char {
    if n == 0 {
        '0'
    } else if n == 1 {
        '1'
    } else if n == 2 {
        '2'
    } else if n == 3 {
        '3'
    } else if n == 4 {
        '4'
    } else if n == 5 {
        '5'
    } else if n == 6 {
        '6'
    } else if n == 7 {
        '7'
    } else if n == 8 {
        '8'
    } else {
        '9'
    }
}

/// The decimal text of a byte, without leading zeroes.
pub open spec fn spec_dec(n: u8) -> Seq<char> {
    (if n >= 100 {
        seq![spec_digit(n as int / 100)]
    } else {
        Seq::<char>::empty()
    }) + (if n >= 10 {
        seq![spec_digit((n as int / 10) % 10)]
    } else {
        Seq::<char>::empty()
    }) + seq![spec_digit(n as int % 10)]
}

/// The canonical text of a key code, without modifiers.
pub open spec fn spec_code_text(code: KeyCode) -> Seq<char> {
    match code {
        KeyCode::Char(c) => seq![c],
        KeyCode::F(n) => seq!['F'] + spec_dec(n),
        KeyCode::Enter => "Enter"@,
        KeyCode::Left => "Left"@,
        KeyCode::Right => "Right"@,
        KeyCode::Up => "Up"@,
        KeyCode::Down => "Down"@,
        KeyCode::Backspace => "Backspace"@,
        KeyCode::Delete => "Delete"@,
        KeyCode::Home => "Home"@,
        KeyCode::End => "End"@,
        KeyCode::PageUp => "PageUp"@,
        KeyCode::PageDown => "PageDown"@,
        KeyCode::Tab => "Tab"@,
        KeyCode::BackTab => "BackTab"@,
        KeyCode::Insert => "Insert"@,
        KeyCode::Esc => "Esc"@,
        KeyCode::Other => "Other"@,
    }
}

/// The canonical chord of a key press: `Ctrl+`, `Alt+` and `Shift+`
/// prefixes in that order, then the key's own text.
pub open spec fn spec_chord_of(k: KeyInput) -> Seq<char> {
    (if k.ctrl {
        "Ctrl+"@
    } else {
        Seq::<char>::empty()
    }) + (if k.alt {
        "Alt+"@
    } else {
        Seq::<char>::empty()
    }) + (if k.shift {
        "Shift+"@
    } else {
        Seq::<char>::empty()
    }) + spec_code_text(k.code)
}

/// One decimal digit as a character.
fn digit_char(n: u8) -> (c: char)
    requires
        n < 10,
    ensures
        c == spec_digit(n as int),
{
    if n == 0 {
        '0'
    } else if n == 1 {
        '1'
    } else if n == 2 {
        '2'
    } else if n == 3 {
        '3'
    } else if n == 4 {
        '4'
    } else if n == 5 {
        '5'
    } else if n == 6 {
        '6'
    } else if n == 7 {
        '7'
    } else if n == 8 {
        '8'
    } else {
        '9'
    }
}

/// Append the characters of a literal to a chord under construction.
fn append_text(r: &mut Vec<char>, s: &str)
    ensures
        final(r)@ == old(r)@ + s@,
{
    let mut p = chars_of(s);
    r.append(&mut p);
}

/// Normalize one key press into its canonical chord string.
pub fn key_event_to_string(key: KeyInput) -> (r: Vec<char>)
    ensures
        r@ == spec_chord_of(key),
{
    let mut r: Vec<char> = Vec::new();
    if key.ctrl {
        append_text(&mut r, "Ctrl+");
    }
    if key.alt {
        append_text(&mut r, "Alt+");
    }
    if key.shift {
        append_text(&mut r, "Shift+");
    }
    match key.code {
        KeyCode::Char(c) => {
            r.push(c);
        },
        KeyCode::F(n) => {
            r.push('F');
            if n >= 100 {
                r.push(digit_char(n / 100));
            }
            if n >= 10 {
                r.push(digit_char((n / 10) % 10));
            }
            r.push(digit_char(n % 10));
        },
        KeyCode::Enter => {
            append_text(&mut r, "Enter");
        },
        KeyCode::Left => {
            append_text(&mut r, "Left");
        },
        KeyCode::Right => {
            append_text(&mut r, "Right");
        },
        KeyCode::Up => {
            append_text(&mut r, "Up");
        },
        KeyCode::Down => {
            append_text(&mut r, "Down");
        },
        KeyCode::Backspace => {
            append_text(&mut r, "Backspace");
        },
        KeyCode::Delete => {
            append_text(&mut r, "Delete");
        },
        KeyCode::Home => {
            append_text(&mut r, "Home");
        },
        KeyCode::End => {
            append_text(&mut r, "End");
        },
        KeyCode::PageUp => {
            append_text(&mut r, "PageUp");
        },
        KeyCode::PageDown => {
            append_text(&mut r, "PageDown");
        },
        KeyCode::Tab => {
            append_text(&mut r, "Tab");
        },
        KeyCode::BackTab => {
            append_text(&mut r, "BackTab");
        },
        KeyCode::Insert => {
            append_text(&mut r, "Insert");
        },
        KeyCode::Esc => {
            append_text(&mut r, "Esc");
        },
        KeyCode::Other => {
            append_text(&mut r, "Other");
        },
    }
    proof {
        assert(r@ =~= spec_chord_of(key));
    }
    r
}

} // verus!
