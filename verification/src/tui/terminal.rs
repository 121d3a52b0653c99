//! The embedded terminal: what a key press sends to the shell.

use vstd::prelude::*;
use crate::text::string_from_chars;
use crate::tui::input::{KeyCode, KeyEvent, CONTROL};

verus! {

/// A letter of the ASCII alphabet, either case.
pub open spec fn is_ascii_letter(c: char) -> bool {
    ('a' <= c && c <= 'z') || ('A' <= c && c <= 'Z')
}

/// The control byte of an ASCII letter: 1 for `a` or `A`, up to 26.
pub open spec fn control_byte(c: char) -> u8 {
    if 'a' <= c && c <= 'z' {
        ((c as u32) - ('a' as u32) + 1) as u8
    } else {
        ((c as u32) - ('A' as u32) + 1) as u8
    }
}

/// The bytes a terminal sends for `key`: Ctrl with a letter gives its
/// control byte, a character its UTF-8 encoding, the editing and cursor
/// keys their usual control or escape sequences; other keys send nothing.
pub open spec fn key_bytes(key: KeyEvent) -> Seq<u8> {
    if key.ctrl() && (key.code matches KeyCode::Char(c) && is_ascii_letter(c)) {
        seq![control_byte(key.code->Char_0)]
    } else {
        match key.code {
            KeyCode::Char(c) => vstd::utf8::encode_utf8(seq![c]),
            KeyCode::Enter => seq![13u8],
            KeyCode::Backspace => seq![0x7fu8],
            KeyCode::Tab => seq![9u8],
            KeyCode::Esc => seq![0x1bu8],
            KeyCode::Up => seq![0x1bu8, 0x5bu8, 0x41u8],
            KeyCode::Down => seq![0x1bu8, 0x5bu8, 0x42u8],
            KeyCode::Right => seq![0x1bu8, 0x5bu8, 0x43u8],
            KeyCode::Left => seq![0x1bu8, 0x5bu8, 0x44u8],
            KeyCode::Home => seq![0x1bu8, 0x5bu8, 0x48u8],
            KeyCode::End => seq![0x1bu8, 0x5bu8, 0x46u8],
            KeyCode::Delete => seq![0x1bu8, 0x5bu8, 0x33u8, 0x7eu8],
            KeyCode::PageUp => seq![0x1bu8, 0x5bu8, 0x35u8, 0x7eu8],
            KeyCode::PageDown => seq![0x1bu8, 0x5bu8, 0x36u8, 0x7eu8],
            KeyCode::BackTab => seq![0x1bu8, 0x5bu8, 0x5au8],
            _ => Seq::empty(),
        }
    }
}

/// The UTF-8 encoding of `c`.
fn char_bytes(c: char) -> (r: Vec<u8>)
    ensures
        r@ == vstd::utf8::encode_utf8(seq![c]),
{
    let cs = [c];
    let s = string_from_chars(&cs);
    proof {
        assert(cs@ =~= seq![c]);
    }
    let b = s.as_str().as_bytes();
    let mut r: Vec<u8> = Vec::new();
    for i in 0..b.len()
        invariant
            r@ == b@.take(i as int),
    {
        r.push(b[i]);
        proof {
            assert(b@.take(i + 1) =~= b@.take(i as int).push(b@[i as int]));
        }
    }
    proof {
        assert(b@.take(b@.len() as int) =~= b@);
    }
    r
}

/// Converts a key press to the byte sequence the terminal's shell expects.
pub fn key_to_bytes(key: KeyEvent) -> (r: Vec<u8>)
    ensures
        r@ == key_bytes(key),
{
    if key.modifiers & CONTROL != 0 {
        if let KeyCode::Char(c) = key.code {
            if 'a' <= c && c <= 'z' {
                let b = (c as u32 - 'a' as u32 + 1) as u8;
                return vec![b];
            }
            if 'A' <= c && c <= 'Z' {
                let b = (c as u32 - 'A' as u32 + 1) as u8;
                return vec![b];
            }
        }
    }
    match key.code {
        KeyCode::Char(c) => char_bytes(c),
        KeyCode::Enter => vec![13u8],
        KeyCode::Backspace => vec![0x7fu8],
        KeyCode::Tab => vec![9u8],
        KeyCode::Esc => vec![0x1bu8],
        KeyCode::Up => vec![0x1bu8, 0x5bu8, 0x41u8],
        KeyCode::Down => vec![0x1bu8, 0x5bu8, 0x42u8],
        KeyCode::Right => vec![0x1bu8, 0x5bu8, 0x43u8],
        KeyCode::Left => vec![0x1bu8, 0x5bu8, 0x44u8],
        KeyCode::Home => vec![0x1bu8, 0x5bu8, 0x48u8],
        KeyCode::End => vec![0x1bu8, 0x5bu8, 0x46u8],
        KeyCode::Delete => vec![0x1bu8, 0x5bu8, 0x33u8, 0x7eu8],
        KeyCode::PageUp => vec![0x1bu8, 0x5bu8, 0x35u8, 0x7eu8],
        KeyCode::PageDown => vec![0x1bu8, 0x5bu8, 0x36u8, 0x7eu8],
        KeyCode::BackTab => vec![0x1bu8, 0x5bu8, 0x5au8],
        _ => Vec::new(),
    }
}

} // verus!
