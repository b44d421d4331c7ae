//! Keys of the keyboard, and how the configuration and the help text write
//! them.

use vstd::prelude::*;
use crate::text::{chars_of, has_prefix, is_text, lowercase, starts_with, to_lower};

verus! {

/// A key press.
#[derive(Clone, Copy, Debug, PartialEq, Eq, Structural)]
pub enum Key {
    Backspace,
    Left,
    Right,
    Up,
    Down,
    Home,
    End,
    PageUp,
    PageDown,
    BackTab,
    Delete,
    Insert,
    /// A function key, by its number.
    F(u8),
    /// A character key.
    Char(char),
    /// A character key pressed with Alt.
    Alt(char),
    /// A character key pressed with Ctrl.
    Ctrl(char),
    Null,
    Esc,
}

/// The key that a literal of the configuration stands for, given the literal
/// in lowercase: `enter`, `esc`, `up`, `down`, `left`, `right` in any case,
/// `a-X` and `c-X` for a character `X` pressed with Alt or Ctrl, or a single
/// character.
pub open spec fn key_of_lowered(s: Seq<char>, l: Seq<char>) -> Option<Key> {
    if l == "enter"@ {
        Some(Key::Char('\n'))
    } else if l == "esc"@ {
        Some(Key::Esc)
    } else if l == "up"@ {
        Some(Key::Up)
    } else if l == "down"@ {
        Some(Key::Down)
    } else if l == "left"@ {
        Some(Key::Left)
    } else if l == "right"@ {
        Some(Key::Right)
    } else if has_prefix(l, "a-"@) && s.len() == 3 {
        Some(Key::Alt(s[2]))
    } else if has_prefix(l, "c-"@) && s.len() == 3 {
        Some(Key::Ctrl(s[2]))
    } else if s.len() == 1 {
        Some(Key::Char(s[0]))
    } else {
        None
    }
}

/// The key that a literal of the configuration stands for.
pub open spec fn key_of(s: Seq<char>) -> Option<Key> {
    key_of_lowered(s, lowercase(s))
}

/// Reads one key literal of the configuration, given the literal in
/// lowercase too.
pub fn key_from_lowercase(literal: &Vec<char>, lowered: &Vec<char>) -> (r: Option<Key>)
    ensures
        r == key_of_lowered(literal@, lowered@),
{
    let s = literal;
    let l = lowered;
    if is_text(l, "enter") {
        Some(Key::Char('\n'))
    } else if is_text(l, "esc") {
        Some(Key::Esc)
    } else if is_text(l, "up") {
        Some(Key::Up)
    } else if is_text(l, "down") {
        Some(Key::Down)
    } else if is_text(l, "left") {
        Some(Key::Left)
    } else if is_text(l, "right") {
        Some(Key::Right)
    } else if starts_with(l, &chars_of("a-")) && s.len() == 3 {
        Some(Key::Alt(s[2]))
    } else if starts_with(l, &chars_of("c-")) && s.len() == 3 {
        Some(Key::Ctrl(s[2]))
    } else if s.len() == 1 {
        Some(Key::Char(s[0]))
    } else {
        None
    }
}

/// Reads one key literal of the configuration.
pub fn parse_key(literal: &str) -> (r: Option<Key>)
    ensures
        r == key_of(literal@),
{
    let s = chars_of(literal);
    let low = to_lower(literal);
    let l = chars_of(low.as_str());
    key_from_lowercase(&s, &l)
}

/// Whether `key` is one of `keys`.
pub open spec fn is_bound(keys: Seq<Key>, key: Key) -> bool {
    keys.contains(key)
}

/// Whether `key` is one of `keys`.
pub fn key_in(keys: &Vec<Key>, key: Key) -> (r: bool)
    ensures
        r == is_bound(keys@, key),
{
    let mut i: usize = 0;
    while i < keys.len()
        invariant
            i <= keys.len(),
            forall|k: int| 0 <= k < i ==> keys@[k] != key,
        decreases keys.len() - i,
    {
        if keys[i] == key {
            return true;
        }
        i += 1;
    }
    false
}

} // verus!
