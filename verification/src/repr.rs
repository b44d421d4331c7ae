//! How keys and process states are shown to the user.

use vstd::prelude::*;
pub use crate::color::color_from_config_string;
use crate::color::{color_of, Color};
use crate::config::StyleConfigView;
use crate::frame::{plain_segment, ColoredSegment, ColoredSegmentView};
use crate::key::Key;
use crate::process::{Process, ProcessStatus};
use crate::state::State;
use crate::text::{copy_str, decimal_digits, decimal_of, push_char, string_of};

verus! {

/// The color that a configuration string stands for, or `fallback` if it
/// stands for none.
pub open spec fn color_or(s: Seq<char>, fallback: Color) -> Color {
    match color_of(s) {
        Some(c) => c,
        None => fallback,
    }
}

/// Reads a color of the configuration, with a color to fall back on.
pub fn color_or_default(s: &str, fallback: Color) -> (c: Color)
    ensures
        c == color_or(s@, fallback),
{
    match color_from_config_string(s) {
        Ok(c) => c,
        Err(_) => fallback,
    }
}

/// The glyph of a process's status in the color that the style gives it: an
/// arrow up for a running process, an arrow down for the others.
pub open spec fn status_segment(
    style: StyleConfigView,
    status: ProcessStatus,
) -> ColoredSegmentView {
    match status {
        ProcessStatus::Running => plain_segment(
            color_or(style.status_running_color, Color::Green),
            " ▲"@,
        ),
        ProcessStatus::Halting => plain_segment(
            color_or(style.status_halting_color, Color::Yellow),
            " ▼"@,
        ),
        ProcessStatus::Halted => plain_segment(
            color_or(style.status_stopped_color, Color::Red),
            " ▼"@,
        ),
    }
}

/// The colored glyph that stands before a process's label.
pub fn get_status_arrow_and_color(state: &State, process: &Process) -> (r: ColoredSegment)
    ensures
        r@ == status_segment(state@.config.style, process@.status),
{
    match process.status {
        ProcessStatus::Running => {
            let fg = color_or_default(
                state.config.style.status_running_color.as_str(),
                Color::Green,
            );
            ColoredSegment::new_basic(fg, copy_str(" ▲"))
        },
        ProcessStatus::Halting => {
            let fg = color_or_default(
                state.config.style.status_halting_color.as_str(),
                Color::Yellow,
            );
            ColoredSegment::new_basic(fg, copy_str(" ▼"))
        },
        ProcessStatus::Halted => {
            let fg = color_or_default(state.config.style.status_stopped_color.as_str(), Color::Red);
            ColoredSegment::new_basic(fg, copy_str(" ▼"))
        },
    }
}

/// A character as the help text shows it: the newline as a return arrow.
pub open spec fn printable(c: char) -> char {
    if c == '\n' {
        '↵'
    } else {
        c
    }
}

/// The text that stands for a key in the help text.
pub open spec fn key_text(key: Key) -> Seq<char> {
    match key {
        Key::Char(c) => seq![printable(c)],
        Key::Alt(c) => "⎇-"@.push(printable(c)),
        Key::Ctrl(c) => "^-"@.push(printable(c)),
        Key::Left => "←"@,
        Key::Right => "→"@,
        Key::Up => "↑"@,
        Key::Down => "↓"@,
        Key::Backspace => "⎵"@,
        Key::Delete => "⌫"@,
        Key::End => "end"@,
        Key::Esc => "esc"@,
        Key::F(i) => "fn-"@ + decimal_digits(i as nat),
        Key::Home => "home"@,
        Key::Insert => "ins"@,
        Key::Null => "null"@,
        Key::PageDown => "pgdn"@,
        Key::PageUp => "pgup"@,
        Key::BackTab => "backtab"@,
    }
}

/// The texts of the keys with a comma and a space between them.
pub open spec fn keys_text(keys: Seq<Key>) -> Seq<char>
    decreases keys.len(),
{
    if keys.len() == 0 {
        Seq::<char>::empty()
    } else if keys.len() == 1 {
        key_text(keys[0])
    } else {
        keys_text(keys.drop_last()) + ", "@ + key_text(keys.last())
    }
}

/// The help text of an action: its keys between angle brackets, then its
/// name.
pub open spec fn help_text(keys: Seq<Key>, label: Seq<char>) -> Seq<char> {
    "<"@ + keys_text(keys) + "> "@ + label
}

fn to_printable_char(c: char) -> (r: char)
    ensures
        r == printable(c),
{
    if c == '\n' {
        '↵'
    } else {
        c
    }
}

/// The text that stands for a key in the help text.
pub fn key_to_str(key: &Key) -> (r: String)
    ensures
        r@ == key_text(*key),
{
    match key {
        Key::Char(c) => {
            let mut s = String::new();
            push_char(&mut s, to_printable_char(*c));
            assert(s@ =~= seq![printable(*c)]);
            s
        },
        Key::Alt(c) => {
            let mut s = copy_str("⎇-");
            push_char(&mut s, to_printable_char(*c));
            s
        },
        Key::Ctrl(c) => {
            let mut s = copy_str("^-");
            push_char(&mut s, to_printable_char(*c));
            s
        },
        Key::Left => copy_str("←"),
        Key::Right => copy_str("→"),
        Key::Up => copy_str("↑"),
        Key::Down => copy_str("↓"),
        Key::Backspace => copy_str("⎵"),
        Key::Delete => copy_str("⌫"),
        Key::End => copy_str("end"),
        Key::Esc => copy_str("esc"),
        Key::F(i) => {
            let mut s = copy_str("fn-");
            let digits = string_of(&decimal_of(*i as usize));
            s.append(digits.as_str());
            s
        },
        Key::Home => copy_str("home"),
        Key::Insert => copy_str("ins"),
        Key::Null => copy_str("null"),
        Key::PageDown => copy_str("pgdn"),
        Key::PageUp => copy_str("pgup"),
        Key::BackTab => copy_str("backtab"),
    }
}

/// The texts of the keys with a comma and a space between them.
pub fn keys_to_str(keys: &[Key]) -> (r: String)
    ensures
        r@ == keys_text(keys@),
{
    let mut r = String::new();
    let mut i: usize = 0;
    assert(keys@.take(0) =~= Seq::<Key>::empty());
    while i < keys.len()
        invariant
            i <= keys.len(),
            r@ == keys_text(keys@.take(i as int)),
        decreases keys.len() - i,
    {
        let ghost upto = keys@.take(i + 1);
        assert(upto.drop_last() =~= keys@.take(i as int));
        assert(upto.last() == keys@[i as int]);
        let one = key_to_str(&keys[i]);
        if i > 0 {
            r.append(", ");
        } else {
            assert(upto[0] == keys@[0]);
            assert(r@ + one@ =~= one@);
        }
        r.append(one.as_str());
        i += 1;
    }
    assert(keys@.take(keys.len() as int) =~= keys@);
    r
}

/// The help text of an action: its keys between angle brackets, then its
/// name.
pub fn keybinding_help(keys: &[Key], label: &str) -> (r: String)
    ensures
        r@ == help_text(keys@, label@),
{
    let mut r = copy_str("<");
    let k = keys_to_str(keys);
    r.append(k.as_str());
    r.append("> ");
    r.append(label);
    r
}

} // verus!
