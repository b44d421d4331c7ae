//! What a key press asks of the supervisor, by the mode that the panel is
//! in and the bindings of the configuration.

use vstd::prelude::*;
use crate::config::{KeybindingConfig, KeybindingConfigView};
use crate::key::{is_bound, key_in, Key};
use crate::text::{chars_of, push_char, string_of};

verus! {

/// Something that the user asks of the supervisor.
#[derive(Debug, PartialEq, Eq)]
pub enum Command {
    Quit,
    Down,
    Up,
    Start,
    Stop,
    SwitchFocus,
    /// Begin typing a filter.
    FilterStart,
    /// End typing the filter.
    FilterDone,
    /// Replace the filter text, or remove the filter.
    FilterSet(Option<String>),
}

/// A [`Command`] with its text as a sequence of characters.
pub enum CommandView {
    Quit,
    Down,
    Up,
    Start,
    Stop,
    SwitchFocus,
    FilterStart,
    FilterDone,
    FilterSet(Option<Seq<char>>),
}

impl View for Command {
    type V = CommandView;

    open spec fn view(&self) -> CommandView {
        match self {
            Command::Quit => CommandView::Quit,
            Command::Down => CommandView::Down,
            Command::Up => CommandView::Up,
            Command::Start => CommandView::Start,
            Command::Stop => CommandView::Stop,
            Command::SwitchFocus => CommandView::SwitchFocus,
            Command::FilterStart => CommandView::FilterStart,
            Command::FilterDone => CommandView::FilterDone,
            Command::FilterSet(t) => CommandView::FilterSet(t.deep_view()),
        }
    }
}

impl DeepView for Command {
    type V = CommandView;

    open spec fn deep_view(&self) -> CommandView {
        self@
    }
}

/// How the keyboard is read.
#[derive(Clone, Copy, Debug, PartialEq, Eq, Structural)]
pub enum InputMode {
    /// Until the user quits: the reader waits for each key.
    Blocking,
    /// After the user has quit, while processes are still ending: the
    /// reader looks for a key from time to time, so that it can end as soon
    /// as the supervisor stops running.
    Polling,
}

/// What a key asks for while no filter is typed: the command of the first
/// action that the key is bound to, in the order quit, down, up, start, stop,
/// filter, switch focus.
pub open spec fn normal_mode_command(key: Key, keys: KeybindingConfigView) -> Option<CommandView> {
    if is_bound(keys.quit, key) {
        Some(CommandView::Quit)
    } else if is_bound(keys.down, key) {
        Some(CommandView::Down)
    } else if is_bound(keys.up, key) {
        Some(CommandView::Up)
    } else if is_bound(keys.start, key) {
        Some(CommandView::Start)
    } else if is_bound(keys.stop, key) {
        Some(CommandView::Stop)
    } else if is_bound(keys.filter, key) {
        Some(CommandView::FilterStart)
    } else if is_bound(keys.switch_focus, key) {
        Some(CommandView::SwitchFocus)
    } else {
        None
    }
}

/// What a key asks for while no filter is typed, and whether it is the
/// request to quit.
pub fn handle_normal_mode_keypresses(key: Key, keybinding: &KeybindingConfig) -> (r: (
    Option<Command>,
    bool,
))
    ensures
        r.0.deep_view() == normal_mode_command(key, keybinding@),
        r.1 == is_bound(keybinding@.quit, key),
{
    if key_in(&keybinding.quit, key) {
        (Some(Command::Quit), true)
    } else if key_in(&keybinding.down, key) {
        (Some(Command::Down), false)
    } else if key_in(&keybinding.up, key) {
        (Some(Command::Up), false)
    } else if key_in(&keybinding.start, key) {
        (Some(Command::Start), false)
    } else if key_in(&keybinding.stop, key) {
        (Some(Command::Stop), false)
    } else if key_in(&keybinding.filter, key) {
        (Some(Command::FilterStart), false)
    } else if key_in(&keybinding.switch_focus, key) {
        (Some(Command::SwitchFocus), false)
    } else {
        (None, false)
    }
}

/// A text without its last character, if it has one.
pub open spec fn without_last(s: Seq<char>) -> Seq<char> {
    if s.len() > 0 {
        s.drop_last()
    } else {
        s
    }
}

/// What a key asks for while a filter is typed: the submit key ends the
/// typing; the filter key removes the filter and ends the typing; backspace
/// removes the last character of a filter that is there; a character is put
/// at the end of the filter. Other keys ask for nothing.
pub open spec fn filter_mode_commands(
    key: Key,
    keys: KeybindingConfigView,
    filter_text: Option<Seq<char>>,
) -> Seq<CommandView> {
    if is_bound(keys.filter_submit, key) {
        seq![CommandView::FilterDone]
    } else if is_bound(keys.filter, key) {
        seq![CommandView::FilterSet(None), CommandView::FilterDone]
    } else if key == Key::Backspace {
        match filter_text {
            Some(t) => seq![CommandView::FilterSet(Some(without_last(t)))],
            None => Seq::<CommandView>::empty(),
        }
    } else if key is Char {
        seq![
            CommandView::FilterSet(
                Some(
                    (match filter_text {
                        Some(t) => t,
                        None => Seq::<char>::empty(),
                    }).push(key->Char_0),
                ),
            ),
        ]
    } else {
        Seq::<CommandView>::empty()
    }
}

/// What a key asks for while a filter is typed, as commands to be carried
/// out in their order.
pub fn handle_filter_entry_keypresses(
    key: Key,
    keybinding: &KeybindingConfig,
    filter_text: &Option<String>,
) -> (r: Vec<Command>)
    ensures
        r.deep_view() == filter_mode_commands(key, keybinding@, filter_text.deep_view()),
{
    let mut r: Vec<Command> = Vec::new();
    assert(r.deep_view() =~= Seq::<CommandView>::empty());
    if key_in(&keybinding.filter_submit, key) {
        r.push(Command::FilterDone);
        assert(r.deep_view() =~= seq![CommandView::FilterDone]);
    } else if key_in(&keybinding.filter, key) {
        r.push(Command::FilterSet(None));
        r.push(Command::FilterDone);
        assert(r.deep_view() =~= seq![CommandView::FilterSet(None), CommandView::FilterDone]);
    } else if key == Key::Backspace {
        match filter_text {
            Some(t) => {
                let mut chars = chars_of(t.as_str());
                if chars.len() > 0 {
                    chars.pop();
                }
                let shorter = string_of(&chars);
                assert(shorter@ =~= without_last(t@));
                r.push(Command::FilterSet(Some(shorter)));
                assert(r.deep_view() =~= seq![CommandView::FilterSet(Some(without_last(t@)))]);
            },
            None => {},
        }
    } else {
        match key {
            Key::Char(c) => {
                let mut new_filter_text = match filter_text {
                    Some(t) => t.clone(),
                    None => String::new(),
                };
                push_char(&mut new_filter_text, c);
                let ghost text = new_filter_text@;
                r.push(Command::FilterSet(Some(new_filter_text)));
                assert(r.deep_view() =~= seq![CommandView::FilterSet(Some(text))]);
            },
            _ => {},
        }
    }
    r
}

/// What a key asks for, and the mode in which the keyboard is read after it:
/// while a filter is typed the key goes to the filter; else it is a key of
/// the normal mode, and the request to quit ends the blocking mode.
pub open spec fn key_commands(
    mode: InputMode,
    entering_filter_text: bool,
    filter_text: Option<Seq<char>>,
    key: Key,
    keys: KeybindingConfigView,
) -> (Seq<CommandView>, InputMode) {
    if entering_filter_text {
        (filter_mode_commands(key, keys, filter_text), mode)
    } else {
        (
            match normal_mode_command(key, keys) {
                Some(c) => seq![c],
                None => Seq::<CommandView>::empty(),
            },
            if is_bound(keys.quit, key) {
                InputMode::Polling
            } else {
                mode
            },
        )
    }
}

/// One turn of the input loop: the commands that a key asks for, to be
/// carried out in their order, and the mode in which the next key is read.
pub fn input_loop(
    mode: InputMode,
    entering_filter_text: bool,
    filter_text: &Option<String>,
    key: Key,
    keybinding: &KeybindingConfig,
) -> (r: (Vec<Command>, InputMode))
    ensures
        (r.0.deep_view(), r.1) == key_commands(
            mode,
            entering_filter_text,
            filter_text.deep_view(),
            key,
            keybinding@,
        ),
{
    if entering_filter_text {
        (handle_filter_entry_keypresses(key, keybinding, filter_text), mode)
    } else {
        let (command, quit) = handle_normal_mode_keypresses(key, keybinding);
        let mut commands: Vec<Command> = Vec::new();
        assert(commands.deep_view() =~= Seq::<CommandView>::empty());
        match command {
            Some(c) => {
                let ghost cv = c@;
                commands.push(c);
                assert(commands.deep_view() =~= seq![cv]);
            },
            None => {},
        }
        let next = if quit {
            InputMode::Polling
        } else {
            mode
        };
        (commands, next)
    }
}

/// Whether the keyboard is to be read once more: in the blocking mode
/// always, in the polling mode for as long as the supervisor runs.
pub fn keeps_reading(mode: InputMode, running: bool) -> (r: bool)
    ensures
        r == (mode == InputMode::Blocking || running),
{
    match mode {
        InputMode::Blocking => true,
        InputMode::Polling => running,
    }
}

} // verus!
