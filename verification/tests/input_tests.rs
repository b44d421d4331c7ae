use proctmux::config::{default_keybinding, KeybindingConfig};
use proctmux::input::{
    handle_filter_entry_keypresses, handle_normal_mode_keypresses, input_loop, keeps_reading,
    Command, InputMode,
};
use proctmux::key::Key;

#[test]
fn normal_mode_keys_give_their_commands() {
    let keys = default_keybinding();
    assert_eq!(handle_normal_mode_keypresses(Key::Char('q'), &keys), (Some(Command::Quit), true));
    assert_eq!(handle_normal_mode_keypresses(Key::Char('j'), &keys), (Some(Command::Down), false));
    assert_eq!(handle_normal_mode_keypresses(Key::Down, &keys), (Some(Command::Down), false));
    assert_eq!(handle_normal_mode_keypresses(Key::Char('k'), &keys), (Some(Command::Up), false));
    assert_eq!(handle_normal_mode_keypresses(Key::Up, &keys), (Some(Command::Up), false));
    assert_eq!(handle_normal_mode_keypresses(Key::Char('s'), &keys), (Some(Command::Start), false));
    assert_eq!(handle_normal_mode_keypresses(Key::Char('x'), &keys), (Some(Command::Stop), false));
    assert_eq!(
        handle_normal_mode_keypresses(Key::Char('/'), &keys),
        (Some(Command::FilterStart), false)
    );
    assert_eq!(
        handle_normal_mode_keypresses(Key::Ctrl('w'), &keys),
        (Some(Command::SwitchFocus), false)
    );
    assert_eq!(handle_normal_mode_keypresses(Key::Char('z'), &keys), (None, false));
    assert_eq!(handle_normal_mode_keypresses(Key::Char('\n'), &keys), (None, false));
    assert_eq!(handle_normal_mode_keypresses(Key::Esc, &keys), (None, false));
}

#[test]
fn the_first_action_bound_to_a_key_wins() {
    let keys = KeybindingConfig {
        quit: vec![Key::Char('a')],
        start: vec![Key::Char('b')],
        stop: vec![Key::Char('b'), Key::Char('c')],
        up: vec![Key::Char('a'), Key::Char('d')],
        down: vec![Key::Char('d')],
        filter: vec![Key::Char('c')],
        filter_submit: vec![Key::Char('a')],
        switch_focus: vec![Key::Char('b'), Key::Char('e')],
    };
    assert_eq!(handle_normal_mode_keypresses(Key::Char('a'), &keys), (Some(Command::Quit), true));
    assert_eq!(handle_normal_mode_keypresses(Key::Char('b'), &keys), (Some(Command::Start), false));
    assert_eq!(handle_normal_mode_keypresses(Key::Char('c'), &keys), (Some(Command::Stop), false));
    assert_eq!(handle_normal_mode_keypresses(Key::Char('d'), &keys), (Some(Command::Down), false));
    assert_eq!(
        handle_normal_mode_keypresses(Key::Char('e'), &keys),
        (Some(Command::SwitchFocus), false)
    );
}

#[test]
fn filter_mode_keys_edit_the_filter() {
    let keys = default_keybinding();
    let text = Some("ab".to_string());
    assert_eq!(
        handle_filter_entry_keypresses(Key::Char('\n'), &keys, &text),
        vec![Command::FilterDone]
    );
    assert_eq!(
        handle_filter_entry_keypresses(Key::Char('/'), &keys, &text),
        vec![Command::FilterSet(None), Command::FilterDone]
    );
    assert_eq!(
        handle_filter_entry_keypresses(Key::Backspace, &keys, &text),
        vec![Command::FilterSet(Some("a".to_string()))]
    );
    assert_eq!(
        handle_filter_entry_keypresses(Key::Backspace, &keys, &Some("é".to_string())),
        vec![Command::FilterSet(Some("".to_string()))]
    );
    assert_eq!(
        handle_filter_entry_keypresses(Key::Backspace, &keys, &Some("".to_string())),
        vec![Command::FilterSet(Some("".to_string()))]
    );
    assert_eq!(handle_filter_entry_keypresses(Key::Backspace, &keys, &None), vec![]);
    assert_eq!(
        handle_filter_entry_keypresses(Key::Char('c'), &keys, &text),
        vec![Command::FilterSet(Some("abc".to_string()))]
    );
    assert_eq!(
        handle_filter_entry_keypresses(Key::Char('q'), &keys, &None),
        vec![Command::FilterSet(Some("q".to_string()))]
    );
    assert_eq!(handle_filter_entry_keypresses(Key::Up, &keys, &text), vec![]);
    assert_eq!(handle_filter_entry_keypresses(Key::Ctrl('w'), &keys, &text), vec![]);
    assert_eq!(handle_filter_entry_keypresses(Key::Esc, &keys, &text), vec![]);
}

#[test]
fn the_input_loop_goes_by_the_mode_of_the_panel() {
    let keys = default_keybinding();
    assert_eq!(
        input_loop(InputMode::Blocking, false, &None, Key::Char('j'), &keys),
        (vec![Command::Down], InputMode::Blocking)
    );
    assert_eq!(
        input_loop(InputMode::Blocking, true, &None, Key::Char('j'), &keys),
        (vec![Command::FilterSet(Some("j".to_string()))], InputMode::Blocking)
    );
    assert_eq!(
        input_loop(InputMode::Blocking, false, &None, Key::Char('q'), &keys),
        (vec![Command::Quit], InputMode::Polling)
    );
    assert_eq!(
        input_loop(InputMode::Blocking, true, &Some("x".to_string()), Key::Char('q'), &keys),
        (vec![Command::FilterSet(Some("xq".to_string()))], InputMode::Blocking)
    );
    assert_eq!(
        input_loop(InputMode::Polling, false, &None, Key::Char('q'), &keys),
        (vec![Command::Quit], InputMode::Polling)
    );
    assert_eq!(
        input_loop(InputMode::Polling, false, &None, Key::Char('s'), &keys),
        (vec![Command::Start], InputMode::Polling)
    );
    assert_eq!(
        input_loop(InputMode::Blocking, false, &None, Key::Home, &keys),
        (vec![], InputMode::Blocking)
    );
}

#[test]
fn polling_ends_when_the_supervisor_stops() {
    assert!(keeps_reading(InputMode::Blocking, true));
    assert!(keeps_reading(InputMode::Blocking, false));
    assert!(keeps_reading(InputMode::Polling, true));
    assert!(!keeps_reading(InputMode::Polling, false));
}
