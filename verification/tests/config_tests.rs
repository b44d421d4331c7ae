use proctmux::config::{
    clone_keys, clone_optional_string, clone_optional_strings, clone_strings, default_autofocus,
    default_autostart, default_category_search_prefix, default_detached_session_name,
    default_down_keybinding, default_filter_keybinding, default_filter_submit_keybinding,
    default_general, default_hide_help, default_hide_process_description_panel,
    default_keybinding, default_kill_existing_session, default_kill_signal, default_layout,
    default_pointer_char, default_process_list_width, default_quit_keybinding,
    default_selected_process_bg_color, default_selected_process_color,
    default_sort_process_list_alpha, default_start_keybinding, default_status_halting_color,
    default_status_running_color, default_status_stopped_color, default_stop_keybinding,
    default_style, default_switch_focus_submit_keybinding, default_unselected_process_color,
    default_up_keybinding, parse_keybinding, parse_kill_signal, GeneralConfig, LayoutConfig,
    ProcTmuxConfig, ProcessConfig, StyleConfig,
};
use proctmux::error::Error;
use proctmux::key::{key_from_lowercase, key_in, parse_key, Key};

fn config_proc(shell: Option<&str>, cmd: Option<Vec<&str>>) -> ProcessConfig {
    ProcessConfig {
        autostart: false,
        autofocus: false,
        shell: shell.map(|s| s.to_string()),
        cmd: cmd.map(|v| v.into_iter().map(|s| s.to_string()).collect()),
        cwd: "/tmp".to_string(),
        stop: 9,
        env: None,
        add_path: None,
        description: None,
        docs: None,
        categories: None,
        meta_tags: None,
    }
}

#[test]
fn key_literals_are_read() {
    assert_eq!(parse_key("enter"), Some(Key::Char('\n')));
    assert_eq!(parse_key("Enter"), Some(Key::Char('\n')));
    assert_eq!(parse_key("ESC"), Some(Key::Esc));
    assert_eq!(parse_key("up"), Some(Key::Up));
    assert_eq!(parse_key("down"), Some(Key::Down));
    assert_eq!(parse_key("left"), Some(Key::Left));
    assert_eq!(parse_key("right"), Some(Key::Right));
    assert_eq!(parse_key("a-x"), Some(Key::Alt('x')));
    assert_eq!(parse_key("A-X"), Some(Key::Alt('X')));
    assert_eq!(parse_key("c-w"), Some(Key::Ctrl('w')));
    assert_eq!(parse_key("q"), Some(Key::Char('q')));
    assert_eq!(parse_key("/"), Some(Key::Char('/')));
    assert_eq!(parse_key("Q"), Some(Key::Char('Q')));
    assert_eq!(parse_key("é"), Some(Key::Char('é')));
}

#[test]
fn strings_that_are_no_key_literals() {
    assert_eq!(parse_key(""), None);
    assert_eq!(parse_key("ab"), None);
    assert_eq!(parse_key("a-"), None);
    assert_eq!(parse_key("a-xy"), None);
    assert_eq!(parse_key("c-"), None);
    assert_eq!(parse_key("escape"), None);
    assert_eq!(parse_key("x-y"), None);
}

#[test]
fn key_literals_go_by_their_lowercase_form() {
    let cs = |s: &str| -> Vec<char> { s.chars().collect() };
    assert_eq!(key_from_lowercase(&cs("ENTER"), &cs("enter")), Some(Key::Char('\n')));
    assert_eq!(key_from_lowercase(&cs("ENTER"), &cs("ENTER")), None);
    assert_eq!(key_from_lowercase(&cs("A-X"), &cs("a-x")), Some(Key::Alt('X')));
    assert_eq!(key_from_lowercase(&cs("A-X"), &cs("A-X")), None);
    assert_eq!(key_from_lowercase(&cs("C-w"), &cs("c-w")), Some(Key::Ctrl('w')));
    assert_eq!(key_from_lowercase(&cs("Q"), &cs("q")), Some(Key::Char('Q')));
    assert_eq!(key_from_lowercase(&cs(""), &cs("")), None);
}

#[test]
fn keybinding_lists_are_read() {
    let literals = vec!["k".to_string(), "up".to_string(), "c-p".to_string()];
    assert_eq!(parse_keybinding(&literals), Ok(vec![Key::Char('k'), Key::Up, Key::Ctrl('p')]));
    assert_eq!(parse_keybinding(&vec![]), Ok(vec![]));
}

#[test]
fn keybinding_error_names_the_first_bad_literal() {
    let literals = vec!["k".to_string(), "nope".to_string(), "also bad".to_string()];
    assert_eq!(
        parse_keybinding(&literals),
        Err(Error::Config("Could not deserialize key: nope".to_string()))
    );
}

#[test]
fn stop_signals_are_read() {
    assert_eq!(parse_kill_signal("SIGKILL"), Ok(libc::SIGKILL));
    assert_eq!(parse_kill_signal("SIGINT"), Ok(libc::SIGINT));
    assert_eq!(parse_kill_signal("SIGTERM"), Ok(libc::SIGTERM));
    assert_eq!(parse_kill_signal("SIGKILL"), Ok(9));
    assert_eq!(parse_kill_signal("SIGINT"), Ok(2));
    assert_eq!(parse_kill_signal("SIGTERM"), Ok(15));
    assert_eq!(default_kill_signal(), libc::SIGKILL);
}

#[test]
fn unknown_stop_signal_is_a_config_error() {
    assert_eq!(
        parse_kill_signal("SIGHUP"),
        Err(Error::Config("Could not deserialize kill signal: SIGHUP".to_string()))
    );
    assert_eq!(
        parse_kill_signal("sigkill"),
        Err(Error::Config("Could not deserialize kill signal: sigkill".to_string()))
    );
}

#[test]
fn defaults_of_the_configuration() {
    assert!(!default_autostart());
    assert!(!default_autofocus());
    assert_eq!(default_detached_session_name(), "proctmux");
    assert!(!default_kill_existing_session());
    assert!(!default_hide_help());
    assert!(!default_hide_process_description_panel());
    assert_eq!(default_process_list_width(), 31);
    assert!(default_sort_process_list_alpha());
    assert_eq!(default_category_search_prefix(), "cat:");
    assert_eq!(default_selected_process_color(), "ansiblack");
    assert_eq!(default_selected_process_bg_color(), "ansimagenta");
    assert_eq!(default_unselected_process_color(), "ansiblue");
    assert_eq!(default_status_running_color(), "ansigreen");
    assert_eq!(default_status_stopped_color(), "ansired");
    assert_eq!(default_status_halting_color(), "ansiyellow");
    assert_eq!(default_pointer_char(), "▶");
    assert_eq!(
        default_general(),
        GeneralConfig { detached_session_name: "proctmux".to_string(), kill_existing_session: false }
    );
    assert_eq!(
        default_layout(),
        LayoutConfig {
            hide_help: false,
            hide_process_description_panel: false,
            process_list_width: 31,
            sort_process_list_alpha: true,
            category_search_prefix: "cat:".to_string(),
        }
    );
    assert_eq!(
        default_style(),
        StyleConfig {
            selected_process_color: "ansiblack".to_string(),
            selected_process_bg_color: "ansimagenta".to_string(),
            unselected_process_color: "ansiblue".to_string(),
            status_running_color: "ansigreen".to_string(),
            status_stopped_color: "ansired".to_string(),
            status_halting_color: "ansiyellow".to_string(),
            pointer_char: "▶".to_string(),
        }
    );
}

#[test]
fn default_keybindings() {
    assert_eq!(default_quit_keybinding(), vec![Key::Char('q')]);
    assert_eq!(default_start_keybinding(), vec![Key::Char('s')]);
    assert_eq!(default_stop_keybinding(), vec![Key::Char('x')]);
    assert_eq!(default_up_keybinding(), vec![Key::Char('k'), Key::Up]);
    assert_eq!(default_down_keybinding(), vec![Key::Char('j'), Key::Down]);
    assert_eq!(default_filter_keybinding(), vec![Key::Char('/')]);
    assert_eq!(default_filter_submit_keybinding(), vec![Key::Char('\n')]);
    assert_eq!(default_switch_focus_submit_keybinding(), vec![Key::Ctrl('w')]);
    let all = default_keybinding();
    assert_eq!(all.quit, vec![Key::Char('q')]);
    assert_eq!(all.switch_focus, vec![Key::Ctrl('w')]);
    assert!(key_in(&all.up, Key::Up));
    assert!(key_in(&all.up, Key::Char('k')));
    assert!(!key_in(&all.up, Key::Down));
    assert!(!key_in(&vec![], Key::Down));
}

#[test]
fn copies_are_equal_to_what_they_copy() {
    let strings = vec!["a".to_string(), "b".to_string()];
    assert_eq!(clone_strings(&strings), strings);
    assert_eq!(clone_optional_string(&Some("x".to_string())), Some("x".to_string()));
    assert_eq!(clone_optional_string(&None), None);
    assert_eq!(clone_optional_strings(&Some(strings.clone())), Some(strings));
    assert_eq!(clone_keys(&vec![Key::Up, Key::F(3)]), vec![Key::Up, Key::F(3)]);
    let mut p = config_proc(Some("ls"), None);
    p.env = Some(vec![("A".to_string(), Some("1".to_string())), ("B".to_string(), None)]);
    p.categories = Some(vec!["db".to_string()]);
    assert_eq!(p.clone(), p);
    let config = ProcTmuxConfig {
        general: default_general(),
        procs: vec![("one".to_string(), p)],
        keybinding: default_keybinding(),
        log_file: "/tmp/log".to_string(),
        layout: default_layout(),
        style: default_style(),
    };
    assert_eq!(config.clone(), config);
}

fn config_with(procs: Vec<(&str, ProcessConfig)>) -> ProcTmuxConfig {
    ProcTmuxConfig {
        general: default_general(),
        procs: procs.into_iter().map(|(l, p)| (l.to_string(), p)).collect(),
        keybinding: default_keybinding(),
        log_file: "/tmp/log".to_string(),
        layout: default_layout(),
        style: default_style(),
    }
}

#[test]
fn a_process_may_not_have_both_shell_and_cmd() {
    let mut config = config_with(vec![
        ("one", config_proc(Some("ls"), None)),
        ("two", config_proc(None, Some(vec!["echo", "hi"]))),
        ("three", config_proc(None, None)),
    ]);
    assert_eq!(config.validate(), Ok(()));
    config.procs.push(("four".to_string(), config_proc(Some("ls"), Some(vec!["ls"]))));
    config.procs.push(("five".to_string(), config_proc(Some("ls"), Some(vec!["ls"]))));
    assert_eq!(
        config.validate(),
        Err(Error::Config("Process 'four' has both shell and cmd".to_string()))
    );
}

#[test]
fn a_label_stands_for_one_process() {
    let config = config_with(vec![
        ("one", config_proc(Some("ls"), None)),
        ("two", config_proc(Some("ls"), None)),
        ("one", config_proc(Some("ls"), Some(vec!["ls"]))),
        ("two", config_proc(Some("ls"), None)),
    ]);
    assert_eq!(
        config.validate(),
        Err(Error::Config("Process 'one' is configured twice".to_string()))
    );
    assert_eq!(config_with(vec![]).validate(), Ok(()));
}

#[test]
fn a_variable_is_set_once() {
    let mut p = config_proc(Some("ls"), None);
    p.env = Some(vec![
        ("A".to_string(), Some("1".to_string())),
        ("B".to_string(), None),
        ("a".to_string(), None),
    ]);
    let mut config = config_with(vec![("one", p.clone())]);
    assert_eq!(config.validate(), Ok(()));
    p.env.as_mut().unwrap().push(("B".to_string(), Some("2".to_string())));
    config.procs.push(("two".to_string(), p));
    assert_eq!(
        config.validate(),
        Err(Error::Config("Process 'two' sets a variable of its environment twice".to_string()))
    );
    let mut q = config_proc(None, None);
    q.env = Some(vec![]);
    assert_eq!(config_with(vec![("q", q)]).validate(), Ok(()));
}
