//! The configuration of the supervisor: its sections, their defaults, and the
//! notations for keys and stop signals.

use vstd::prelude::*;
use crate::error::{Error, ErrorView};
use crate::key::{key_of, parse_key, Key};
use crate::text::{copy_str, same_text};

verus! {

/// `libc::SIGKILL`: the number of the signal that ends a process at once.
#[verifier::external_body]
fn sigkill() -> (r: i32)
    ensures
        r == 9,
{
    libc::SIGKILL
}

/// `libc::SIGINT`: the number of the interrupt signal.
#[verifier::external_body]
fn sigint() -> (r: i32)
    ensures
        r == 2,
{
    libc::SIGINT
}

/// `libc::SIGTERM`: the number of the signal that asks a process to end.
#[verifier::external_body]
fn sigterm() -> (r: i32)
    ensures
        r == 15,
{
    libc::SIGTERM
}

/// A copy of a list of strings.
pub fn clone_strings(v: &Vec<String>) -> (r: Vec<String>)
    ensures
        r.deep_view() == v.deep_view(),
{
    let r = v.clone();
    assert(r.deep_view() =~= v.deep_view());
    r
}

/// A copy of a string that may be absent.
pub fn clone_optional_string(s: &Option<String>) -> (r: Option<String>)
    ensures
        r.deep_view() == s.deep_view(),
{
    match s {
        Some(t) => Some(t.clone()),
        None => None,
    }
}

/// A copy of a list of strings that may be absent.
pub fn clone_optional_strings(v: &Option<Vec<String>>) -> (r: Option<Vec<String>>)
    ensures
        r.deep_view() == v.deep_view(),
{
    match v {
        Some(t) => Some(clone_strings(t)),
        None => None,
    }
}

/// A copy of a list of keys.
pub fn clone_keys(v: &Vec<Key>) -> (r: Vec<Key>)
    ensures
        r@ == v@,
{
    let r = v.clone();
    assert(r@ =~= v@);
    r
}

/// The variables of a process's environment, in the order in which they are
/// handed to the multiplexer: each name with its value, if it has one.
pub type Environment = Vec<(String, Option<String>)>;

fn clone_environment(v: &Environment) -> (r: Environment)
    ensures
        r.deep_view() == v.deep_view(),
{
    let mut r: Environment = Vec::new();
    let mut i: usize = 0;
    while i < v.len()
        invariant
            i <= v.len(),
            r.deep_view() == v.deep_view().take(i as int),
        decreases v.len() - i,
    {
        let ghost before = r.deep_view();
        let entry = (v[i].0.clone(), clone_optional_string(&v[i].1));
        assert(entry.deep_view() == v@[i as int].deep_view());
        r.push(entry);
        assert(r.deep_view() =~= before.push(v@[i as int].deep_view()));
        assert(v.deep_view().take(i + 1) =~= v.deep_view().take(i as int).push(
            v@[i as int].deep_view(),
        ));
        i += 1;
    }
    assert(v.deep_view().take(v.len() as int) =~= v.deep_view());
    r
}

/// How one process is run and stopped.
#[derive(Debug, PartialEq, Eq)]
pub struct ProcessConfig {
    pub autostart: bool,
    pub autofocus: bool,
    pub shell: Option<String>,
    pub cmd: Option<Vec<String>>,
    pub cwd: String,
    pub stop: i32,
    pub env: Option<Environment>,
    pub add_path: Option<Vec<String>>,
    pub description: Option<String>,
    pub docs: Option<String>,
    pub categories: Option<Vec<String>>,
    pub meta_tags: Option<Vec<String>>,
}

/// A [`ProcessConfig`] with its texts as sequences of characters.
pub struct ProcessConfigView {
    pub autostart: bool,
    pub autofocus: bool,
    pub shell: Option<Seq<char>>,
    pub cmd: Option<Seq<Seq<char>>>,
    pub cwd: Seq<char>,
    pub stop: i32,
    pub env: Option<Seq<(Seq<char>, Option<Seq<char>>)>>,
    pub add_path: Option<Seq<Seq<char>>>,
    pub description: Option<Seq<char>>,
    pub docs: Option<Seq<char>>,
    pub categories: Option<Seq<Seq<char>>>,
    pub meta_tags: Option<Seq<Seq<char>>>,
}

impl View for ProcessConfig {
    type V = ProcessConfigView;

    open spec fn view(&self) -> ProcessConfigView {
        ProcessConfigView {
            autostart: self.autostart,
            autofocus: self.autofocus,
            shell: self.shell.deep_view(),
            cmd: self.cmd.deep_view(),
            cwd: self.cwd@,
            stop: self.stop,
            env: self.env.deep_view(),
            add_path: self.add_path.deep_view(),
            description: self.description.deep_view(),
            docs: self.docs.deep_view(),
            categories: self.categories.deep_view(),
            meta_tags: self.meta_tags.deep_view(),
        }
    }
}

impl DeepView for ProcessConfig {
    type V = ProcessConfigView;

    open spec fn deep_view(&self) -> ProcessConfigView {
        self@
    }
}

impl Clone for ProcessConfig {
    fn clone(&self) -> (r: Self)
        ensures
            r@ == self@,
    {
        ProcessConfig {
            autostart: self.autostart,
            autofocus: self.autofocus,
            shell: clone_optional_string(&self.shell),
            cmd: clone_optional_strings(&self.cmd),
            cwd: self.cwd.clone(),
            stop: self.stop,
            env: match &self.env {
                Some(e) => Some(clone_environment(e)),
                None => None,
            },
            add_path: clone_optional_strings(&self.add_path),
            description: clone_optional_string(&self.description),
            docs: clone_optional_string(&self.docs),
            categories: clone_optional_strings(&self.categories),
            meta_tags: clone_optional_strings(&self.meta_tags),
        }
    }
}

/// The signal that stops a process when the configuration names none.
pub fn default_kill_signal() -> (r: i32)
    ensures
        r == 9,
{
    sigkill()
}

/// What `autostart` is in a configuration that does not set it.
pub fn default_autostart() -> (r: bool)
    ensures
        !r,
{
    false
}

/// What `autofocus` is in a configuration that does not set it.
pub fn default_autofocus() -> (r: bool)
    ensures
        !r,
{
    false
}

/// The number of the signal that a name of the configuration stands for.
pub open spec fn signal_of(name: Seq<char>) -> Option<i32> {
    if name == "SIGKILL"@ {
        Some(9i32)
    } else if name == "SIGINT"@ {
        Some(2i32)
    } else if name == "SIGTERM"@ {
        Some(15i32)
    } else {
        None
    }
}

/// Reads the name of a stop signal: `SIGKILL`, `SIGINT` or `SIGTERM`. Any
/// other name is a configuration error.
pub fn parse_kill_signal(name: &str) -> (r: Result<i32, Error>)
    ensures
        match r {
            Ok(n) => signal_of(name@) == Some(n),
            Err(e) => signal_of(name@).is_none() && e@ == ErrorView::Config(
                "Could not deserialize kill signal: "@ + name@,
            ),
        },
{
    if same_text(name, "SIGKILL") {
        Ok(sigkill())
    } else if same_text(name, "SIGINT") {
        Ok(sigint())
    } else if same_text(name, "SIGTERM") {
        Ok(sigterm())
    } else {
        let mut m = copy_str("Could not deserialize kill signal: ");
        m.append(name);
        Err(Error::Config(m))
    }
}

/// The keys that a list of literals stands for, if each of them is a key.
pub open spec fn keys_of(literals: Seq<Seq<char>>) -> Option<Seq<Key>>
    decreases literals.len(),
{
    if literals.len() == 0 {
        Some(Seq::<Key>::empty())
    } else {
        match (keys_of(literals.drop_last()), key_of(literals.last())) {
            (Some(ks), Some(k)) => Some(ks.push(k)),
            _ => None,
        }
    }
}

/// The first literal of the list that is no key.
pub open spec fn first_bad_literal(literals: Seq<Seq<char>>) -> Seq<char>
    decreases literals.len(),
{
    if literals.len() == 0 {
        Seq::<char>::empty()
    } else if keys_of(literals.drop_last()).is_none() {
        first_bad_literal(literals.drop_last())
    } else {
        literals.last()
    }
}

/// Reads the keys bound to one action. A literal that is no key is a
/// configuration error, which names the first such literal.
pub fn parse_keybinding(literals: &Vec<String>) -> (r: Result<Vec<Key>, Error>)
    ensures
        match r {
            Ok(keys) => keys_of(literals.deep_view()) == Some(keys@),
            Err(e) => keys_of(literals.deep_view()).is_none() && e@ == ErrorView::Config(
                "Could not deserialize key: "@ + first_bad_literal(literals.deep_view()),
            ),
        },
{
    let mut keys: Vec<Key> = Vec::new();
    let mut i: usize = 0;
    let ghost all = literals.deep_view();
    while i < literals.len()
        invariant
            i <= literals.len(),
            all == literals.deep_view(),
            keys_of(all.take(i as int)) == Some(keys@),
        decreases literals.len() - i,
    {
        let ghost upto = all.take(i + 1);
        assert(upto.drop_last() =~= all.take(i as int));
        assert(upto.last() == literals@[i as int]@);
        match parse_key(literals[i].as_str()) {
            Some(k) => {
                keys.push(k);
            },
            None => {
                let mut m = copy_str("Could not deserialize key: ");
                m.append(literals[i].as_str());
                proof {
                    lemma_bad_literal_stays(all, i + 1);
                }
                return Err(Error::Config(m));
            },
        }
        i += 1;
    }
    assert(all.take(literals.len() as int) =~= all);
    Ok(keys)
}

/// Once a beginning of the list holds a literal that is no key, so does the
/// whole list, and the first such literal is the same.
pub proof fn lemma_bad_literal_stays(literals: Seq<Seq<char>>, k: int)
    requires
        0 <= k <= literals.len(),
        keys_of(literals.take(k)).is_none(),
    ensures
        keys_of(literals).is_none(),
        first_bad_literal(literals) == first_bad_literal(literals.take(k)),
    decreases literals.len(),
{
    if k == literals.len() {
        assert(literals.take(k) =~= literals);
    } else {
        assert(literals.drop_last().take(k) =~= literals.take(k));
        lemma_bad_literal_stays(literals.drop_last(), k);
    }
}

/// The keys bound to each action.
#[derive(Debug, PartialEq, Eq)]
pub struct KeybindingConfig {
    pub quit: Vec<Key>,
    pub start: Vec<Key>,
    pub stop: Vec<Key>,
    pub up: Vec<Key>,
    pub down: Vec<Key>,
    pub filter: Vec<Key>,
    pub filter_submit: Vec<Key>,
    pub switch_focus: Vec<Key>,
}

/// A [`KeybindingConfig`] with its lists as sequences.
pub struct KeybindingConfigView {
    pub quit: Seq<Key>,
    pub start: Seq<Key>,
    pub stop: Seq<Key>,
    pub up: Seq<Key>,
    pub down: Seq<Key>,
    pub filter: Seq<Key>,
    pub filter_submit: Seq<Key>,
    pub switch_focus: Seq<Key>,
}

impl View for KeybindingConfig {
    type V = KeybindingConfigView;

    open spec fn view(&self) -> KeybindingConfigView {
        KeybindingConfigView {
            quit: self.quit@,
            start: self.start@,
            stop: self.stop@,
            up: self.up@,
            down: self.down@,
            filter: self.filter@,
            filter_submit: self.filter_submit@,
            switch_focus: self.switch_focus@,
        }
    }
}

impl Clone for KeybindingConfig {
    fn clone(&self) -> (r: Self)
        ensures
            r@ == self@,
    {
        KeybindingConfig {
            quit: clone_keys(&self.quit),
            start: clone_keys(&self.start),
            stop: clone_keys(&self.stop),
            up: clone_keys(&self.up),
            down: clone_keys(&self.down),
            filter: clone_keys(&self.filter),
            filter_submit: clone_keys(&self.filter_submit),
            switch_focus: clone_keys(&self.switch_focus),
        }
    }
}

fn one_key(k: Key) -> (v: Vec<Key>)
    ensures
        v@ == seq![k],
{
    let mut v: Vec<Key> = Vec::new();
    v.push(k);
    v
}

fn two_keys(a: Key, b: Key) -> (v: Vec<Key>)
    ensures
        v@ == seq![a, b],
{
    let mut v: Vec<Key> = Vec::new();
    v.push(a);
    v.push(b);
    v
}

/// The keys of `quit` in a configuration that binds none to it.
pub fn default_quit_keybinding() -> (v: Vec<Key>)
    ensures
        v@ == seq![Key::Char('q')],
{
    one_key(Key::Char('q'))
}

/// The keys of `start` in a configuration that binds none to it.
pub fn default_start_keybinding() -> (v: Vec<Key>)
    ensures
        v@ == seq![Key::Char('s')],
{
    one_key(Key::Char('s'))
}

/// The keys of `stop` in a configuration that binds none to it.
pub fn default_stop_keybinding() -> (v: Vec<Key>)
    ensures
        v@ == seq![Key::Char('x')],
{
    one_key(Key::Char('x'))
}

/// The keys of `up` in a configuration that binds none to it.
pub fn default_up_keybinding() -> (v: Vec<Key>)
    ensures
        v@ == seq![Key::Char('k'), Key::Up],
{
    two_keys(Key::Char('k'), Key::Up)
}

/// The keys of `down` in a configuration that binds none to it.
pub fn default_down_keybinding() -> (v: Vec<Key>)
    ensures
        v@ == seq![Key::Char('j'), Key::Down],
{
    two_keys(Key::Char('j'), Key::Down)
}

/// The keys of `filter` in a configuration that binds none to it.
pub fn default_filter_keybinding() -> (v: Vec<Key>)
    ensures
        v@ == seq![Key::Char('/')],
{
    one_key(Key::Char('/'))
}

/// The keys of `filter_submit` in a configuration that binds none to it.
pub fn default_filter_submit_keybinding() -> (v: Vec<Key>)
    ensures
        v@ == seq![Key::Char('\n')],
{
    one_key(Key::Char('\n'))
}

/// The keys of `switch_focus` in a configuration that binds none to it.
pub fn default_switch_focus_submit_keybinding() -> (v: Vec<Key>)
    ensures
        v@ == seq![Key::Ctrl('w')],
{
    one_key(Key::Ctrl('w'))
}

/// The keys that each action has when the configuration binds none.
pub open spec fn default_keys() -> KeybindingConfigView {
    KeybindingConfigView {
        quit: seq![Key::Char('q')],
        start: seq![Key::Char('s')],
        stop: seq![Key::Char('x')],
        up: seq![Key::Char('k'), Key::Up],
        down: seq![Key::Char('j'), Key::Down],
        filter: seq![Key::Char('/')],
        filter_submit: seq![Key::Char('\n')],
        switch_focus: seq![Key::Ctrl('w')],
    }
}

/// The bindings used when the configuration has none.
pub fn default_keybinding() -> (r: KeybindingConfig)
    ensures
        r@ == default_keys(),
{
    KeybindingConfig {
        quit: default_quit_keybinding(),
        start: default_start_keybinding(),
        stop: default_stop_keybinding(),
        up: default_up_keybinding(),
        down: default_down_keybinding(),
        filter: default_filter_keybinding(),
        filter_submit: default_filter_submit_keybinding(),
        switch_focus: default_switch_focus_submit_keybinding(),
    }
}

/// The holding session of the multiplexer.
#[derive(Debug, PartialEq, Eq)]
pub struct GeneralConfig {
    pub detached_session_name: String,
    pub kill_existing_session: bool,
}

/// A [`GeneralConfig`] with its text as a sequence of characters.
pub struct GeneralConfigView {
    pub detached_session_name: Seq<char>,
    pub kill_existing_session: bool,
}

impl View for GeneralConfig {
    type V = GeneralConfigView;

    open spec fn view(&self) -> GeneralConfigView {
        GeneralConfigView {
            detached_session_name: self.detached_session_name@,
            kill_existing_session: self.kill_existing_session,
        }
    }
}

impl Clone for GeneralConfig {
    fn clone(&self) -> (r: Self)
        ensures
            r@ == self@,
    {
        GeneralConfig {
            detached_session_name: self.detached_session_name.clone(),
            kill_existing_session: self.kill_existing_session,
        }
    }
}

/// What `detached_session_name` is in a configuration that does not set it.
pub fn default_detached_session_name() -> (r: String)
    ensures
        r@ == "proctmux"@,
{
    copy_str("proctmux")
}

/// What `kill_existing_session` is in a configuration that does not set it.
pub fn default_kill_existing_session() -> (r: bool)
    ensures
        !r,
{
    false
}

/// The `general` section of a configuration that has none.
pub fn default_general() -> (r: GeneralConfig)
    ensures
        r@ == (GeneralConfigView {
            detached_session_name: "proctmux"@,
            kill_existing_session: false,
        }),
{
    GeneralConfig {
        detached_session_name: default_detached_session_name(),
        kill_existing_session: default_kill_existing_session(),
    }
}

/// The layout of the process panel.
#[derive(Debug, PartialEq, Eq)]
pub struct LayoutConfig {
    pub hide_help: bool,
    pub hide_process_description_panel: bool,
    pub process_list_width: usize,
    pub sort_process_list_alpha: bool,
    pub category_search_prefix: String,
}

/// A [`LayoutConfig`] with its text as a sequence of characters.
pub struct LayoutConfigView {
    pub hide_help: bool,
    pub hide_process_description_panel: bool,
    pub process_list_width: usize,
    pub sort_process_list_alpha: bool,
    pub category_search_prefix: Seq<char>,
}

impl View for LayoutConfig {
    type V = LayoutConfigView;

    open spec fn view(&self) -> LayoutConfigView {
        LayoutConfigView {
            hide_help: self.hide_help,
            hide_process_description_panel: self.hide_process_description_panel,
            process_list_width: self.process_list_width,
            sort_process_list_alpha: self.sort_process_list_alpha,
            category_search_prefix: self.category_search_prefix@,
        }
    }
}

impl Clone for LayoutConfig {
    fn clone(&self) -> (r: Self)
        ensures
            r@ == self@,
    {
        LayoutConfig {
            hide_help: self.hide_help,
            hide_process_description_panel: self.hide_process_description_panel,
            process_list_width: self.process_list_width,
            sort_process_list_alpha: self.sort_process_list_alpha,
            category_search_prefix: self.category_search_prefix.clone(),
        }
    }
}

/// What `hide_help` is in a configuration that does not set it.
pub fn default_hide_help() -> (r: bool)
    ensures
        !r,
{
    false
}

/// What `hide_process_description_panel` is in a configuration that does not set it.
pub fn default_hide_process_description_panel() -> (r: bool)
    ensures
        !r,
{
    false
}

/// What `process_list_width` is in a configuration that does not set it.
pub fn default_process_list_width() -> (r: usize)
    ensures
        r == 31,
{
    31
}

/// What `sort_process_list_alpha` is in a configuration that does not set it.
pub fn default_sort_process_list_alpha() -> (r: bool)
    ensures
        r,
{
    true
}

/// What `category_search_prefix` is in a configuration that does not set it.
pub fn default_category_search_prefix() -> (r: String)
    ensures
        r@ == "cat:"@,
{
    copy_str("cat:")
}

/// The `layout` section of a configuration that has none.
pub fn default_layout() -> (r: LayoutConfig)
    ensures
        r@ == (LayoutConfigView {
            hide_help: false,
            hide_process_description_panel: false,
            process_list_width: 31,
            sort_process_list_alpha: true,
            category_search_prefix: "cat:"@,
        }),
{
    LayoutConfig {
        hide_help: default_hide_help(),
        hide_process_description_panel: default_hide_process_description_panel(),
        process_list_width: default_process_list_width(),
        sort_process_list_alpha: default_sort_process_list_alpha(),
        category_search_prefix: default_category_search_prefix(),
    }
}

/// The colors and glyphs of the process panel.
#[derive(Debug, PartialEq, Eq)]
pub struct StyleConfig {
    pub selected_process_color: String,
    pub selected_process_bg_color: String,
    pub unselected_process_color: String,
    pub status_running_color: String,
    pub status_stopped_color: String,
    pub status_halting_color: String,
    pub pointer_char: String,
}

/// A [`StyleConfig`] with its texts as sequences of characters.
pub struct StyleConfigView {
    pub selected_process_color: Seq<char>,
    pub selected_process_bg_color: Seq<char>,
    pub unselected_process_color: Seq<char>,
    pub status_running_color: Seq<char>,
    pub status_stopped_color: Seq<char>,
    pub status_halting_color: Seq<char>,
    pub pointer_char: Seq<char>,
}

impl View for StyleConfig {
    type V = StyleConfigView;

    open spec fn view(&self) -> StyleConfigView {
        StyleConfigView {
            selected_process_color: self.selected_process_color@,
            selected_process_bg_color: self.selected_process_bg_color@,
            unselected_process_color: self.unselected_process_color@,
            status_running_color: self.status_running_color@,
            status_stopped_color: self.status_stopped_color@,
            status_halting_color: self.status_halting_color@,
            pointer_char: self.pointer_char@,
        }
    }
}

impl Clone for StyleConfig {
    fn clone(&self) -> (r: Self)
        ensures
            r@ == self@,
    {
        StyleConfig {
            selected_process_color: self.selected_process_color.clone(),
            selected_process_bg_color: self.selected_process_bg_color.clone(),
            unselected_process_color: self.unselected_process_color.clone(),
            status_running_color: self.status_running_color.clone(),
            status_stopped_color: self.status_stopped_color.clone(),
            status_halting_color: self.status_halting_color.clone(),
            pointer_char: self.pointer_char.clone(),
        }
    }
}

/// What `selected_process_color` is in a configuration that does not set it.
pub fn default_selected_process_color() -> (r: String)
    ensures
        r@ == "ansiblack"@,
{
    copy_str("ansiblack")
}

/// What `selected_process_bg_color` is in a configuration that does not set it.
pub fn default_selected_process_bg_color() -> (r: String)
    ensures
        r@ == "ansimagenta"@,
{
    copy_str("ansimagenta")
}

/// What `unselected_process_color` is in a configuration that does not set it.
pub fn default_unselected_process_color() -> (r: String)
    ensures
        r@ == "ansiblue"@,
{
    copy_str("ansiblue")
}

/// What `status_running_color` is in a configuration that does not set it.
pub fn default_status_running_color() -> (r: String)
    ensures
        r@ == "ansigreen"@,
{
    copy_str("ansigreen")
}

/// What `status_stopped_color` is in a configuration that does not set it.
pub fn default_status_stopped_color() -> (r: String)
    ensures
        r@ == "ansired"@,
{
    copy_str("ansired")
}

/// What `status_halting_color` is in a configuration that does not set it.
pub fn default_status_halting_color() -> (r: String)
    ensures
        r@ == "ansiyellow"@,
{
    copy_str("ansiyellow")
}

/// What `pointer_char` is in a configuration that does not set it.
pub fn default_pointer_char() -> (r: String)
    ensures
        r@ == "▶"@,
{
    copy_str("▶")
}

/// The `style` section of a configuration that has none.
pub fn default_style() -> (r: StyleConfig)
    ensures
        r@ == (StyleConfigView {
            selected_process_color: "ansiblack"@,
            selected_process_bg_color: "ansimagenta"@,
            unselected_process_color: "ansiblue"@,
            status_running_color: "ansigreen"@,
            status_stopped_color: "ansired"@,
            status_halting_color: "ansiyellow"@,
            pointer_char: "▶"@,
        }),
{
    StyleConfig {
        selected_process_color: default_selected_process_color(),
        selected_process_bg_color: default_selected_process_bg_color(),
        unselected_process_color: default_unselected_process_color(),
        status_running_color: default_status_running_color(),
        status_stopped_color: default_status_stopped_color(),
        status_halting_color: default_status_halting_color(),
        pointer_char: default_pointer_char(),
    }
}

/// The whole configuration.
#[derive(Debug, PartialEq, Eq)]
pub struct ProcTmuxConfig {
    pub general: GeneralConfig,
    /// The processes by label, each label once.
    pub procs: Vec<(String, ProcessConfig)>,
    pub keybinding: KeybindingConfig,
    pub log_file: String,
    pub layout: LayoutConfig,
    pub style: StyleConfig,
}

/// A [`ProcTmuxConfig`] with its texts as sequences of characters.
pub struct ProcTmuxConfigView {
    pub general: GeneralConfigView,
    pub procs: Seq<(Seq<char>, ProcessConfigView)>,
    pub keybinding: KeybindingConfigView,
    pub log_file: Seq<char>,
    pub layout: LayoutConfigView,
    pub style: StyleConfigView,
}

impl View for ProcTmuxConfig {
    type V = ProcTmuxConfigView;

    open spec fn view(&self) -> ProcTmuxConfigView {
        ProcTmuxConfigView {
            general: self.general@,
            procs: self.procs.deep_view(),
            keybinding: self.keybinding@,
            log_file: self.log_file@,
            layout: self.layout@,
            style: self.style@,
        }
    }
}

fn clone_procs(v: &Vec<(String, ProcessConfig)>) -> (r: Vec<(String, ProcessConfig)>)
    ensures
        r.deep_view() == v.deep_view(),
{
    let mut r: Vec<(String, ProcessConfig)> = Vec::new();
    let mut i: usize = 0;
    while i < v.len()
        invariant
            i <= v.len(),
            r.deep_view() == v.deep_view().take(i as int),
        decreases v.len() - i,
    {
        let ghost before = r.deep_view();
        let entry = (v[i].0.clone(), v[i].1.clone());
        assert(entry.deep_view() == v@[i as int].deep_view());
        r.push(entry);
        assert(r.deep_view() =~= before.push(v@[i as int].deep_view()));
        assert(v.deep_view().take(i + 1) =~= v.deep_view().take(i as int).push(
            v@[i as int].deep_view(),
        ));
        i += 1;
    }
    assert(v.deep_view().take(v.len() as int) =~= v.deep_view());
    r
}

impl Clone for ProcTmuxConfig {
    fn clone(&self) -> (r: Self)
        ensures
            r@ == self@,
    {
        ProcTmuxConfig {
            general: self.general.clone(),
            procs: clone_procs(&self.procs),
            keybinding: self.keybinding.clone(),
            log_file: self.log_file.clone(),
            layout: self.layout.clone(),
            style: self.style.clone(),
        }
    }
}

/// Whether a process is given both a shell string and a list of words to
/// run, of which it may have one only.
pub open spec fn runs_two_ways(p: ProcessConfigView) -> bool {
    p.shell.is_some() && p.cmd.is_some()
}

/// Whether no variable is set twice in an environment.
pub open spec fn distinct_names(env: Seq<(Seq<char>, Option<Seq<char>>)>) -> bool {
    forall|i: int, j: int|
        0 <= i < env.len() && 0 <= j < env.len() && i != j ==> (#[trigger] env[i]).0 != (
        #[trigger] env[j]).0
}

/// Whether one of the processes has the label.
pub open spec fn has_label(procs: Seq<(Seq<char>, ProcessConfigView)>, label: Seq<char>) -> bool {
    exists|i: int| 0 <= i < procs.len() && (#[trigger] procs[i]).0 == label
}

/// The message that tells of a label that two processes have.
pub open spec fn twice_message(label: Seq<char>) -> Seq<char> {
    "Process '"@ + label + "' is configured twice"@
}

/// The message that tells of a process that is run in two ways.
pub open spec fn two_ways_message(label: Seq<char>) -> Seq<char> {
    "Process '"@ + label + "' has both shell and cmd"@
}

/// The message that tells of a process that sets a variable twice.
pub open spec fn names_message(label: Seq<char>) -> Seq<char> {
    "Process '"@ + label + "' sets a variable of its environment twice"@
}

/// What is wrong with the last of the processes, given those before it: its
/// label is taken, or it is run in two ways, or it sets a variable twice.
pub open spec fn fault_of_last(procs: Seq<(Seq<char>, ProcessConfigView)>) -> Option<Seq<char>> {
    let (label, p) = procs.last();
    if has_label(procs.drop_last(), label) {
        Some(twice_message(label))
    } else if runs_two_ways(p) {
        Some(two_ways_message(label))
    } else if p.env.is_some() && !distinct_names(p.env.unwrap()) {
        Some(names_message(label))
    } else {
        None
    }
}

/// What is wrong with the first process with which something is wrong.
pub open spec fn first_fault(procs: Seq<(Seq<char>, ProcessConfigView)>) -> Option<Seq<char>>
    decreases procs.len(),
{
    if procs.len() == 0 {
        None
    } else {
        match first_fault(procs.drop_last()) {
            Some(m) => Some(m),
            None => fault_of_last(procs),
        }
    }
}

/// Whether a configuration keeps the rules of its form: every label stands
/// for one process, every process is run in one way at most, and no process
/// sets a variable of its environment twice.
pub open spec fn well_formed(config: ProcTmuxConfigView) -> bool {
    first_fault(config.procs).is_none()
}

/// A fault among the first processes is a fault among all, and the first.
pub proof fn lemma_fault_stays(procs: Seq<(Seq<char>, ProcessConfigView)>, k: int)
    requires
        0 <= k <= procs.len(),
        first_fault(procs.take(k)).is_some(),
    ensures
        first_fault(procs) == first_fault(procs.take(k)),
    decreases procs.len(),
{
    if k == procs.len() {
        assert(procs.take(k) =~= procs);
    } else {
        assert(procs.drop_last().take(k) =~= procs.take(k));
        lemma_fault_stays(procs.drop_last(), k);
    }
}

/// In a configuration that keeps the rules no two processes have the same
/// label.
pub proof fn lemma_labels_are_distinct(procs: Seq<(Seq<char>, ProcessConfigView)>)
    requires
        first_fault(procs).is_none(),
    ensures
        forall|i: int, j: int|
            0 <= i < procs.len() && 0 <= j < procs.len() && i != j ==> (#[trigger] procs[i]).0 != (
            #[trigger] procs[j]).0,
    decreases procs.len(),
{
    if procs.len() > 0 {
        let before = procs.drop_last();
        lemma_labels_are_distinct(before);
        assert forall|i: int, j: int|
            0 <= i < procs.len() && 0 <= j < procs.len() && i != j implies (#[trigger] procs[i]).0
            != (#[trigger] procs[j]).0 by {
            let last = procs.len() - 1;
            if i < last && j < last {
                assert(before[i] == procs[i] && before[j] == procs[j]);
            } else if i == last {
                assert(before[j] == procs[j]);
            } else {
                assert(before[i] == procs[i]);
            }
        }
    }
}

fn label_taken(procs: &Vec<(String, ProcessConfig)>, upto: usize, label: &str) -> (r: bool)
    requires
        upto <= procs.len(),
    ensures
        r == has_label(procs.deep_view().take(upto as int), label@),
{
    let ghost before = procs.deep_view().take(upto as int);
    let mut j: usize = 0;
    while j < upto
        invariant
            j <= upto <= procs.len(),
            before == procs.deep_view().take(upto as int),
            forall|k: int| 0 <= k < j ==> (#[trigger] before[k]).0 != label@,
        decreases upto - j,
    {
        assert(before[j as int].0 == procs@[j as int].0@);
        if same_text(procs[j].0.as_str(), label) {
            return true;
        }
        j += 1;
    }
    false
}

fn names_are_distinct(env: &Environment) -> (r: bool)
    ensures
        r == distinct_names(env.deep_view()),
{
    let ghost names = env.deep_view();
    let mut i: usize = 0;
    while i < env.len()
        invariant
            i <= env.len(),
            names == env.deep_view(),
            forall|a: int, b: int|
                0 <= a < i && 0 <= b < a ==> (#[trigger] names[a]).0 != (#[trigger] names[b]).0,
        decreases env.len() - i,
    {
        let mut j: usize = 0;
        while j < i
            invariant
                j <= i < env.len(),
                names == env.deep_view(),
                forall|b: int| 0 <= b < j ==> (#[trigger] names[b]).0 != names[i as int].0,
            decreases i - j,
        {
            assert(names[j as int].0 == env@[j as int].0@);
            assert(names[i as int].0 == env@[i as int].0@);
            if same_text(env[j].0.as_str(), env[i].0.as_str()) {
                return false;
            }
            j += 1;
        }
        i += 1;
    }
    assert forall|a: int, b: int|
        0 <= a < names.len() && 0 <= b < names.len() && a != b implies (#[trigger] names[a]).0 != (
    #[trigger] names[b]).0 by {
        if b < a {
        } else {
            assert(names[b].0 != names[a].0);
        }
    }
    true
}

fn fault_message(head: &str, label: &str, tail: &str) -> (m: String)
    ensures
        m@ == head@ + label@ + tail@,
{
    let mut m = copy_str(head);
    m.append(label);
    m.append(tail);
    m
}

impl ProcTmuxConfig {
    /// Checks that the configuration keeps the rules of its form. The error
    /// tells what is wrong with the first process with which something is
    /// wrong.
    pub fn validate(&self) -> (r: Result<(), Error>)
        ensures
            match r {
                Ok(_) => well_formed(self@),
                Err(e) => first_fault(self@.procs).is_some() && e@ == ErrorView::Config(
                    first_fault(self@.procs).unwrap(),
                ),
            },
    {
        let ghost all = self@.procs;
        let mut i: usize = 0;
        assert(all.take(0).len() == 0);
        while i < self.procs.len()
            invariant
                i <= self.procs.len(),
                all == self.procs.deep_view(),
                first_fault(all.take(i as int)).is_none(),
            decreases self.procs.len() - i,
        {
            let ghost upto = all.take(i + 1);
            assert(upto.drop_last() =~= all.take(i as int));
            assert(upto.last() == self.procs@[i as int].deep_view());
            let label = self.procs[i].0.as_str();
            let p = &self.procs[i].1;
            let fault = if label_taken(&self.procs, i, label) {
                Some(fault_message("Process '", label, "' is configured twice"))
            } else if p.shell.is_some() && p.cmd.is_some() {
                Some(fault_message("Process '", label, "' has both shell and cmd"))
            } else {
                let distinct = match &p.env {
                    Some(env) => names_are_distinct(env),
                    None => true,
                };
                if distinct {
                    None
                } else {
                    Some(
                        fault_message(
                            "Process '",
                            label,
                            "' sets a variable of its environment twice",
                        ),
                    )
                }
            };
            assert(fault.deep_view() == fault_of_last(upto));
            match fault {
                Some(m) => {
                    proof {
                        lemma_fault_stays(all, i + 1);
                    }
                    return Err(Error::Config(m));
                },
                None => {},
            }
            i += 1;
        }
        assert(all.take(self.procs.len() as int) =~= all);
        Ok(())
    }
}

} // verus!
