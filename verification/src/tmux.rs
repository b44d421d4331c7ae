//! The commands of the multiplexer that the supervisor uses, as argument
//! lists, and the reading of what the multiplexer answers.

use vstd::prelude::*;
use crate::config::Environment;
use crate::error::{Error, ErrorView};
use crate::text::{
    chars_of, copy_str, decimal_digits, decimal_of, string_of, strip_final_newline,
    without_final_newline,
};

verus! {

/// What came of running a command.
#[derive(Debug, PartialEq, Eq)]
pub struct CommandOutput {
    /// Whether the command ended with success.
    pub success: bool,
    /// What it wrote to its standard output.
    pub stdout: String,
    /// What it wrote to its standard error.
    pub stderr: String,
}

/// A [`CommandOutput`] with its texts as sequences of characters.
pub struct CommandOutputView {
    pub success: bool,
    pub stdout: Seq<char>,
    pub stderr: Seq<char>,
}

impl View for CommandOutput {
    type V = CommandOutputView;

    open spec fn view(&self) -> CommandOutputView {
        CommandOutputView { success: self.success, stdout: self.stdout@, stderr: self.stderr@ }
    }
}

/// The text of a reply without the newline that ends it.
pub open spec fn clean_text(s: Seq<char>) -> Seq<char> {
    without_final_newline(s)
}

/// Removes the newline that ends a reply.
pub fn clean_output(s: &str) -> (r: String)
    ensures
        r@ == clean_text(s@),
{
    let chars = chars_of(s);
    let stripped = strip_final_newline(&chars);
    string_of(&stripped)
}

/// What a command's outcome says: the cleaned text of its standard output if
/// it could be run and ended with success; else an invocation error, with
/// the text of its standard error, or with the reason why it could not be
/// run.
pub open spec fn reply_text(output: Result<CommandOutputView, Seq<char>>) -> Result<
    Seq<char>,
    ErrorView,
> {
    match output {
        Ok(o) => if o.success {
            Ok(clean_text(o.stdout))
        } else {
            Err(ErrorView::MuxInvocation(o.stderr))
        },
        Err(reason) => Err(ErrorView::MuxInvocation(reason)),
    }
}

/// The view of a command's outcome.
pub open spec fn outcome_view(output: Result<CommandOutput, String>) -> Result<
    CommandOutputView,
    Seq<char>,
> {
    match output {
        Ok(o) => Ok(o@),
        Err(reason) => Err(reason@),
    }
}

/// The view of a text or an error.
pub open spec fn text_result_view(r: Result<String, Error>) -> Result<Seq<char>, ErrorView> {
    match r {
        Ok(s) => Ok(s@),
        Err(e) => Err(e@),
    }
}

/// Reads the outcome of a command: its cleaned output, or the error that it
/// ended with.
pub fn read_bytes(output: Result<CommandOutput, String>) -> (r: Result<String, Error>)
    ensures
        text_result_view(r) == reply_text(outcome_view(output)),
{
    match output {
        Ok(o) => {
            if o.success {
                Ok(clean_output(o.stdout.as_str()))
            } else {
                Err(Error::MuxInvocation(o.stderr))
            }
        },
        Err(reason) => Err(Error::MuxInvocation(reason)),
    }
}

fn word(args: &mut Vec<String>, s: &str)
    ensures
        final(args).deep_view() == old(args).deep_view().push(s@),
{
    let ghost before = args.deep_view();
    args.push(copy_str(s));
    assert(args.deep_view() =~= before.push(s@));
}

fn program() -> (args: Vec<String>)
    ensures
        args.deep_view() == seq!["tmux"@],
{
    let mut args: Vec<String> = Vec::new();
    assert(args.deep_view() =~= Seq::<Seq<char>>::empty());
    word(&mut args, "tmux");
    args
}

/// Lists the names of the sessions, one on a line.
pub fn list_sessions() -> (args: Vec<String>)
    ensures
        args.deep_view() == seq!["tmux"@, "list-sessions"@, "-F"@, "#{session_name}"@],
{
    let mut args = program();
    word(&mut args, "list-sessions");
    word(&mut args, "-F");
    word(&mut args, "#{session_name}");
    args
}

/// Asks for the id of the session that the supervisor runs in.
pub fn current_session() -> (args: Vec<String>)
    ensures
        args.deep_view() == seq!["tmux"@, "display-message"@, "-p"@, "#{session_id}"@],
{
    let mut args = program();
    word(&mut args, "display-message");
    word(&mut args, "-p");
    word(&mut args, "#{session_id}");
    args
}

/// Asks for the id of the pane that the supervisor runs in.
pub fn current_pane() -> (args: Vec<String>)
    ensures
        args.deep_view() == seq!["tmux"@, "display-message"@, "-p"@, "#{pane_id}"@],
{
    let mut args = program();
    word(&mut args, "display-message");
    word(&mut args, "-p");
    word(&mut args, "#{pane_id}");
    args
}

/// Creates a detached session of the given name and asks for its id.
pub fn start_detached_session(session_name: &str) -> (args: Vec<String>)
    ensures
        args.deep_view() == seq![
            "tmux"@,
            "new-session"@,
            "-d"@,
            "-s"@,
            session_name@,
            "-P"@,
            "-F"@,
            "#{session_id}"@,
        ],
{
    let mut args = program();
    word(&mut args, "new-session");
    word(&mut args, "-d");
    word(&mut args, "-s");
    word(&mut args, session_name);
    word(&mut args, "-P");
    word(&mut args, "-F");
    word(&mut args, "#{session_id}");
    args
}

/// The word that switches an option on or off.
pub open spec fn on_or_off(on: bool) -> Seq<char> {
    if on {
        "on"@
    } else {
        "off"@
    }
}

/// Makes a pane stay, or not stay, when the process in it has ended.
pub fn set_remain_on_exit(pane_id: &str, on: bool) -> (args: Vec<String>)
    ensures
        args.deep_view() == seq![
            "tmux"@,
            "set-option"@,
            "-t"@,
            pane_id@,
            "remain-on-exit"@,
            on_or_off(on),
        ],
{
    let mut args = program();
    word(&mut args, "set-option");
    word(&mut args, "-t");
    word(&mut args, pane_id);
    word(&mut args, "remain-on-exit");
    if on {
        word(&mut args, "on");
    } else {
        word(&mut args, "off");
    }
    args
}

/// Ends a session.
pub fn kill_session(session_id: &str) -> (args: Vec<String>)
    ensures
        args.deep_view() == seq!["tmux"@, "kill-session"@, "-t"@, session_id@],
{
    let mut args = program();
    word(&mut args, "kill-session");
    word(&mut args, "-t");
    word(&mut args, session_id);
    args
}

/// A window of a session: the session, a colon, and the window's number.
pub open spec fn window_target(session: Seq<char>, window: usize) -> Seq<char> {
    session + ":"@ + decimal_digits(window as nat)
}

fn window_of(session: &str, window: usize) -> (r: String)
    ensures
        r@ == window_target(session@, window),
{
    let mut r = copy_str(session);
    r.append(":");
    let digits = string_of(&decimal_of(window));
    r.append(digits.as_str());
    r
}

/// Moves a pane into a window of its own in another session.
pub fn break_pane(
    pane_id: &str,
    dest_session: &str,
    dest_window: usize,
    window_label: &str,
) -> (args: Vec<String>)
    ensures
        args.deep_view() == seq![
            "tmux"@,
            "break-pane"@,
            "-d"@,
            "-s"@,
            pane_id@,
            "-t"@,
            window_target(dest_session@, dest_window),
            "-n"@,
            window_label@,
        ],
{
    let mut args = program();
    word(&mut args, "break-pane");
    word(&mut args, "-d");
    word(&mut args, "-s");
    word(&mut args, pane_id);
    word(&mut args, "-t");
    let target = window_of(dest_session, dest_window);
    word(&mut args, target.as_str());
    word(&mut args, "-n");
    word(&mut args, window_label);
    args
}

/// Moves a pane beside another one, on seven tenths of the width.
pub fn join_pane(target_pane: &str, dest_pane: &str) -> (args: Vec<String>)
    ensures
        args.deep_view() == seq![
            "tmux"@,
            "join-pane"@,
            "-d"@,
            "-h"@,
            "-l"@,
            "70%"@,
            "-s"@,
            target_pane@,
            "-t"@,
            dest_pane@,
        ],
{
    let mut args = program();
    word(&mut args, "join-pane");
    word(&mut args, "-d");
    word(&mut args, "-h");
    word(&mut args, "-l");
    word(&mut args, "70%");
    word(&mut args, "-s");
    word(&mut args, target_pane);
    word(&mut args, "-t");
    word(&mut args, dest_pane);
    args
}

/// Ends a pane.
pub fn kill_pane(pane_id: &str) -> (args: Vec<String>)
    ensures
        args.deep_view() == seq!["tmux"@, "kill-pane"@, "-t"@, pane_id@],
{
    let mut args = program();
    word(&mut args, "kill-pane");
    word(&mut args, "-t");
    word(&mut args, pane_id);
    args
}

/// The value of a variable of the environment; empty if it has none.
pub open spec fn value_or_empty(value: Option<Seq<char>>) -> Seq<char> {
    match value {
        Some(v) => v,
        None => Seq::<char>::empty(),
    }
}

/// The arguments that hand the variables of an environment to the
/// multiplexer: for each variable `-e` and `NAME=VALUE`.
pub open spec fn environment_arguments(env: Seq<(Seq<char>, Option<Seq<char>>)>) -> Seq<Seq<char>>
    decreases env.len(),
{
    if env.len() == 0 {
        Seq::<Seq<char>>::empty()
    } else {
        environment_arguments(env.drop_last()) + seq![
            "-e"@,
            env.last().0 + "="@ + value_or_empty(env.last().1),
        ]
    }
}

/// The arguments for an environment that may be absent.
pub open spec fn optional_environment_arguments(
    env: Option<Seq<(Seq<char>, Option<Seq<char>>)>>,
) -> Seq<Seq<char>> {
    match env {
        Some(e) => environment_arguments(e),
        None => Seq::<Seq<char>>::empty(),
    }
}

fn add_env_variables(args: &mut Vec<String>, env: &Option<Environment>)
    ensures
        final(args).deep_view() == old(args).deep_view() + optional_environment_arguments(
            env.deep_view(),
        ),
{
    let ghost start = args.deep_view();
    match env {
        Some(hm) => {
            let ghost all = hm.deep_view();
            let mut i: usize = 0;
            assert(all.take(0) =~= Seq::<(Seq<char>, Option<Seq<char>>)>::empty());
            assert(args.deep_view() =~= start + environment_arguments(all.take(0)));
            while i < hm.len()
                invariant
                    i <= hm.len(),
                    all == hm.deep_view(),
                    args.deep_view() == start + environment_arguments(all.take(i as int)),
                decreases hm.len() - i,
            {
                let ghost upto = all.take(i + 1);
                assert(upto.drop_last() =~= all.take(i as int));
                assert(upto.last() == hm@[i as int].deep_view());
                let ghost before = args.deep_view();
                word(args, "-e");
                let mut pair = hm[i].0.clone();
                pair.append("=");
                match &hm[i].1 {
                    Some(v) => {
                        pair.append(v.as_str());
                    },
                    None => {
                        assert(pair@ + Seq::<char>::empty() =~= pair@);
                    },
                }
                word(args, pair.as_str());
                assert(args.deep_view() =~= before + seq!["-e"@, pair@]);
                i += 1;
            }
            assert(all.take(hm.len() as int) =~= all);
        },
        None => {
            assert(args.deep_view() =~= start + Seq::<Seq<char>>::empty());
        },
    }
}

/// The arguments that split a pane and run a command in the new pane.
pub open spec fn create_pane_arguments(
    pane_id: Seq<char>,
    command: Seq<char>,
    working_directory: Seq<char>,
    env: Option<Seq<(Seq<char>, Option<Seq<char>>)>>,
) -> Seq<Seq<char>> {
    seq![
        "tmux"@,
        "split-window"@,
        "-d"@,
        "-h"@,
        "-l"@,
        "70%"@,
        "-t"@,
        pane_id,
        "-c"@,
        working_directory,
        "-P"@,
        "-F"@,
        "#{pane_id}"@,
    ] + optional_environment_arguments(env) + seq![command]
}

/// Splits a pane, leaving it three tenths of the width, runs a command in
/// the new pane, and asks for the new pane's id.
pub fn create_pane(
    pane_id: &str,
    command: &str,
    working_directory: &str,
    env: &Option<Environment>,
) -> (args: Vec<String>)
    ensures
        args.deep_view() == create_pane_arguments(
            pane_id@,
            command@,
            working_directory@,
            env.deep_view(),
        ),
{
    let mut args = program();
    word(&mut args, "split-window");
    word(&mut args, "-d");
    word(&mut args, "-h");
    word(&mut args, "-l");
    word(&mut args, "70%");
    word(&mut args, "-t");
    word(&mut args, pane_id);
    word(&mut args, "-c");
    word(&mut args, working_directory);
    word(&mut args, "-P");
    word(&mut args, "-F");
    word(&mut args, "#{pane_id}");
    add_env_variables(&mut args, env);
    let ghost before = args.deep_view();
    word(&mut args, command);
    assert(args.deep_view() =~= before + seq![command@]);
    args
}

/// The arguments that open a window in a session and run a command in it.
pub open spec fn create_detached_pane_arguments(
    dest_session: Seq<char>,
    dest_window: usize,
    window_label: Seq<char>,
    command: Seq<char>,
    working_directory: Seq<char>,
    env: Option<Seq<(Seq<char>, Option<Seq<char>>)>>,
) -> Seq<Seq<char>> {
    seq![
        "tmux"@,
        "new-window"@,
        "-d"@,
        "-t"@,
        window_target(dest_session, dest_window),
        "-n"@,
        window_label,
        "-c"@,
        working_directory,
        "-P"@,
        "-F"@,
        "#{pane_id}"@,
    ] + optional_environment_arguments(env) + seq![command]
}

/// Opens a window in another session, runs a command in it, and asks for
/// the id of its pane.
pub fn create_detached_pane(
    dest_session: &str,
    dest_window: usize,
    window_label: &str,
    command: &str,
    working_directory: &str,
    env: &Option<Environment>,
) -> (args: Vec<String>)
    ensures
        args.deep_view() == create_detached_pane_arguments(
            dest_session@,
            dest_window,
            window_label@,
            command@,
            working_directory@,
            env.deep_view(),
        ),
{
    let mut args = program();
    word(&mut args, "new-window");
    word(&mut args, "-d");
    word(&mut args, "-t");
    let target = window_of(dest_session, dest_window);
    word(&mut args, target.as_str());
    word(&mut args, "-n");
    word(&mut args, window_label);
    word(&mut args, "-c");
    word(&mut args, working_directory);
    word(&mut args, "-P");
    word(&mut args, "-F");
    word(&mut args, "#{pane_id}");
    add_env_variables(&mut args, env);
    let ghost before = args.deep_view();
    word(&mut args, command);
    assert(args.deep_view() =~= before + seq![command@]);
    args
}

/// Asks for the pid of the process that runs in a pane.
pub fn get_pane_pid(pane_id: &str) -> (args: Vec<String>)
    ensures
        args.deep_view() == seq![
            "tmux"@,
            "display-message"@,
            "-p"@,
            "-t"@,
            pane_id@,
            "#{pane_pid}"@,
        ],
{
    let mut args = program();
    word(&mut args, "display-message");
    word(&mut args, "-p");
    word(&mut args, "-t");
    word(&mut args, pane_id);
    word(&mut args, "#{pane_pid}");
    args
}

/// Gives a pane the input focus.
pub fn select_pane(pane_id: &str) -> (args: Vec<String>)
    ensures
        args.deep_view() == seq!["tmux"@, "select-pane"@, "-t"@, pane_id@],
{
    let mut args = program();
    word(&mut args, "select-pane");
    word(&mut args, "-t");
    word(&mut args, pane_id);
    args
}

/// The filter that lets one pane through, by its id.
pub open spec fn pane_filter(pane_id: Seq<char>) -> Seq<char> {
    "#{m:"@ + pane_id + ",#{pane_id}}"@
}

/// Asks for variables of one pane, in the given format.
pub fn pane_variables(pane_id: &str, format: &str) -> (args: Vec<String>)
    ensures
        args.deep_view() == seq![
            "tmux"@,
            "list-panes"@,
            "-t"@,
            pane_id@,
            "-f"@,
            pane_filter(pane_id@),
            "-F"@,
            format@,
        ],
{
    let mut args = program();
    word(&mut args, "list-panes");
    word(&mut args, "-t");
    word(&mut args, pane_id);
    word(&mut args, "-f");
    let mut filter = copy_str("#{m:");
    filter.append(pane_id);
    filter.append(",#{pane_id}}");
    word(&mut args, filter.as_str());
    word(&mut args, "-F");
    word(&mut args, format);
    args
}

/// Zooms a pane, or undoes its zoom.
pub fn toggle_zoom(pane_id: &str) -> (args: Vec<String>)
    ensures
        args.deep_view() == seq!["tmux"@, "resize-pane"@, "-Z"@, "-t"@, pane_id@],
{
    let mut args = program();
    word(&mut args, "resize-pane");
    word(&mut args, "-Z");
    word(&mut args, "-t");
    word(&mut args, pane_id);
    args
}

/// Attaches to a session in control mode. The command is to run for as long
/// as the supervisor does, with its input and output piped.
pub fn control_mode(session_id: &str) -> (args: Vec<String>)
    ensures
        args.deep_view() == seq!["tmux"@, "-C"@, "attach-session"@, "-t"@, session_id@],
{
    let mut args = program();
    word(&mut args, "-C");
    word(&mut args, "attach-session");
    word(&mut args, "-t");
    word(&mut args, session_id);
    args
}


/// The arguments that make a pane stay, or not stay, when what runs in it
/// has ended.
pub open spec fn set_remain_on_exit_arguments(pane_id: Seq<char>, on: bool) -> Seq<Seq<char>> {
    seq!["tmux"@, "set-option"@, "-t"@, pane_id, "remain-on-exit"@, on_or_off(on)]
}

/// The arguments that end a session.
pub open spec fn kill_session_arguments(session_id: Seq<char>) -> Seq<Seq<char>> {
    seq!["tmux"@, "kill-session"@, "-t"@, session_id]
}

/// The arguments that move a pane into a window of its own in another
/// session.
pub open spec fn break_pane_arguments(
    pane_id: Seq<char>,
    dest_session: Seq<char>,
    dest_window: usize,
    window_label: Seq<char>,
) -> Seq<Seq<char>> {
    seq![
        "tmux"@,
        "break-pane"@,
        "-d"@,
        "-s"@,
        pane_id,
        "-t"@,
        window_target(dest_session, dest_window),
        "-n"@,
        window_label,
    ]
}

/// The arguments that move a pane beside another one.
pub open spec fn join_pane_arguments(target_pane: Seq<char>, dest_pane: Seq<char>) -> Seq<
    Seq<char>,
> {
    seq![
        "tmux"@,
        "join-pane"@,
        "-d"@,
        "-h"@,
        "-l"@,
        "70%"@,
        "-s"@,
        target_pane,
        "-t"@,
        dest_pane,
    ]
}

/// The arguments that end a pane.
pub open spec fn kill_pane_arguments(pane_id: Seq<char>) -> Seq<Seq<char>> {
    seq!["tmux"@, "kill-pane"@, "-t"@, pane_id]
}

/// The arguments that ask for the pid of the process in a pane.
pub open spec fn get_pane_pid_arguments(pane_id: Seq<char>) -> Seq<Seq<char>> {
    seq!["tmux"@, "display-message"@, "-p"@, "-t"@, pane_id, "#{pane_pid}"@]
}

/// The arguments that give a pane the input focus.
pub open spec fn select_pane_arguments(pane_id: Seq<char>) -> Seq<Seq<char>> {
    seq!["tmux"@, "select-pane"@, "-t"@, pane_id]
}

} // verus!
