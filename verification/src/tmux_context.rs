//! The panes and sessions that the supervisor owns: its own pane, its own
//! session, and the detached session that holds the panes not on show.

use vstd::prelude::*;
use crate::error::{Error, ErrorView};
use crate::process::{command_text, Process};
use crate::text::{
    chars_of, copy_str, parse_i32, parse_signed, pieces, same_chars, same_text, split, split_seq,
};
use crate::tmux;
use crate::tmux::{
    create_detached_pane_arguments, create_pane_arguments, outcome_view, read_bytes, reply_text,
    text_result_view, window_target, CommandOutput, CommandOutputView,
};

verus! {

/// The identifiers that last as long as the supervisor runs.
#[derive(Debug, PartialEq, Eq)]
pub struct TmuxContext {
    /// The pane that the supervisor itself runs in.
    pub pane_id: String,
    /// The session that the supervisor runs in.
    pub session_id: String,
    /// The session that holds the panes not on show.
    pub detached_session_id: String,
}

/// A [`TmuxContext`] with its texts as sequences of characters.
pub struct TmuxContextView {
    pub pane_id: Seq<char>,
    pub session_id: Seq<char>,
    pub detached_session_id: Seq<char>,
}

impl View for TmuxContext {
    type V = TmuxContextView;

    open spec fn view(&self) -> TmuxContextView {
        TmuxContextView {
            pane_id: self.pane_id@,
            session_id: self.session_id@,
            detached_session_id: self.detached_session_id@,
        }
    }
}

impl Clone for TmuxContext {
    fn clone(&self) -> (r: Self)
        ensures
            r@ == self@,
    {
        TmuxContext {
            pane_id: self.pane_id.clone(),
            session_id: self.session_id.clone(),
            detached_session_id: self.detached_session_id.clone(),
        }
    }
}

/// What is to be done next to set up the context.
#[derive(Debug, PartialEq, Eq)]
pub enum Setup {
    /// Run this command and come back with its outcome added to the others.
    Run(Vec<String>),
    /// The context is set up.
    Ready(TmuxContext),
    /// The context cannot be set up.
    Failed(Error),
}

/// A [`Setup`] with its texts as sequences of characters.
pub enum SetupView {
    Run(Seq<Seq<char>>),
    Ready(TmuxContextView),
    Failed(ErrorView),
}

impl View for Setup {
    type V = SetupView;

    open spec fn view(&self) -> SetupView {
        match self {
            Setup::Run(args) => SetupView::Run(args.deep_view()),
            Setup::Ready(c) => SetupView::Ready(c@),
            Setup::Failed(e) => SetupView::Failed(e@),
        }
    }
}

/// The views of the outcomes of commands.
pub open spec fn outcome_views(replies: Seq<Result<CommandOutput, String>>) -> Seq<
    Result<CommandOutputView, Seq<char>>,
> {
    Seq::new(replies.len(), |i: int| outcome_view(replies[i]))
}

/// The message that refuses to take over a session that exists.
pub open spec fn session_exists_message(name: Seq<char>) -> Seq<char> {
    "Session '"@ + name + "' already exists"@
}

/// The last step of the setup: the detached session is created, and its id
/// completes the context.
pub open spec fn setup_create(
    name: Seq<char>,
    pane_id: Seq<char>,
    session_id: Seq<char>,
    rest: Seq<Result<CommandOutputView, Seq<char>>>,
) -> SetupView {
    if rest.len() == 0 {
        SetupView::Run(
            seq!["tmux"@, "new-session"@, "-d"@, "-s"@, name, "-P"@, "-F"@, "#{session_id}"@],
        )
    } else {
        match reply_text(rest[0]) {
            Ok(id) => SetupView::Ready(
                TmuxContextView { pane_id, session_id, detached_session_id: id },
            ),
            Err(e) => SetupView::Failed(e),
        }
    }
}

/// What is to be done next to set up the context, given the outcomes of the
/// commands run so far, in their order. The supervisor's pane and session
/// are asked for, then the names of the sessions. A session that already has
/// the name of the detached session is ended if that is allowed, and is a
/// configuration error if it is not. Then the detached session is created.
/// A command that fails ends the setup with its error.
pub open spec fn setup_step(
    name: Seq<char>,
    kill_existing_session: bool,
    replies: Seq<Result<CommandOutputView, Seq<char>>>,
) -> SetupView {
    if replies.len() == 0 {
        SetupView::Run(seq!["tmux"@, "display-message"@, "-p"@, "#{pane_id}"@])
    } else {
        match reply_text(replies[0]) {
            Err(e) => SetupView::Failed(e),
            Ok(pane_id) => if replies.len() == 1 {
                SetupView::Run(seq!["tmux"@, "display-message"@, "-p"@, "#{session_id}"@])
            } else {
                match reply_text(replies[1]) {
                    Err(e) => SetupView::Failed(e),
                    Ok(session_id) => if replies.len() == 2 {
                        SetupView::Run(
                            seq!["tmux"@, "list-sessions"@, "-F"@, "#{session_name}"@],
                        )
                    } else {
                        match reply_text(replies[2]) {
                            Err(e) => SetupView::Failed(e),
                            Ok(listing) => if !split_seq(listing, '\n').contains(name) {
                                setup_create(name, pane_id, session_id, replies.skip(3))
                            } else if !kill_existing_session {
                                SetupView::Failed(
                                    ErrorView::Config(session_exists_message(name)),
                                )
                            } else if replies.len() == 3 {
                                SetupView::Run(seq!["tmux"@, "kill-session"@, "-t"@, name])
                            } else {
                                match reply_text(replies[3]) {
                                    Err(e) => SetupView::Failed(e),
                                    Ok(_) => setup_create(
                                        name,
                                        pane_id,
                                        session_id,
                                        replies.skip(4),
                                    ),
                                }
                            },
                        }
                    },
                }
            },
        }
    }
}

fn clone_output(o: &CommandOutput) -> (r: CommandOutput)
    ensures
        r@ == o@,
{
    CommandOutput { success: o.success, stdout: o.stdout.clone(), stderr: o.stderr.clone() }
}

/// A copy of the outcome of a command.
pub fn clone_outcome(o: &Result<CommandOutput, String>) -> (r: Result<CommandOutput, String>)
    ensures
        outcome_view(r) == outcome_view(*o),
{
    match o {
        Ok(out) => Ok(clone_output(out)),
        Err(reason) => Err(reason.clone()),
    }
}

fn read_reply(replies: &Vec<Result<CommandOutput, String>>, i: usize) -> (r: Result<String, Error>)
    requires
        i < replies.len(),
    ensures
        text_result_view(r) == reply_text(outcome_views(replies@)[i as int]),
{
    read_bytes(clone_outcome(&replies[i]))
}

fn has_line(listing: &str, name: &str) -> (r: bool)
    ensures
        r == split_seq(listing@, '\n').contains(name@),
{
    let lines = split(&chars_of(listing), '\n');
    let wanted = chars_of(name);
    let mut i: usize = 0;
    while i < lines.len()
        invariant
            i <= lines.len(),
            pieces(lines@) == split_seq(listing@, '\n'),
            wanted@ == name@,
            forall|k: int| 0 <= k < i ==> pieces(lines@)[k] != name@,
        decreases lines.len() - i,
    {
        if same_chars(&lines[i], &wanted) {
            assert(pieces(lines@)[i as int] == name@);
            return true;
        }
        i += 1;
    }
    false
}

fn create_step(
    name: &str,
    pane_id: String,
    session_id: String,
    replies: &Vec<Result<CommandOutput, String>>,
    from: usize,
) -> (r: Setup)
    requires
        from <= replies.len(),
    ensures
        r@ == setup_create(name@, pane_id@, session_id@, outcome_views(replies@).skip(from as int)),
{
    if replies.len() == from {
        Setup::Run(tmux::start_detached_session(name))
    } else {
        assert(outcome_views(replies@).skip(from as int)[0] == outcome_views(
            replies@,
        )[from as int]);
        match read_reply(replies, from) {
            Ok(id) => Setup::Ready(TmuxContext { pane_id, session_id, detached_session_id: id }),
            Err(e) => Setup::Failed(e),
        }
    }
}

impl TmuxContext {
    /// What is to be done next to set up the context for the detached
    /// session of the given name, given the outcomes of the commands run so
    /// far: the next command, the finished context, or the error that ends
    /// the setup.
    pub fn new(
        detached_session: &str,
        kill_existing_session: bool,
        replies: &Vec<Result<CommandOutput, String>>,
    ) -> (r: Setup)
        ensures
            r@ == setup_step(detached_session@, kill_existing_session, outcome_views(replies@)),
    {
        let n = replies.len();
        if n == 0 {
            return Setup::Run(tmux::current_pane());
        }
        let pane_id = match read_reply(replies, 0) {
            Ok(val) => val,
            Err(e) => {
                return Setup::Failed(e);
            },
        };
        if n == 1 {
            return Setup::Run(tmux::current_session());
        }
        let session_id = match read_reply(replies, 1) {
            Ok(val) => val,
            Err(e) => {
                return Setup::Failed(e);
            },
        };
        if n == 2 {
            return Setup::Run(tmux::list_sessions());
        }
        let listing = match read_reply(replies, 2) {
            Ok(val) => val,
            Err(e) => {
                return Setup::Failed(e);
            },
        };
        if !has_line(listing.as_str(), detached_session) {
            return create_step(detached_session, pane_id, session_id, replies, 3);
        }
        if !kill_existing_session {
            let mut m = copy_str("Session '");
            m.append(detached_session);
            m.append("' already exists");
            return Setup::Failed(Error::Config(m));
        }
        if n == 3 {
            return Setup::Run(tmux::kill_session(detached_session));
        }
        match read_reply(replies, 3) {
            Ok(_) => create_step(detached_session, pane_id, session_id, replies, 4),
            Err(e) => Setup::Failed(e),
        }
    }

    /// The command that makes the supervisor's pane stay when what runs in
    /// it ends.
    pub fn prepare(&self) -> (args: Vec<String>)
        ensures
            args.deep_view() == seq![
                "tmux"@,
                "set-option"@,
                "-t"@,
                self@.pane_id,
                "remain-on-exit"@,
                "on"@,
            ],
    {
        tmux::set_remain_on_exit(self.pane_id.as_str(), true)
    }

    /// The commands that undo the setup, in their order: the detached
    /// session is ended, and the supervisor's pane no longer stays.
    pub fn cleanup(&self) -> (r: (Vec<String>, Vec<String>))
        ensures
            r.0.deep_view() == seq!["tmux"@, "kill-session"@, "-t"@, self@.detached_session_id],
            r.1.deep_view() == seq![
                "tmux"@,
                "set-option"@,
                "-t"@,
                self@.pane_id,
                "remain-on-exit"@,
                "off"@,
            ],
    {
        (
            tmux::kill_session(self.detached_session_id.as_str()),
            tmux::set_remain_on_exit(self.pane_id.as_str(), false),
        )
    }

    /// The commands that put a pane away, in their order: the pane is moved
    /// to a window of the detached session, and is made to stay when what
    /// runs in it ends, which the move undoes.
    pub fn break_pane(&self, pane_id: &str, dest_window: usize, window_label: &str) -> (r: (
        Vec<String>,
        Vec<String>,
    ))
        ensures
            r.0.deep_view() == seq![
                "tmux"@,
                "break-pane"@,
                "-d"@,
                "-s"@,
                pane_id@,
                "-t"@,
                window_target(self@.detached_session_id, dest_window),
                "-n"@,
                window_label@,
            ],
            r.1.deep_view() == seq![
                "tmux"@,
                "set-option"@,
                "-t"@,
                pane_id@,
                "remain-on-exit"@,
                "on"@,
            ],
    {
        (
            tmux::break_pane(pane_id, self.detached_session_id.as_str(), dest_window, window_label),
            tmux::set_remain_on_exit(pane_id, true),
        )
    }

    /// The command that shows a pane beside the supervisor's pane.
    pub fn join_pane(&self, pane_id: &str) -> (args: Vec<String>)
        ensures
            args.deep_view() == seq![
                "tmux"@,
                "join-pane"@,
                "-d"@,
                "-h"@,
                "-l"@,
                "70%"@,
                "-s"@,
                pane_id@,
                "-t"@,
                self@.pane_id,
            ],
    {
        tmux::join_pane(pane_id, self.pane_id.as_str())
    }

    /// The command that starts a process in a pane beside the supervisor's
    /// pane.
    pub fn create_pane(&self, process: &Process) -> (args: Vec<String>)
        ensures
            args.deep_view() == create_pane_arguments(
                self@.pane_id,
                command_text(process@.config),
                process@.config.cwd,
                process@.config.env,
            ),
    {
        let command = process.command();
        tmux::create_pane(
            self.pane_id.as_str(),
            command.as_str(),
            process.config.cwd.as_str(),
            &process.config.env,
        )
    }

    /// The command that asks for the pid of the process in a pane.
    pub fn get_pane_pid(&self, pane_id: &str) -> (args: Vec<String>)
        ensures
            args.deep_view() == seq![
                "tmux"@,
                "display-message"@,
                "-p"@,
                "-t"@,
                pane_id@,
                "#{pane_pid}"@,
            ],
    {
        tmux::get_pane_pid(pane_id)
    }

    /// The command that starts a process in a window of its own in the
    /// detached session, numbered by the process's id and named by its
    /// label.
    pub fn create_detached_pane(&self, process: &Process) -> (args: Vec<String>)
        ensures
            args.deep_view() == create_detached_pane_arguments(
                self@.detached_session_id,
                process@.id,
                process@.label,
                command_text(process@.config),
                process@.config.cwd,
                process@.config.env,
            ),
    {
        let command = process.command();
        tmux::create_detached_pane(
            self.detached_session_id.as_str(),
            process.id,
            process.label.as_str(),
            command.as_str(),
            process.config.cwd.as_str(),
            &process.config.env,
        )
    }

    /// The command that gives a pane the input focus.
    pub fn select_pane(&self, pane_id: &str) -> (args: Vec<String>)
        ensures
            args.deep_view() == seq!["tmux"@, "select-pane"@, "-t"@, pane_id@],
    {
        tmux::select_pane(pane_id)
    }

    /// The command that asks whether the supervisor's pane is zoomed and
    /// active.
    pub fn zoom_query(&self) -> (args: Vec<String>)
        ensures
            args.deep_view() == seq![
                "tmux"@,
                "list-panes"@,
                "-t"@,
                self@.pane_id,
                "-f"@,
                tmux::pane_filter(self@.pane_id),
                "-F"@,
                "#{window_zoomed_flag} #{pane_active}"@,
            ],
    {
        tmux::pane_variables(self.pane_id.as_str(), "#{window_zoomed_flag} #{pane_active}")
    }

    /// Whether the answer to the zoom query says that the supervisor's pane
    /// is zoomed and active. A query that failed says that it is not.
    pub fn is_zoomed_in(&self, reply: Result<CommandOutput, String>) -> (r: bool)
        ensures
            r == says_zoomed(outcome_view(reply)),
    {
        match read_bytes(reply) {
            Ok(text) => same_text(text.as_str(), "1 1"),
            Err(_) => false,
        }
    }

    /// The command that zooms the supervisor's pane, if the answer to the
    /// zoom query says that it is not zoomed.
    pub fn zoom_in(&self, reply: Result<CommandOutput, String>) -> (r: Option<Vec<String>>)
        ensures
            r.deep_view() == if says_zoomed(outcome_view(reply)) {
                None
            } else {
                Some(seq!["tmux"@, "resize-pane"@, "-Z"@, "-t"@, self@.pane_id])
            },
    {
        if !self.is_zoomed_in(reply) {
            Some(self.toggle_zoom())
        } else {
            None
        }
    }

    /// The command that undoes the zoom of the supervisor's pane, if the
    /// answer to the zoom query says that it is zoomed.
    pub fn zoom_out(&self, reply: Result<CommandOutput, String>) -> (r: Option<Vec<String>>)
        ensures
            r.deep_view() == if says_zoomed(outcome_view(reply)) {
                Some(seq!["tmux"@, "resize-pane"@, "-Z"@, "-t"@, self@.pane_id])
            } else {
                None
            },
    {
        if self.is_zoomed_in(reply) {
            Some(self.toggle_zoom())
        } else {
            None
        }
    }

    /// The command that zooms the supervisor's pane, or undoes its zoom.
    pub fn toggle_zoom(&self) -> (args: Vec<String>)
        ensures
            args.deep_view() == seq!["tmux"@, "resize-pane"@, "-Z"@, "-t"@, self@.pane_id],
    {
        tmux::toggle_zoom(self.pane_id.as_str())
    }
}

/// Whether the answer to the zoom query is `1 1`: zoomed, and active.
pub open spec fn says_zoomed(reply: Result<CommandOutputView, Seq<char>>) -> bool {
    match reply_text(reply) {
        Ok(text) => text == "1 1"@,
        Err(_) => false,
    }
}

/// The message that tells of an answer to a pid query that is no number.
pub open spec fn not_a_pid_message(text: Seq<char>) -> Seq<char> {
    "Not a pid: "@ + text
}

/// The pid that a text gives, or the parse error.
pub open spec fn pid_of_text(text: Seq<char>) -> Result<i32, ErrorView> {
    match parse_signed(text, -0x8000_0000, 0x7fff_ffff) {
        Some(v) => Ok(v as i32),
        None => Err(ErrorView::MuxParse(not_a_pid_message(text))),
    }
}

/// The pid that the answer to a pid query gives: a parse error if the answer
/// is no number, and the error of the query if it failed.
pub open spec fn pid_of_reply(reply: Result<CommandOutputView, Seq<char>>) -> Result<
    i32,
    ErrorView,
> {
    match reply_text(reply) {
        Ok(text) => pid_of_text(text),
        Err(e) => Err(e),
    }
}

/// The view of a pid or an error.
pub open spec fn pid_result_view(r: Result<i32, Error>) -> Result<i32, ErrorView> {
    match r {
        Ok(p) => Ok(p),
        Err(e) => Err(e@),
    }
}

/// Reads a pid from the cleaned text of an answer.
pub fn parse_pid(text: &str) -> (r: Result<i32, Error>)
    ensures
        pid_result_view(r) == pid_of_text(text@),
{
    match parse_i32(&chars_of(text)) {
        Some(v) => Ok(v),
        None => {
            let mut m = copy_str("Not a pid: ");
            m.append(text);
            Err(Error::MuxParse(m))
        },
    }
}

/// Reads the answer to a pid query.
pub fn read_pane_pid(reply: Result<CommandOutput, String>) -> (r: Result<i32, Error>)
    ensures
        pid_result_view(r) == pid_of_reply(outcome_view(reply)),
{
    match read_bytes(reply) {
        Ok(text) => parse_pid(text.as_str()),
        Err(e) => Err(e),
    }
}

} // verus!
