//! The supervisor: it holds the state, takes the user's commands and the
//! notices of dead processes, and says step by step what is to be asked of
//! the multiplexer and of the operating system, and what each answer does
//! to the state.

use vstd::prelude::*;
use crate::config::clone_optional_string;
use crate::error::{error_text, Error, ErrorView};
use crate::gui_state::{GUIState, GUIStateMutation, GUIStateView};
use crate::input::{Command, CommandView};
use crate::invariants::{
    consistent, lemma_command_keeps_invariant, lemma_death_keeps_invariant,
    lemma_exit_keeps_invariant, lemma_reply_keeps_invariant, lemma_startup_keeps_invariant,
    new_pane_is_new, obeys, Rule,
};
use crate::process::{command_text, ProcessStatus, ProcessView};
use crate::state::{
    filtered_processes, ids_of, process_by_id, process_by_pid, selection_after_move, with_pane,
    with_pid, with_status, Mutator, State, StateMutation, StateView,
};
use crate::text::copy_str;
use crate::tmux::{
    break_pane_arguments, create_detached_pane_arguments, create_pane_arguments,
    get_pane_pid_arguments, join_pane_arguments, kill_pane_arguments, kill_session_arguments,
    read_bytes, reply_text, select_pane_arguments, set_remain_on_exit_arguments,
    text_result_view, CommandOutput, CommandOutputView,
};
use crate::tmux_context::{
    parse_pid, pid_of_text, pid_result_view, TmuxContext, TmuxContextView,
};

verus! {

/// Something that the supervisor asks to be done outside of it.
#[derive(Debug, PartialEq, Eq)]
pub enum Request {
    /// Run the multiplexer with these arguments, the program first.
    Mux(Vec<String>),
    /// Send a signal to a process.
    Signal { pid: i32, signal: i32 },
    /// Draw the state on the screen.
    Draw,
}

/// A [`Request`] with its texts as sequences of characters.
pub enum RequestView {
    Mux(Seq<Seq<char>>),
    Signal { pid: i32, signal: i32 },
    Draw,
}

impl View for Request {
    type V = RequestView;

    open spec fn view(&self) -> RequestView {
        match self {
            Request::Mux(args) => RequestView::Mux(args.deep_view()),
            Request::Signal { pid, signal } => RequestView::Signal { pid: *pid, signal: *signal },
            Request::Draw => RequestView::Draw,
        }
    }
}

impl DeepView for Request {
    type V = RequestView;

    open spec fn deep_view(&self) -> RequestView {
        self@
    }
}

/// What came of a request.
#[derive(Debug, PartialEq, Eq)]
pub enum Reply {
    /// The multiplexer was run.
    Output(CommandOutput),
    /// The request could not be carried out, for the reason given.
    Failure(String),
    /// The signal was sent.
    Delivered,
    /// The signal was not sent: there is no process with that pid.
    PidGone,
    /// The screen was drawn.
    Drawn,
}

/// A [`Reply`] with its texts as sequences of characters.
pub enum ReplyView {
    Output(CommandOutputView),
    Failure(Seq<char>),
    Delivered,
    PidGone,
    Drawn,
}

impl View for Reply {
    type V = ReplyView;

    open spec fn view(&self) -> ReplyView {
        match self {
            Reply::Output(o) => ReplyView::Output(o@),
            Reply::Failure(m) => ReplyView::Failure(m@),
            Reply::Delivered => ReplyView::Delivered,
            Reply::PidGone => ReplyView::PidGone,
            Reply::Drawn => ReplyView::Drawn,
        }
    }
}

/// What the supervisor says after a command or a reply.
#[derive(Debug, PartialEq, Eq)]
pub enum Step {
    /// Carry out the request and come back with the reply.
    Request(Request),
    /// Nothing more is to be done.
    Done,
    /// The supervisor cannot go on.
    Fatal(Error),
}

/// A [`Step`] with its texts as sequences of characters.
pub enum StepView {
    Request(RequestView),
    Done,
    Fatal(ErrorView),
}

impl View for Step {
    type V = StepView;

    open spec fn view(&self) -> StepView {
        match self {
            Step::Request(r) => StepView::Request(r@),
            Step::Done => StepView::Done,
            Step::Fatal(e) => StepView::Fatal(e@),
        }
    }
}

/// Over which processes the work in hand runs.
#[derive(Clone, Copy, Debug, PartialEq, Eq, Structural)]
pub enum Kind {
    /// No list of processes.
    Single,
    /// The processes that are started with the supervisor.
    Startup,
    /// The processes that are stopped when the user quits.
    Quit,
    /// The processes whose panes are ended with the supervisor.
    Exit,
}

/// The reply that the supervisor waits for.
#[derive(Debug, PartialEq, Eq)]
pub enum Phase {
    /// None: no work is in hand.
    Idle,
    /// That the supervisor's pane has been made to stay.
    Preparing,
    /// That the pane left by an earlier run of the process has been ended.
    KillingStalePane { id: usize, focus: bool },
    /// The id of the pane that the process was started in.
    Creating { id: usize, detached: bool, focus: bool },
    /// That the new pane has been made to stay.
    MarkingPane { id: usize, pane: String, focus: bool },
    /// The pid of the process in the new pane.
    ReadingPid { id: usize, pane: String, focus: bool },
    /// That the new pane has been given the focus.
    Focusing,
    /// What came of the signal.
    Signalling { id: usize },
    /// That the pane on show has been put away.
    Breaking { pane: String, forward: bool },
    /// That the pane put away has been made to stay.
    Remarking { forward: bool, break_error: Option<String> },
    /// That the pane of the selected process has been put on show.
    Joining,
    /// That the pane of the selected process has been given the focus.
    SwitchingFocus,
    /// That the supervisor's pane has been given the focus.
    Refocusing,
    /// That the pane of a halted process has been ended.
    KillingPane { id: usize },
    /// That the screen has been drawn.
    Drawing { exit: bool },
    /// That the detached session has been ended.
    KillingSession,
    /// That the supervisor's pane no longer stays.
    Unmarking,
}

/// A [`Phase`] with its texts as sequences of characters.
pub enum PhaseView {
    Idle,
    Preparing,
    KillingStalePane { id: usize, focus: bool },
    Creating { id: usize, detached: bool, focus: bool },
    MarkingPane { id: usize, pane: Seq<char>, focus: bool },
    ReadingPid { id: usize, pane: Seq<char>, focus: bool },
    Focusing,
    Signalling { id: usize },
    Breaking { pane: Seq<char>, forward: bool },
    Remarking { forward: bool, break_error: Option<Seq<char>> },
    Joining,
    SwitchingFocus,
    Refocusing,
    KillingPane { id: usize },
    Drawing { exit: bool },
    KillingSession,
    Unmarking,
}

impl View for Phase {
    type V = PhaseView;

    open spec fn view(&self) -> PhaseView {
        match self {
            Phase::Idle => PhaseView::Idle,
            Phase::Preparing => PhaseView::Preparing,
            Phase::KillingStalePane { id, focus } => PhaseView::KillingStalePane {
                id: *id,
                focus: *focus,
            },
            Phase::Creating { id, detached, focus } => PhaseView::Creating {
                id: *id,
                detached: *detached,
                focus: *focus,
            },
            Phase::MarkingPane { id, pane, focus } => PhaseView::MarkingPane {
                id: *id,
                pane: pane@,
                focus: *focus,
            },
            Phase::ReadingPid { id, pane, focus } => PhaseView::ReadingPid {
                id: *id,
                pane: pane@,
                focus: *focus,
            },
            Phase::Focusing => PhaseView::Focusing,
            Phase::Signalling { id } => PhaseView::Signalling { id: *id },
            Phase::Breaking { pane, forward } => PhaseView::Breaking {
                pane: pane@,
                forward: *forward,
            },
            Phase::Remarking { forward, break_error } => PhaseView::Remarking {
                forward: *forward,
                break_error: break_error.deep_view(),
            },
            Phase::Joining => PhaseView::Joining,
            Phase::SwitchingFocus => PhaseView::SwitchingFocus,
            Phase::Refocusing => PhaseView::Refocusing,
            Phase::KillingPane { id } => PhaseView::KillingPane { id: *id },
            Phase::Drawing { exit } => PhaseView::Drawing { exit: *exit },
            Phase::KillingSession => PhaseView::KillingSession,
            Phase::Unmarking => PhaseView::Unmarking,
        }
    }
}

impl DeepView for Phase {
    type V = PhaseView;

    open spec fn deep_view(&self) -> PhaseView {
        self@
    }
}

/// The supervisor.
#[derive(Debug, PartialEq, Eq)]
pub struct Controller {
    /// The state as it was last committed.
    pub state: State,
    pub tmux_context: TmuxContext,
    /// Cleared when the user has quit and every process has halted.
    pub running: bool,
    /// The reply that is waited for.
    pub phase: Phase,
    /// Over which processes the work in hand runs.
    pub kind: Kind,
    /// The state that the work in hand is building.
    pub draft: State,
    /// The ids of the processes that the work in hand has yet to come to.
    pub queue: Vec<usize>,
}

/// A [`Controller`] with its texts as sequences of characters.
pub struct ControllerView {
    pub state: StateView,
    pub tmux_context: TmuxContextView,
    pub running: bool,
    pub phase: PhaseView,
    pub kind: Kind,
    pub draft: StateView,
    pub queue: Seq<usize>,
}

impl View for Controller {
    type V = ControllerView;

    open spec fn view(&self) -> ControllerView {
        ControllerView {
            state: self.state@,
            tmux_context: self.tmux_context@,
            running: self.running,
            phase: self.phase@,
            kind: self.kind,
            draft: self.draft@,
            queue: self.queue@,
        }
    }
}

/// What a reply to a command of the multiplexer says: the cleaned output, or
/// the error. A reply of another kind counts as a failure.
pub open spec fn mux_reply(reply: ReplyView) -> Result<Seq<char>, ErrorView> {
    match reply {
        ReplyView::Output(o) => reply_text(Ok(o)),
        ReplyView::Failure(m) => Err(ErrorView::MuxInvocation(m)),
        _ => Err(ErrorView::MuxInvocation("Unexpected reply"@)),
    }
}

/// The state with one more message for the user.
pub open spec fn with_message(s: StateView, m: Seq<char>) -> StateView {
    StateView {
        gui_state: GUIStateView { messages: s.gui_state.messages.push(m), ..s.gui_state },
        ..s
    }
}

/// The state with the error of a reply, if it has one, made a message.
pub open spec fn noting(s: StateView, reply: ReplyView) -> StateView {
    match mux_reply(reply) {
        Ok(_) => s,
        Err(e) => with_message(s, error_text(e)),
    }
}

/// Whether every process is halted.
pub open spec fn all_halted(ps: Seq<ProcessView>) -> bool {
    forall|i: int| 0 <= i < ps.len() ==> (#[trigger] ps[i]).status == ProcessStatus::Halted
}

/// Whether the supervisor goes on running with the given state: not once
/// the user has quit and every process is halted.
pub open spec fn still_running(running: bool, s: StateView) -> bool {
    running && !(s.exiting && all_halted(s.processes))
}

/// Which processes a piece of work runs over.
#[derive(Clone, Copy, Debug, PartialEq, Eq, Structural)]
pub enum Pick {
    /// Those that are started with the supervisor.
    Autostart,
    /// Those that are halted.
    Halted,
    /// Those that are not halted.
    Live,
}

/// Whether a process is one of those picked.
pub open spec fn picks(pick: Pick, p: ProcessView) -> bool {
    match pick {
        Pick::Autostart => p.config.autostart,
        Pick::Halted => p.status == ProcessStatus::Halted,
        Pick::Live => p.status != ProcessStatus::Halted,
    }
}

/// The ids of the processes that are picked, in the order of the catalog.
pub open spec fn picked_ids(ps: Seq<ProcessView>, pick: Pick) -> Seq<usize>
    decreases ps.len(),
{
    if ps.len() == 0 {
        Seq::<usize>::empty()
    } else if picks(pick, ps.last()) {
        picked_ids(ps.drop_last(), pick).push(ps.last().id)
    } else {
        picked_ids(ps.drop_last(), pick)
    }
}

/// The processes after the one with the given id has been started in a
/// pane, under a pid.
pub open spec fn started(ps: Seq<ProcessView>, id: usize, pane: Seq<char>, pid: i32) -> Seq<
    ProcessView,
> {
    with_pid(with_pane(with_status(ps, id, ProcessStatus::Running), id, Some(pane)), id, Some(pid))
}

/// The processes after the one with the given id has ended.
pub open spec fn terminated(ps: Seq<ProcessView>, id: usize) -> Seq<ProcessView> {
    with_pid(with_status(ps, id, ProcessStatus::Halted), id, None)
}

/// The pid that a reply to a pid query gives, or the error.
pub open spec fn pid_reply(reply: ReplyView) -> Result<i32, ErrorView> {
    match mux_reply(reply) {
        Ok(text) => pid_of_text(text),
        Err(e) => Err(e),
    }
}

/// The state with the reason why a signal could not be sent, if there is
/// one, made a message.
pub open spec fn noting_signal(s: StateView, reply: ReplyView) -> StateView {
    match reply {
        ReplyView::Failure(m) => with_message(s, m),
        _ => s,
    }
}

/// The pane of the first process with the given id, if it has one.
pub open spec fn pane_of(ps: Seq<ProcessView>, id: usize) -> Option<Seq<char>> {
    match process_by_id(ps, id) {
        Some(p) => p.pane_id,
        None => None,
    }
}

/// The work in hand comes to its end: the state that it has built is
/// committed, the supervisor stops running if the user has quit and every
/// process is halted, and the screen is to be drawn.
pub open spec fn finish(c: ControllerView) -> (ControllerView, StepView) {
    (
        ControllerView {
            state: c.draft,
            running: still_running(c.running, c.draft),
            phase: PhaseView::Drawing { exit: c.kind == Kind::Exit },
            ..c
        },
        StepView::Request(RequestView::Draw),
    )
}

/// The work in hand is given up: what it has built is dropped, the user is
/// told why, and the screen is to be drawn.
pub open spec fn abort(c: ControllerView, message: Seq<char>) -> (ControllerView, StepView) {
    (
        ControllerView {
            state: with_message(c.state, message),
            running: still_running(c.running, with_message(c.state, message)),
            phase: PhaseView::Drawing { exit: false },
            ..c
        },
        StepView::Request(RequestView::Draw),
    )
}

/// The request that starts a process, if it is halted: in a pane on show if
/// it is the selected process, else in a window of the detached session.
pub open spec fn start_request(
    context: TmuxContextView,
    s: StateView,
    id: usize,
    focus: bool,
) -> Option<(PhaseView, RequestView)> {
    match process_by_id(s.processes, id) {
        None => None,
        Some(p) => if p.status != ProcessStatus::Halted {
            None
        } else if p.id == s.current_proc_id {
            Some(
                (
                    PhaseView::Creating { id, detached: false, focus },
                    RequestView::Mux(
                        create_pane_arguments(
                            context.pane_id,
                            command_text(p.config),
                            p.config.cwd,
                            p.config.env,
                        ),
                    ),
                ),
            )
        } else {
            Some(
                (
                    PhaseView::Creating { id, detached: true, focus },
                    RequestView::Mux(
                        create_detached_pane_arguments(
                            context.detached_session_id,
                            p.id,
                            p.label,
                            command_text(p.config),
                            p.config.cwd,
                            p.config.env,
                        ),
                    ),
                ),
            )
        },
    }
}

/// The request that stops a process, if it is running and its pid is known:
/// its stop signal is sent to it.
pub open spec fn halt_request(s: StateView, id: usize) -> Option<(PhaseView, RequestView)> {
    match process_by_id(s.processes, id) {
        Some(p) => if p.status == ProcessStatus::Running && p.pid.is_some() {
            Some(
                (
                    PhaseView::Signalling { id },
                    RequestView::Signal { pid: p.pid.unwrap(), signal: p.config.stop },
                ),
            )
        } else {
            None
        },
        None => None,
    }
}

/// The request that ends the pane of a process, if it is halted and has
/// one.
pub open spec fn kill_request(s: StateView, id: usize) -> Option<(PhaseView, RequestView)> {
    match process_by_id(s.processes, id) {
        Some(p) => if p.status == ProcessStatus::Halted && p.pane_id.is_some() {
            Some(
                (
                    PhaseView::KillingPane { id },
                    RequestView::Mux(kill_pane_arguments(p.pane_id.unwrap())),
                ),
            )
        } else {
            None
        },
        None => None,
    }
}

/// The request that the work in hand makes for one process of its list.
pub open spec fn unit_request(c: ControllerView, id: usize) -> Option<(PhaseView, RequestView)> {
    match c.kind {
        Kind::Startup => start_request(c.tmux_context, c.draft, id, false),
        Kind::Quit => halt_request(c.draft, id),
        Kind::Exit => kill_request(c.draft, id),
        Kind::Single => None,
    }
}

/// The work in hand goes on: with the first process of its list for which
/// there is something to ask; if there is none, it comes to its end.
pub open spec fn next_unit(c: ControllerView) -> (ControllerView, StepView)
    decreases c.queue.len(),
{
    if c.queue.len() == 0 {
        finish(c)
    } else {
        let rest = ControllerView { queue: c.queue.skip(1), ..c };
        match unit_request(rest, c.queue[0]) {
            Some((phase, request)) => (
                ControllerView { phase, ..rest },
                StepView::Request(request),
            ),
            None => next_unit(rest),
        }
    }
}

/// The request is made, if there is one; else the work in hand goes on.
pub open spec fn begin_unit(c: ControllerView, request: Option<(PhaseView, RequestView)>) -> (
    ControllerView,
    StepView,
) {
    match request {
        Some((phase, r)) => (ControllerView { phase, ..c }, StepView::Request(r)),
        None => next_unit(c),
    }
}

/// The selection moves, and the pane of the newly selected process, if it
/// has one, is put on show.
pub open spec fn move_and_join(c: ControllerView, forward: bool) -> (ControllerView, StepView) {
    let d = StateView {
        current_proc_id: selection_after_move(
            ids_of(filtered_processes(c.draft)),
            c.draft.current_proc_id,
            forward,
        ),
        ..c.draft
    };
    let moved = ControllerView { draft: d, ..c };
    match pane_of(d.processes, d.current_proc_id) {
        Some(pane) => (
            ControllerView { phase: PhaseView::Joining, ..moved },
            StepView::Request(
                RequestView::Mux(join_pane_arguments(pane, c.tmux_context.pane_id)),
            ),
        ),
        None => finish(moved),
    }
}

/// The supervisor with new work in hand, on a draft of its state.
pub open spec fn taking_up(
    c: ControllerView,
    kind: Kind,
    draft: StateView,
    queue: Seq<usize>,
) -> ControllerView {
    ControllerView { kind, draft, queue, ..c }
}

/// Startup: the supervisor's pane is made to stay.
pub open spec fn begin_startup(c: ControllerView) -> (ControllerView, StepView) {
    if c.phase != PhaseView::Idle {
        (c, StepView::Done)
    } else {
        (
            ControllerView { phase: PhaseView::Preparing, ..c },
            StepView::Request(
                RequestView::Mux(set_remain_on_exit_arguments(c.tmux_context.pane_id, true)),
            ),
        )
    }
}

/// The user asks to start the selected process. Nothing is done once the
/// user has quit, or with no process selected. A pane left by an earlier
/// run is ended first.
pub open spec fn begin_start(c: ControllerView) -> (ControllerView, StepView) {
    if c.phase != PhaseView::Idle || c.state.exiting {
        (c, StepView::Done)
    } else {
        match process_by_id(c.state.processes, c.state.current_proc_id) {
            None => (c, StepView::Done),
            Some(p) => {
                let work = taking_up(c, Kind::Single, c.state, Seq::<usize>::empty());
                if p.status == ProcessStatus::Halted && p.pane_id.is_some() {
                    (
                        ControllerView {
                            phase: PhaseView::KillingStalePane {
                                id: p.id,
                                focus: p.config.autofocus,
                            },
                            ..work
                        },
                        StepView::Request(
                            RequestView::Mux(kill_pane_arguments(p.pane_id.unwrap())),
                        ),
                    )
                } else {
                    begin_unit(
                        work,
                        start_request(c.tmux_context, c.state, p.id, p.config.autofocus),
                    )
                }
            },
        }
    }
}

/// The user asks to stop the selected process: its stop signal is sent to
/// it, if it is running.
pub open spec fn begin_stop(c: ControllerView) -> (ControllerView, StepView) {
    if c.phase != PhaseView::Idle {
        (c, StepView::Done)
    } else {
        let work = taking_up(c, Kind::Single, c.state, Seq::<usize>::empty());
        match halt_request(c.state, c.state.current_proc_id) {
            Some((phase, r)) => (ControllerView { phase, ..work }, StepView::Request(r)),
            None => (c, StepView::Done),
        }
    }
}

/// The user asks to quit: the state is marked, and every process that is
/// not halted is stopped. A second request is ignored.
pub open spec fn begin_quit(c: ControllerView) -> (ControllerView, StepView) {
    if c.phase != PhaseView::Idle || c.state.exiting {
        (c, StepView::Done)
    } else {
        next_unit(
            taking_up(
                c,
                Kind::Quit,
                StateView { exiting: true, ..c.state },
                picked_ids(c.state.processes, Pick::Live),
            ),
        )
    }
}

/// The supervisor ends: the panes of the halted processes are ended, the
/// screen is drawn, and the setup of the multiplexer is undone.
pub open spec fn begin_exit(c: ControllerView) -> (ControllerView, StepView) {
    if c.phase != PhaseView::Idle {
        (c, StepView::Done)
    } else {
        next_unit(taking_up(c, Kind::Exit, c.state, picked_ids(c.state.processes, Pick::Halted)))
    }
}

/// The user moves the selection: the pane on show is put away first.
pub open spec fn begin_move(c: ControllerView, forward: bool) -> (ControllerView, StepView) {
    if c.phase != PhaseView::Idle {
        (c, StepView::Done)
    } else {
        let work = taking_up(c, Kind::Single, c.state, Seq::<usize>::empty());
        match process_by_id(c.state.processes, c.state.current_proc_id) {
            Some(p) => match p.pane_id {
                Some(pane) => (
                    ControllerView { phase: PhaseView::Breaking { pane, forward }, ..work },
                    StepView::Request(
                        RequestView::Mux(
                            break_pane_arguments(
                                pane,
                                c.tmux_context.detached_session_id,
                                p.id,
                                p.label,
                            ),
                        ),
                    ),
                ),
                None => move_and_join(work, forward),
            },
            None => move_and_join(work, forward),
        }
    }
}

/// The user asks for the focus to go to the pane of the selected process.
pub open spec fn begin_switch_focus(c: ControllerView) -> (ControllerView, StepView) {
    if c.phase != PhaseView::Idle {
        (c, StepView::Done)
    } else {
        match pane_of(c.state.processes, c.state.current_proc_id) {
            Some(pane) => (
                ControllerView { phase: PhaseView::SwitchingFocus, ..c },
                StepView::Request(RequestView::Mux(select_pane_arguments(pane))),
            ),
            None => (c, StepView::Done),
        }
    }
}

/// The multiplexer reports the process with the given pid dead: the process
/// is halted and loses its pid; its pane stays. If the process had been
/// asked to stop, the focus goes back to the supervisor's pane. The screen
/// is drawn in any case.
pub open spec fn begin_pid_terminated(c: ControllerView, pid: i32) -> (ControllerView, StepView) {
    if c.phase != PhaseView::Idle {
        (c, StepView::Done)
    } else {
        let work = taking_up(c, Kind::Single, c.state, Seq::<usize>::empty());
        match process_by_pid(c.state.processes, pid) {
            Some(p) => if p.status == ProcessStatus::Halted {
                finish(work)
            } else {
                let ended = ControllerView {
                    draft: StateView {
                        processes: terminated(c.state.processes, p.id),
                        ..c.state
                    },
                    ..work
                };
                if p.status == ProcessStatus::Halting {
                    (
                        ControllerView { phase: PhaseView::Refocusing, ..ended },
                        StepView::Request(
                            RequestView::Mux(select_pane_arguments(c.tmux_context.pane_id)),
                        ),
                    )
                } else {
                    finish(ended)
                }
            },
            None => finish(work),
        }
    }
}

/// The panel state is replaced.
pub open spec fn begin_gui(c: ControllerView, gui_state: GUIStateView) -> (
    ControllerView,
    StepView,
) {
    if c.phase != PhaseView::Idle {
        (c, StepView::Done)
    } else {
        finish(
            taking_up(
                c,
                Kind::Single,
                StateView { gui_state, ..c.state },
                Seq::<usize>::empty(),
            ),
        )
    }
}

/// The supervisor with another draft.
pub open spec fn drafting(c: ControllerView, processes: Seq<ProcessView>) -> ControllerView {
    ControllerView { draft: StateView { processes, ..c.draft }, ..c }
}

/// What a reply does, by the phase that the supervisor is in. A failed
/// request becomes a message for the user. A process becomes running only
/// when the multiplexer has given both its pane and its pid: where the pid
/// query fails or gives no number, the process stays halted and keeps the
/// new pane, which the next start ends first.
pub open spec fn after_reply(c: ControllerView, reply: ReplyView) -> (ControllerView, StepView) {
    match c.phase {
        PhaseView::Idle => (c, StepView::Done),
        PhaseView::Preparing => match mux_reply(reply) {
            Err(e) => (ControllerView { phase: PhaseView::Idle, ..c }, StepView::Fatal(e)),
            Ok(_) => next_unit(
                taking_up(
                    c,
                    Kind::Startup,
                    c.state,
                    picked_ids(c.state.processes, Pick::Autostart),
                ),
            ),
        },
        PhaseView::KillingStalePane { id, focus } => match mux_reply(reply) {
            Err(e) => abort(c, error_text(e)),
            Ok(_) => {
                let work = drafting(c, with_pane(c.draft.processes, id, None));
                begin_unit(work, start_request(work.tmux_context, work.draft, id, focus))
            },
        },
        PhaseView::Creating { id, detached, focus } => match mux_reply(reply) {
            Err(e) => next_unit(
                ControllerView { draft: with_message(c.draft, error_text(e)), ..c },
            ),
            Ok(pane) => if detached {
                (
                    ControllerView { phase: PhaseView::MarkingPane { id, pane, focus }, ..c },
                    StepView::Request(RequestView::Mux(set_remain_on_exit_arguments(pane, true))),
                )
            } else {
                (
                    ControllerView { phase: PhaseView::ReadingPid { id, pane, focus }, ..c },
                    StepView::Request(RequestView::Mux(get_pane_pid_arguments(pane))),
                )
            },
        },
        PhaseView::MarkingPane { id, pane, focus } => (
            ControllerView {
                phase: PhaseView::ReadingPid { id, pane, focus },
                draft: noting(c.draft, reply),
                ..c
            },
            StepView::Request(RequestView::Mux(get_pane_pid_arguments(pane))),
        ),
        PhaseView::ReadingPid { id, pane, focus } => match pid_reply(reply) {
            Err(e) => next_unit(
                ControllerView {
                    draft: with_message(
                        StateView {
                            processes: with_pane(c.draft.processes, id, Some(pane)),
                            ..c.draft
                        },
                        error_text(e),
                    ),
                    ..c
                },
            ),
            Ok(pid) => {
                let work = drafting(c, started(c.draft.processes, id, pane, pid));
                if focus {
                    match pane_of(work.draft.processes, work.draft.current_proc_id) {
                        Some(shown) => (
                            ControllerView { phase: PhaseView::Focusing, ..work },
                            StepView::Request(RequestView::Mux(select_pane_arguments(shown))),
                        ),
                        None => next_unit(work),
                    }
                } else {
                    next_unit(work)
                }
            },
        },
        PhaseView::Focusing => next_unit(ControllerView { draft: noting(c.draft, reply), ..c }),
        PhaseView::Signalling { id } => next_unit(
            drafting(
                ControllerView { draft: noting_signal(c.draft, reply), ..c },
                if reply == ReplyView::PidGone {
                    terminated(c.draft.processes, id)
                } else {
                    with_status(c.draft.processes, id, ProcessStatus::Halting)
                },
            ),
        ),
        PhaseView::Breaking { pane, forward } => (
            ControllerView {
                phase: PhaseView::Remarking {
                    forward,
                    break_error: match mux_reply(reply) {
                        Ok(_) => None,
                        Err(e) => Some(error_text(e)),
                    },
                },
                ..c
            },
            StepView::Request(RequestView::Mux(set_remain_on_exit_arguments(pane, true))),
        ),
        PhaseView::Remarking { forward, break_error } => match mux_reply(reply) {
            Err(e) => abort(c, error_text(e)),
            Ok(_) => match break_error {
                Some(m) => abort(c, m),
                None => move_and_join(c, forward),
            },
        },
        PhaseView::Joining => finish(ControllerView { draft: noting(c.draft, reply), ..c }),
        PhaseView::SwitchingFocus => match mux_reply(reply) {
            Err(e) => abort(c, error_text(e)),
            Ok(_) => (ControllerView { phase: PhaseView::Idle, ..c }, StepView::Done),
        },
        PhaseView::Refocusing => finish(ControllerView { draft: noting(c.draft, reply), ..c }),
        PhaseView::KillingPane { id } => match mux_reply(reply) {
            Ok(_) => next_unit(drafting(c, with_pane(c.draft.processes, id, None))),
            Err(e) => next_unit(
                ControllerView { draft: with_message(c.draft, error_text(e)), ..c },
            ),
        },
        PhaseView::Drawing { exit } => if exit {
            (
                ControllerView { phase: PhaseView::KillingSession, ..c },
                StepView::Request(
                    RequestView::Mux(kill_session_arguments(c.tmux_context.detached_session_id)),
                ),
            )
        } else {
            (ControllerView { phase: PhaseView::Idle, ..c }, StepView::Done)
        },
        PhaseView::KillingSession => (
            ControllerView { phase: PhaseView::Unmarking, ..c },
            StepView::Request(
                RequestView::Mux(set_remain_on_exit_arguments(c.tmux_context.pane_id, false)),
            ),
        ),
        PhaseView::Unmarking => (ControllerView { phase: PhaseView::Idle, ..c }, StepView::Done),
    }
}


fn read_mux(reply: Reply) -> (r: Result<String, Error>)
    ensures
        text_result_view(r) == mux_reply(reply@),
{
    match reply {
        Reply::Output(o) => read_bytes(Ok(o)),
        Reply::Failure(m) => Err(Error::MuxInvocation(m)),
        _ => Err(Error::MuxInvocation(copy_str("Unexpected reply"))),
    }
}

fn read_pid(reply: Reply) -> (r: Result<i32, Error>)
    ensures
        pid_result_view(r) == pid_reply(reply@),
{
    match read_mux(reply) {
        Ok(text) => parse_pid(text.as_str()),
        Err(e) => Err(e),
    }
}

fn add_message(state: &State, message: String) -> (r: State)
    ensures
        r@ == with_message(state@, message@),
{
    let gui_state = GUIStateMutation::on(&state.gui_state).add_message(message).commit();
    StateMutation::on(state).set_gui_state(gui_state).commit()
}

fn note(state: &State, reply: Reply) -> (r: State)
    ensures
        r@ == noting(state@, reply@),
{
    match read_mux(reply) {
        Ok(_) => state.clone(),
        Err(e) => add_message(state, e.message()),
    }
}

fn every_process_halted(state: &State) -> (r: bool)
    ensures
        r == all_halted(state@.processes),
{
    let mut i: usize = 0;
    while i < state.processes.len()
        invariant
            i <= state.processes.len(),
            forall|k: int| 0 <= k < i ==> (#[trigger] state@.processes[k]).status
                == ProcessStatus::Halted,
        decreases state.processes.len() - i,
    {
        match state.processes[i].status {
            ProcessStatus::Halted => {},
            _ => {
                assert(state@.processes[i as int].status != ProcessStatus::Halted);
                return false;
            },
        }
        i += 1;
    }
    true
}

fn ids_picked(state: &State, pick: Pick) -> (r: Vec<usize>)
    ensures
        r@ == picked_ids(state@.processes, pick),
{
    let mut r: Vec<usize> = Vec::new();
    let mut i: usize = 0;
    let ghost ps = state@.processes;
    assert(ps.take(0) =~= Seq::<ProcessView>::empty());
    while i < state.processes.len()
        invariant
            i <= state.processes.len(),
            ps == state@.processes,
            r@ == picked_ids(ps.take(i as int), pick),
        decreases state.processes.len() - i,
    {
        assert(ps.take(i + 1).drop_last() =~= ps.take(i as int));
        assert(ps.take(i + 1).last() == state.processes@[i as int]@);
        let halted = match state.processes[i].status {
            ProcessStatus::Halted => true,
            _ => false,
        };
        let picked = match pick {
            Pick::Autostart => state.processes[i].config.autostart,
            Pick::Halted => halted,
            Pick::Live => !halted,
        };
        if picked {
            r.push(state.processes[i].id);
        }
        i += 1;
    }
    assert(ps.take(state.processes.len() as int) =~= ps);
    r
}

fn pane_of_process(state: &State, id: usize) -> (r: Option<String>)
    ensures
        r.deep_view() == pane_of(state@.processes, id),
{
    match state.get_process(id) {
        Some(p) => clone_optional_string(&p.pane_id),
        None => None,
    }
}

impl Controller {
    /// A supervisor that runs, with no work in hand.
    pub fn new(state: State, tmux_context: TmuxContext) -> (r: Self)
        ensures
            r@ == (ControllerView {
                state: state@,
                tmux_context: tmux_context@,
                running: true,
                phase: PhaseView::Idle,
                kind: Kind::Single,
                draft: state@,
                queue: Seq::<usize>::empty(),
            }),
            forall|rule: Rule| obeys(rule, state@.processes) ==> consistent(rule, r@),
    {
        let draft = state.clone();
        Controller {
            state,
            tmux_context,
            running: true,
            phase: Phase::Idle,
            kind: Kind::Single,
            draft,
            queue: Vec::new(),
        }
    }

    /// Whether the user is typing a filter.
    pub fn is_entering_filter_text(&self) -> (r: bool)
        ensures
            r == self@.state.gui_state.entering_filter_text,
    {
        self.state.gui_state.entering_filter_text
    }

    /// The filter text, if there is a filter.
    pub fn filter_text(&self) -> (r: Option<String>)
        ensures
            r.deep_view() == self@.state.gui_state.filter_text,
    {
        clone_optional_string(&self.state.gui_state.filter_text)
    }

    fn is_idle(&self) -> (r: bool)
        ensures
            r == (self@.phase == PhaseView::Idle),
    {
        match self.phase {
            Phase::Idle => true,
            _ => false,
        }
    }

    /// Stops the supervisor's running if the user has quit and every process
    /// is halted.
    pub fn check_for_exit(&mut self)
        ensures
            final(self)@ == (ControllerView {
                running: still_running(old(self)@.running, old(self)@.state),
                ..old(self)@
            }),
    {
        if self.state.exiting {
            if every_process_halted(&self.state) {
                self.running = false;
            }
        }
    }

    fn finish(&mut self) -> (step: Step)
        ensures
            (final(self)@, step@) == finish(old(self)@),
    {
        self.state = self.draft.clone();
        self.check_for_exit();
        let exit = match self.kind {
            Kind::Exit => true,
            _ => false,
        };
        self.phase = Phase::Drawing { exit };
        Step::Request(Request::Draw)
    }

    fn abort(&mut self, message: String) -> (step: Step)
        ensures
            (final(self)@, step@) == abort(old(self)@, message@),
    {
        self.state = add_message(&self.state, message);
        self.check_for_exit();
        self.phase = Phase::Drawing { exit: false };
        Step::Request(Request::Draw)
    }

    fn start_request(&self, id: usize, focus: bool) -> (r: Option<(Phase, Request)>)
        ensures
            r.deep_view() == start_request(self@.tmux_context, self@.draft, id, focus),
    {
        match self.draft.get_process(id) {
            None => None,
            Some(p) => {
                match p.status {
                    ProcessStatus::Halted => {},
                    _ => {
                        return None;
                    },
                }
                if p.id == self.draft.current_proc_id {
                    Some(
                        (
                            Phase::Creating { id, detached: false, focus },
                            Request::Mux(self.tmux_context.create_pane(p)),
                        ),
                    )
                } else {
                    Some(
                        (
                            Phase::Creating { id, detached: true, focus },
                            Request::Mux(self.tmux_context.create_detached_pane(p)),
                        ),
                    )
                }
            },
        }
    }

    fn halt_request(state: &State, id: usize) -> (r: Option<(Phase, Request)>)
        ensures
            r.deep_view() == halt_request(state@, id),
    {
        match state.get_process(id) {
            Some(p) => {
                match p.status {
                    ProcessStatus::Running => {},
                    _ => {
                        return None;
                    },
                }
                match p.pid {
                    Some(pid) => Some(
                        (Phase::Signalling { id }, Request::Signal { pid, signal: p.config.stop }),
                    ),
                    None => None,
                }
            },
            None => None,
        }
    }

    fn kill_request(state: &State, id: usize) -> (r: Option<(Phase, Request)>)
        ensures
            r.deep_view() == kill_request(state@, id),
    {
        match state.get_process(id) {
            Some(p) => {
                match p.status {
                    ProcessStatus::Halted => {},
                    _ => {
                        return None;
                    },
                }
                match &p.pane_id {
                    Some(pane) => Some(
                        (
                            Phase::KillingPane { id },
                            Request::Mux(crate::tmux::kill_pane(pane.as_str())),
                        ),
                    ),
                    None => None,
                }
            },
            None => None,
        }
    }

    fn unit_request(&self, id: usize) -> (r: Option<(Phase, Request)>)
        ensures
            r.deep_view() == unit_request(self@, id),
    {
        match self.kind {
            Kind::Startup => self.start_request(id, false),
            Kind::Quit => Controller::halt_request(&self.draft, id),
            Kind::Exit => Controller::kill_request(&self.draft, id),
            Kind::Single => None,
        }
    }

    fn next_unit(&mut self) -> (step: Step)
        ensures
            (final(self)@, step@) == next_unit(old(self)@),
    {
        loop
            invariant
                next_unit(self@) == next_unit(old(self)@),
            decreases self.queue.len(),
        {
            if self.queue.len() == 0 {
                return self.finish();
            }
            let ghost before = self@;
            let id = self.queue.remove(0);
            assert(self.queue@ =~= before.queue.skip(1));
            assert(self@ == (ControllerView { queue: before.queue.skip(1), ..before }));
            match self.unit_request(id) {
                Some((phase, request)) => {
                    self.phase = phase;
                    return Step::Request(request);
                },
                None => {},
            }
        }
    }

    fn begin_unit(&mut self, request: Option<(Phase, Request)>) -> (step: Step)
        ensures
            (final(self)@, step@) == begin_unit(old(self)@, request.deep_view()),
    {
        match request {
            Some((phase, r)) => {
                self.phase = phase;
                Step::Request(r)
            },
            None => self.next_unit(),
        }
    }

    fn move_and_join(&mut self, forward: bool) -> (step: Step)
        ensures
            (final(self)@, step@) == move_and_join(old(self)@, forward),
    {
        let moving = StateMutation::on(&self.draft);
        let moved = if forward {
            moving.next_process()
        } else {
            moving.previous_process()
        };
        self.draft = moved.commit();
        match pane_of_process(&self.draft, self.draft.current_proc_id) {
            Some(pane) => {
                self.phase = Phase::Joining;
                Step::Request(Request::Mux(self.tmux_context.join_pane(pane.as_str())))
            },
            None => self.finish(),
        }
    }

    fn take_up(&mut self, kind: Kind, draft: State, queue: Vec<usize>)
        ensures
            final(self)@ == taking_up(old(self)@, kind, draft@, queue@),
    {
        self.kind = kind;
        self.draft = draft;
        self.queue = queue;
    }

    fn take_up_single(&mut self)
        ensures
            final(self)@ == taking_up(
                old(self)@,
                Kind::Single,
                old(self)@.state,
                Seq::<usize>::empty(),
            ),
    {
        let draft = self.state.clone();
        self.take_up(Kind::Single, draft, Vec::new());
    }

    fn replace_gui(&mut self, gui_state: GUIState) -> (step: Step)
        ensures
            (final(self)@, step@) == begin_gui(old(self)@, gui_state@),
    {
        if !self.is_idle() {
            return Step::Done;
        }
        let draft = StateMutation::on(&self.state).set_gui_state(gui_state).commit();
        self.take_up(Kind::Single, draft, Vec::new());
        self.finish()
    }

    /// The user begins to type a filter.
    pub fn on_filter_start(&mut self) -> (step: Step)
        ensures
            (final(self)@, step@) == begin_gui(
                old(self)@,
                GUIStateView { entering_filter_text: true, ..old(self)@.state.gui_state },
            ),
    {
        let gui_state = GUIStateMutation::on(
            &self.state.gui_state,
        ).start_entering_filter().commit();
        self.replace_gui(gui_state)
    }

    /// The user has finished typing the filter.
    pub fn on_filter_done(&mut self) -> (step: Step)
        ensures
            (final(self)@, step@) == begin_gui(
                old(self)@,
                GUIStateView { entering_filter_text: false, ..old(self)@.state.gui_state },
            ),
    {
        let gui_state = GUIStateMutation::on(&self.state.gui_state).stop_entering_filter().commit();
        self.replace_gui(gui_state)
    }

    /// The filter text is replaced, or the filter removed.
    pub fn on_filter_set(&mut self, new_filter_text: Option<String>) -> (step: Step)
        ensures
            (final(self)@, step@) == begin_gui(
                old(self)@,
                GUIStateView {
                    filter_text: new_filter_text.deep_view(),
                    ..old(self)@.state.gui_state
                },
            ),
    {
        let gui_state = GUIStateMutation::on(&self.state.gui_state).set_filter_text(
            new_filter_text,
        ).commit();
        self.replace_gui(gui_state)
    }

    /// The user is told of an error.
    pub fn on_error(&mut self, err: Error) -> (step: Step)
        ensures
            (final(self)@, step@) == begin_gui(
                old(self)@,
                GUIStateView {
                    messages: old(self)@.state.gui_state.messages.push(error_text(err@)),
                    ..old(self)@.state.gui_state
                },
            ),
    {
        let gui_state = GUIStateMutation::on(&self.state.gui_state).add_message(
            err.message(),
        ).commit();
        self.replace_gui(gui_state)
    }

    /// The supervisor starts: its pane is made to stay, then the processes
    /// that the configuration marks for it are started.
    pub fn on_startup(&mut self) -> (step: Step)
        ensures
            (final(self)@, step@) == begin_startup(old(self)@),
            forall|rule: Rule| consistent(rule, old(self)@) ==> consistent(rule, final(self)@),
    {
        proof {
            assert forall|rule: Rule| consistent(rule, self@) implies consistent(
                rule,
                begin_startup(self@).0,
            ) by {
                lemma_startup_keeps_invariant(rule, self@);
            }
        }
        if !self.is_idle() {
            return Step::Done;
        }
        self.phase = Phase::Preparing;
        Step::Request(Request::Mux(self.tmux_context.prepare()))
    }

    /// The supervisor ends: the panes of the halted processes are ended,
    /// the screen is drawn, and the setup of the multiplexer is undone.
    pub fn on_exit(&mut self) -> (step: Step)
        ensures
            (final(self)@, step@) == begin_exit(old(self)@),
            forall|rule: Rule| consistent(rule, old(self)@) ==> consistent(rule, final(self)@),
    {
        proof {
            assert forall|rule: Rule| consistent(rule, self@) implies consistent(
                rule,
                begin_exit(self@).0,
            ) by {
                lemma_exit_keeps_invariant(rule, self@);
            }
        }
        if !self.is_idle() {
            return Step::Done;
        }
        let draft = self.state.clone();
        let queue = ids_picked(&self.state, Pick::Halted);
        self.take_up(Kind::Exit, draft, queue);
        self.next_unit()
    }

    /// The user asks to quit: every process that is not halted is sent its
    /// stop signal.
    pub fn on_keypress_quit(&mut self) -> (step: Step)
        ensures
            (final(self)@, step@) == begin_quit(old(self)@),
            forall|rule: Rule| consistent(rule, old(self)@) ==> consistent(rule, final(self)@),
    {
        proof {
            assert forall|rule: Rule| consistent(rule, self@) implies consistent(
                rule,
                after_command(self@, CommandView::Quit).0,
            ) by {
                lemma_command_keeps_invariant(rule, self@, CommandView::Quit);
            }
        }
        if !self.is_idle() || self.state.exiting {
            return Step::Done;
        }
        let draft = StateMutation::on(&self.state).set_exiting().commit();
        let queue = ids_picked(&self.state, Pick::Live);
        self.take_up(Kind::Quit, draft, queue);
        self.next_unit()
    }

    fn on_move(&mut self, forward: bool) -> (step: Step)
        ensures
            (final(self)@, step@) == begin_move(old(self)@, forward),
    {
        if !self.is_idle() {
            return Step::Done;
        }
        let request = match self.state.current_process() {
            Some(p) => match &p.pane_id {
                Some(pane) => Some(
                    (
                        Phase::Breaking { pane: pane.clone(), forward },
                        Request::Mux(
                            crate::tmux::break_pane(
                                pane.as_str(),
                                self.tmux_context.detached_session_id.as_str(),
                                p.id,
                                p.label.as_str(),
                            ),
                        ),
                    ),
                ),
                None => None,
            },
            None => None,
        };
        self.take_up_single();
        match request {
            Some((phase, r)) => {
                self.phase = phase;
                Step::Request(r)
            },
            None => self.move_and_join(forward),
        }
    }

    /// The user moves the selection to the next visible process.
    pub fn on_keypress_down(&mut self) -> (step: Step)
        ensures
            (final(self)@, step@) == begin_move(old(self)@, true),
            forall|rule: Rule| consistent(rule, old(self)@) ==> consistent(rule, final(self)@),
    {
        proof {
            assert forall|rule: Rule| consistent(rule, self@) implies consistent(
                rule,
                after_command(self@, CommandView::Down).0,
            ) by {
                lemma_command_keeps_invariant(rule, self@, CommandView::Down);
            }
        }
        self.on_move(true)
    }

    /// The user moves the selection to the visible process before.
    pub fn on_keypress_up(&mut self) -> (step: Step)
        ensures
            (final(self)@, step@) == begin_move(old(self)@, false),
            forall|rule: Rule| consistent(rule, old(self)@) ==> consistent(rule, final(self)@),
    {
        proof {
            assert forall|rule: Rule| consistent(rule, self@) implies consistent(
                rule,
                after_command(self@, CommandView::Up).0,
            ) by {
                lemma_command_keeps_invariant(rule, self@, CommandView::Up);
            }
        }
        self.on_move(false)
    }

    /// The user asks to start the selected process.
    pub fn on_keypress_start(&mut self) -> (step: Step)
        ensures
            (final(self)@, step@) == begin_start(old(self)@),
            forall|rule: Rule| consistent(rule, old(self)@) ==> consistent(rule, final(self)@),
    {
        proof {
            assert forall|rule: Rule| consistent(rule, self@) implies consistent(
                rule,
                after_command(self@, CommandView::Start).0,
            ) by {
                lemma_command_keeps_invariant(rule, self@, CommandView::Start);
            }
        }
        if !self.is_idle() || self.state.exiting {
            return Step::Done;
        }
        let (id, focus, stale) = match self.state.current_process() {
            None => {
                return Step::Done;
            },
            Some(p) => {
                let halted = match p.status {
                    ProcessStatus::Halted => true,
                    _ => false,
                };
                let stale = if halted {
                    clone_optional_string(&p.pane_id)
                } else {
                    None
                };
                (p.id, p.config.autofocus, stale)
            },
        };
        self.take_up_single();
        match stale {
            Some(pane) => {
                self.phase = Phase::KillingStalePane { id, focus };
                Step::Request(Request::Mux(crate::tmux::kill_pane(pane.as_str())))
            },
            None => {
                let request = self.start_request(id, focus);
                self.begin_unit(request)
            },
        }
    }

    /// The user asks to stop the selected process.
    pub fn on_keypress_stop(&mut self) -> (step: Step)
        ensures
            (final(self)@, step@) == begin_stop(old(self)@),
            forall|rule: Rule| consistent(rule, old(self)@) ==> consistent(rule, final(self)@),
    {
        proof {
            assert forall|rule: Rule| consistent(rule, self@) implies consistent(
                rule,
                after_command(self@, CommandView::Stop).0,
            ) by {
                lemma_command_keeps_invariant(rule, self@, CommandView::Stop);
            }
        }
        if !self.is_idle() {
            return Step::Done;
        }
        match Controller::halt_request(&self.state, self.state.current_proc_id) {
            Some((phase, r)) => {
                self.take_up_single();
                self.phase = phase;
                Step::Request(r)
            },
            None => Step::Done,
        }
    }

    /// The user asks for the focus to go to the pane of the selected
    /// process.
    pub fn on_keypress_switch_focus(&mut self) -> (step: Step)
        ensures
            (final(self)@, step@) == begin_switch_focus(old(self)@),
            forall|rule: Rule| consistent(rule, old(self)@) ==> consistent(rule, final(self)@),
    {
        proof {
            assert forall|rule: Rule| consistent(rule, self@) implies consistent(
                rule,
                after_command(self@, CommandView::SwitchFocus).0,
            ) by {
                lemma_command_keeps_invariant(rule, self@, CommandView::SwitchFocus);
            }
        }
        if !self.is_idle() {
            return Step::Done;
        }
        match pane_of_process(&self.state, self.state.current_proc_id) {
            Some(pane) => {
                self.phase = Phase::SwitchingFocus;
                Step::Request(Request::Mux(crate::tmux::select_pane(pane.as_str())))
            },
            None => Step::Done,
        }
    }

    /// The multiplexer has reported the process with the given pid dead.
    pub fn on_pid_terminated(&mut self, pid: i32) -> (step: Step)
        ensures
            (final(self)@, step@) == begin_pid_terminated(old(self)@, pid),
            forall|rule: Rule| consistent(rule, old(self)@) ==> consistent(rule, final(self)@),
    {
        proof {
            assert forall|rule: Rule| consistent(rule, self@) implies consistent(
                rule,
                begin_pid_terminated(self@, pid).0,
            ) by {
                lemma_death_keeps_invariant(rule, self@, pid);
            }
        }
        if !self.is_idle() {
            return Step::Done;
        }
        let ended = match self.state.get_process_by_pid(pid) {
            Some(p) => match p.status {
                ProcessStatus::Halted => None,
                ProcessStatus::Halting => Some((p.id, true)),
                ProcessStatus::Running => Some((p.id, false)),
            },
            None => None,
        };
        self.take_up_single();
        match ended {
            Some((id, stopped)) => {
                self.draft = StateMutation::on(&self.state).set_process_status(
                    ProcessStatus::Halted,
                    id,
                ).set_process_pid(None, id).commit();
                if stopped {
                    self.phase = Phase::Refocusing;
                    Step::Request(
                        Request::Mux(
                            crate::tmux::select_pane(self.tmux_context.pane_id.as_str()),
                        ),
                    )
                } else {
                    self.finish()
                }
            },
            None => self.finish(),
        }
    }
}


impl Clone for Phase {
    fn clone(&self) -> (r: Self)
        ensures
            r@ == self@,
    {
        match self {
            Phase::Idle => Phase::Idle,
            Phase::Preparing => Phase::Preparing,
            Phase::KillingStalePane { id, focus } => Phase::KillingStalePane {
                id: *id,
                focus: *focus,
            },
            Phase::Creating { id, detached, focus } => Phase::Creating {
                id: *id,
                detached: *detached,
                focus: *focus,
            },
            Phase::MarkingPane { id, pane, focus } => Phase::MarkingPane {
                id: *id,
                pane: pane.clone(),
                focus: *focus,
            },
            Phase::ReadingPid { id, pane, focus } => Phase::ReadingPid {
                id: *id,
                pane: pane.clone(),
                focus: *focus,
            },
            Phase::Focusing => Phase::Focusing,
            Phase::Signalling { id } => Phase::Signalling { id: *id },
            Phase::Breaking { pane, forward } => Phase::Breaking {
                pane: pane.clone(),
                forward: *forward,
            },
            Phase::Remarking { forward, break_error } => Phase::Remarking {
                forward: *forward,
                break_error: clone_optional_string(break_error),
            },
            Phase::Joining => Phase::Joining,
            Phase::SwitchingFocus => Phase::SwitchingFocus,
            Phase::Refocusing => Phase::Refocusing,
            Phase::KillingPane { id } => Phase::KillingPane { id: *id },
            Phase::Drawing { exit } => Phase::Drawing { exit: *exit },
            Phase::KillingSession => Phase::KillingSession,
            Phase::Unmarking => Phase::Unmarking,
        }
    }
}

impl Controller {
    fn reply_preparing(&mut self, reply: Reply) -> (step: Step)
        requires
            old(self)@.phase == PhaseView::Preparing,
        ensures
            (final(self)@, step@) == after_reply(old(self)@, reply@),
    {
        match read_mux(reply) {
            Err(e) => {
                self.phase = Phase::Idle;
                Step::Fatal(e)
            },
            Ok(_) => {
                let draft = self.state.clone();
                let queue = ids_picked(&self.state, Pick::Autostart);
                self.take_up(Kind::Startup, draft, queue);
                self.next_unit()
            },
        }
    }

    fn reply_killing_stale_pane(&mut self, reply: Reply, id: usize, focus: bool) -> (step: Step)
        requires
            old(self)@.phase == (PhaseView::KillingStalePane { id, focus }),
        ensures
            (final(self)@, step@) == after_reply(old(self)@, reply@),
    {
        match read_mux(reply) {
            Err(e) => self.abort(e.message()),
            Ok(_) => {
                self.draft = StateMutation::on(&self.draft).set_process_pane_id(None, id).commit();
                let request = self.start_request(id, focus);
                self.begin_unit(request)
            },
        }
    }

    fn reply_creating(&mut self, reply: Reply, id: usize, detached: bool, focus: bool) -> (step:
        Step)
        requires
            old(self)@.phase == (PhaseView::Creating { id, detached, focus }),
        ensures
            (final(self)@, step@) == after_reply(old(self)@, reply@),
    {
        match read_mux(reply) {
            Err(e) => {
                self.draft = add_message(&self.draft, e.message());
                self.next_unit()
            },
            Ok(pane) => {
                if detached {
                    let request = Request::Mux(
                        crate::tmux::set_remain_on_exit(pane.as_str(), true),
                    );
                    self.phase = Phase::MarkingPane { id, pane, focus };
                    Step::Request(request)
                } else {
                    let request = Request::Mux(self.tmux_context.get_pane_pid(pane.as_str()));
                    self.phase = Phase::ReadingPid { id, pane, focus };
                    Step::Request(request)
                }
            },
        }
    }

    fn reply_reading_pid(&mut self, reply: Reply, id: usize, pane: String, focus: bool) -> (step:
        Step)
        requires
            old(self)@.phase == (PhaseView::ReadingPid { id, pane: pane@, focus }),
        ensures
            (final(self)@, step@) == after_reply(old(self)@, reply@),
    {
        let pid = match read_pid(reply) {
            Ok(pid) => pid,
            Err(e) => {
                let kept = StateMutation::on(&self.draft).set_process_pane_id(
                    Some(pane),
                    id,
                ).commit();
                self.draft = add_message(&kept, e.message());
                return self.next_unit();
            },
        };
        self.draft = StateMutation::on(&self.draft).set_process_status(
            ProcessStatus::Running,
            id,
        ).set_process_pane_id(Some(pane), id).set_process_pid(Some(pid), id).commit();
        if focus {
            match pane_of_process(&self.draft, self.draft.current_proc_id) {
                Some(shown) => {
                    self.phase = Phase::Focusing;
                    Step::Request(Request::Mux(crate::tmux::select_pane(shown.as_str())))
                },
                None => self.next_unit(),
            }
        } else {
            self.next_unit()
        }
    }

    fn reply_signalling(&mut self, reply: Reply, id: usize) -> (step: Step)
        requires
            old(self)@.phase == (PhaseView::Signalling { id }),
        ensures
            (final(self)@, step@) == after_reply(old(self)@, reply@),
    {
        let gone = match reply {
            Reply::PidGone => true,
            Reply::Failure(reason) => {
                self.draft = add_message(&self.draft, reason);
                false
            },
            _ => false,
        };
        if gone {
            self.draft = StateMutation::on(&self.draft).set_process_status(
                ProcessStatus::Halted,
                id,
            ).set_process_pid(None, id).commit();
        } else {
            self.draft = StateMutation::on(&self.draft).set_process_status(
                ProcessStatus::Halting,
                id,
            ).commit();
        }
        self.next_unit()
    }

    fn reply_breaking(&mut self, reply: Reply, pane: String, forward: bool) -> (step: Step)
        requires
            old(self)@.phase == (PhaseView::Breaking { pane: pane@, forward }),
        ensures
            (final(self)@, step@) == after_reply(old(self)@, reply@),
    {
        let break_error = match read_mux(reply) {
            Ok(_) => None,
            Err(e) => Some(e.message()),
        };
        self.phase = Phase::Remarking { forward, break_error };
        Step::Request(Request::Mux(crate::tmux::set_remain_on_exit(pane.as_str(), true)))
    }

    fn reply_remarking(
        &mut self,
        reply: Reply,
        forward: bool,
        break_error: Option<String>,
    ) -> (step: Step)
        requires
            old(self)@.phase == (PhaseView::Remarking {
                forward,
                break_error: break_error.deep_view(),
            }),
        ensures
            (final(self)@, step@) == after_reply(old(self)@, reply@),
    {
        match read_mux(reply) {
            Err(e) => self.abort(e.message()),
            Ok(_) => match break_error {
                Some(m) => self.abort(m),
                None => self.move_and_join(forward),
            },
        }
    }

    fn reply_killing_pane(&mut self, reply: Reply, id: usize) -> (step: Step)
        requires
            old(self)@.phase == (PhaseView::KillingPane { id }),
        ensures
            (final(self)@, step@) == after_reply(old(self)@, reply@),
    {
        match read_mux(reply) {
            Ok(_) => {
                self.draft = StateMutation::on(&self.draft).set_process_pane_id(None, id).commit();
            },
            Err(e) => {
                self.draft = add_message(&self.draft, e.message());
            },
        }
        self.next_unit()
    }

    fn reply_noted(&mut self, reply: Reply, last: bool) -> (step: Step)
        requires
            last ==> old(self)@.phase == PhaseView::Joining || old(self)@.phase
                == PhaseView::Refocusing,
            !last ==> old(self)@.phase == PhaseView::Focusing,
        ensures
            (final(self)@, step@) == after_reply(old(self)@, reply@),
    {
        self.draft = note(&self.draft, reply);
        if last {
            self.finish()
        } else {
            self.next_unit()
        }
    }

    fn reply_marking_pane(&mut self, reply: Reply, id: usize, pane: String, focus: bool) -> (step:
        Step)
        requires
            old(self)@.phase == (PhaseView::MarkingPane { id, pane: pane@, focus }),
        ensures
            (final(self)@, step@) == after_reply(old(self)@, reply@),
    {
        let request = Request::Mux(self.tmux_context.get_pane_pid(pane.as_str()));
        self.draft = note(&self.draft, reply);
        self.phase = Phase::ReadingPid { id, pane, focus };
        Step::Request(request)
    }

    fn reply_switching_focus(&mut self, reply: Reply) -> (step: Step)
        requires
            old(self)@.phase == PhaseView::SwitchingFocus,
        ensures
            (final(self)@, step@) == after_reply(old(self)@, reply@),
    {
        match read_mux(reply) {
            Err(e) => self.abort(e.message()),
            Ok(_) => {
                self.phase = Phase::Idle;
                Step::Done
            },
        }
    }

    fn reply_cleaning(&mut self, reply: Reply) -> (step: Step)
        requires
            old(self)@.phase is Drawing || old(self)@.phase == PhaseView::KillingSession
                || old(self)@.phase == PhaseView::Unmarking,
        ensures
            (final(self)@, step@) == after_reply(old(self)@, reply@),
    {
        let exit = match self.phase {
            Phase::Drawing { exit } => exit,
            _ => false,
        };
        let session = match self.phase {
            Phase::KillingSession => true,
            _ => false,
        };
        if exit {
            self.phase = Phase::KillingSession;
            Step::Request(
                Request::Mux(
                    crate::tmux::kill_session(self.tmux_context.detached_session_id.as_str()),
                ),
            )
        } else if session {
            self.phase = Phase::Unmarking;
            Step::Request(
                Request::Mux(
                    crate::tmux::set_remain_on_exit(self.tmux_context.pane_id.as_str(), false),
                ),
            )
        } else {
            self.phase = Phase::Idle;
            Step::Done
        }
    }

    /// The reply to the last request has come. Whatever the reply is, a
    /// process that had no pid exactly when it was halted still has none
    /// exactly when it is halted. Panes that were distinct stay distinct if
    /// the pane that the reply reports for a new process is no pane of
    /// another process.
    pub fn on_reply(&mut self, reply: Reply) -> (step: Step)
        ensures
            (final(self)@, step@) == after_reply(old(self)@, reply@),
            consistent(Rule::PidsFollowStatus, old(self)@) ==> consistent(
                Rule::PidsFollowStatus,
                final(self)@,
            ),
            consistent(Rule::PanesAreDistinct, old(self)@) && new_pane_is_new(old(self)@, reply@)
                ==> consistent(Rule::PanesAreDistinct, final(self)@),
    {
        proof {
            if consistent(Rule::PidsFollowStatus, self@) {
                lemma_reply_keeps_invariant(Rule::PidsFollowStatus, self@, reply@);
            }
            if consistent(Rule::PanesAreDistinct, self@) && new_pane_is_new(self@, reply@) {
                lemma_reply_keeps_invariant(Rule::PanesAreDistinct, self@, reply@);
            }
        }
        self.reply_step(reply)
    }

    fn reply_step(&mut self, reply: Reply) -> (step: Step)
        ensures
            (final(self)@, step@) == after_reply(old(self)@, reply@),
    {
        let phase = self.phase.clone();
        match phase {
            Phase::Idle => Step::Done,
            Phase::Preparing => self.reply_preparing(reply),
            Phase::KillingStalePane { id, focus } => self.reply_killing_stale_pane(
                reply,
                id,
                focus,
            ),
            Phase::Creating { id, detached, focus } => self.reply_creating(
                reply,
                id,
                detached,
                focus,
            ),
            Phase::MarkingPane { id, pane, focus } => self.reply_marking_pane(
                reply,
                id,
                pane,
                focus,
            ),
            Phase::ReadingPid { id, pane, focus } => self.reply_reading_pid(reply, id, pane, focus),
            Phase::Focusing => self.reply_noted(reply, false),
            Phase::Signalling { id } => self.reply_signalling(reply, id),
            Phase::Breaking { pane, forward } => self.reply_breaking(reply, pane, forward),
            Phase::Remarking { forward, break_error } => self.reply_remarking(
                reply,
                forward,
                break_error,
            ),
            Phase::Joining => self.reply_noted(reply, true),
            Phase::SwitchingFocus => self.reply_switching_focus(reply),
            Phase::Refocusing => self.reply_noted(reply, true),
            Phase::KillingPane { id } => self.reply_killing_pane(reply, id),
            Phase::Drawing { exit } => self.reply_cleaning(reply),
            Phase::KillingSession => self.reply_cleaning(reply),
            Phase::Unmarking => self.reply_cleaning(reply),
        }
    }

    /// Takes up a command of the user.
    pub fn dispatch(&mut self, command: Command) -> (step: Step)
        ensures
            (final(self)@, step@) == after_command(old(self)@, command@),
            forall|rule: Rule| consistent(rule, old(self)@) ==> consistent(rule, final(self)@),
    {
        match command {
            Command::Quit => self.on_keypress_quit(),
            Command::Down => self.on_keypress_down(),
            Command::Up => self.on_keypress_up(),
            Command::Start => self.on_keypress_start(),
            Command::Stop => self.on_keypress_stop(),
            Command::SwitchFocus => self.on_keypress_switch_focus(),
            Command::FilterStart => self.on_filter_start(),
            Command::FilterDone => self.on_filter_done(),
            Command::FilterSet(text) => self.on_filter_set(text),
        }
    }
}

/// What a command of the user does.
pub open spec fn after_command(c: ControllerView, command: CommandView) -> (
    ControllerView,
    StepView,
) {
    match command {
        CommandView::Quit => begin_quit(c),
        CommandView::Down => begin_move(c, true),
        CommandView::Up => begin_move(c, false),
        CommandView::Start => begin_start(c),
        CommandView::Stop => begin_stop(c),
        CommandView::SwitchFocus => begin_switch_focus(c),
        CommandView::FilterStart => begin_gui(
            c,
            GUIStateView { entering_filter_text: true, ..c.state.gui_state },
        ),
        CommandView::FilterDone => begin_gui(
            c,
            GUIStateView { entering_filter_text: false, ..c.state.gui_state },
        ),
        CommandView::FilterSet(text) => begin_gui(
            c,
            GUIStateView { filter_text: text, ..c.state.gui_state },
        ),
    }
}

} // verus!
