//! What holds of every state that the supervisor reaches.

use vstd::prelude::*;
use crate::config::ProcTmuxConfigView;
use crate::controller::{
    after_command, after_reply, begin_exit, begin_pid_terminated, begin_startup, begin_unit,
    finish, halt_request, move_and_join, mux_reply, next_unit, noting, noting_signal, picked_ids,
    pid_reply, start_request, started, terminated, unit_request, with_message, ControllerView,
    Kind, PhaseView, Pick, ReplyView,
};
use crate::error::error_text;
use crate::input::CommandView;
use crate::process::{ProcessStatus, ProcessView};
use crate::state::{
    catalog, has_id, index_of_id, initial_state, lemma_insert_by_label_position,
    lemma_sort_is_permutation, process_by_id, process_by_pid, sort_by_label, with_pane, with_pid,
    with_status, StateView,
};
use crate::text::lemma_first_index_is_first;

verus! {

/// A rule of the catalog.
pub enum Rule {
    /// A process has no pid exactly when it is halted.
    PidsFollowStatus,
    /// No two processes have the same pane.
    PanesAreDistinct,
}

/// A process has no pid exactly when it is halted.
pub open spec fn pids_follow_status(ps: Seq<ProcessView>) -> bool {
    forall|i: int|
        0 <= i < ps.len() ==> ((#[trigger] ps[i]).pid.is_none() <==> ps[i].status
            == ProcessStatus::Halted)
}

/// No two processes have the same id.
pub open spec fn distinct_ids(ps: Seq<ProcessView>) -> bool {
    forall|i: int, j: int|
        0 <= i < ps.len() && 0 <= j < ps.len() && i != j ==> (#[trigger] ps[i]).id != (
        #[trigger] ps[j]).id
}

/// No two processes have the same pane.
pub open spec fn distinct_panes(ps: Seq<ProcessView>) -> bool {
    forall|i: int, j: int|
        0 <= i < ps.len() && 0 <= j < ps.len() && i != j ==> (#[trigger] ps[i]).pane_id.is_none()
            || (#[trigger] ps[j]).pane_id.is_none() || ps[i].pane_id != ps[j].pane_id
}

/// Whether a catalog of processes with distinct ids obeys the rule.
pub open spec fn obeys(rule: Rule, ps: Seq<ProcessView>) -> bool {
    &&& distinct_ids(ps)
    &&& match rule {
        Rule::PidsFollowStatus => pids_follow_status(ps),
        Rule::PanesAreDistinct => distinct_panes(ps),
    }
}

/// No process but those with the given id holds the pane.
pub open spec fn pane_is_new(ps: Seq<ProcessView>, id: usize, pane: Seq<char>) -> bool {
    forall|i: int|
        0 <= i < ps.len() && (#[trigger] ps[i]).id != id ==> ps[i].pane_id != Some(pane)
}

/// Whether the process with the given id can be marked as halting: it has a
/// pid.
pub open spec fn halt_ready(ps: Seq<ProcessView>, id: usize) -> bool {
    match process_by_id(ps, id) {
        Some(p) => p.pid.is_some(),
        None => true,
    }
}

/// The first process with the given id is the only one with it, where ids
/// are distinct.
pub proof fn lemma_process_by_id_is_the_one(ps: Seq<ProcessView>, id: usize, i: int)
    requires
        distinct_ids(ps),
        0 <= i < ps.len(),
        ps[i].id == id,
    ensures
        process_by_id(ps, id) == Some(ps[i]),
        index_of_id(ps, id) == i,
{
    lemma_first_index_is_first(ps, has_id(id));
    let k = index_of_id(ps, id);
    if k != i {
        assert(has_id(id)(ps[i]));
        assert(k < ps.len());
        assert(has_id(id)(ps[k]));
        assert(ps[k].id == ps[i].id);
    }
}

/// Giving a process a pane, or taking its pane away, keeps the first rule,
/// and the second if no other process holds the pane.
pub proof fn lemma_pane_set(rule: Rule, ps: Seq<ProcessView>, id: usize, pane: Option<Seq<char>>)
    requires
        obeys(rule, ps),
        rule is PanesAreDistinct && pane.is_some() ==> pane_is_new(ps, id, pane.unwrap()),
    ensures
        obeys(rule, with_pane(ps, id, pane)),
{
    let r = with_pane(ps, id, pane);
    assert forall|i: int, j: int| 0 <= i < r.len() && 0 <= j < r.len() && i != j implies (
    #[trigger] r[i]).id != (#[trigger] r[j]).id by {
        assert(ps[i].id == r[i].id && ps[j].id == r[j].id);
    }
    match rule {
        Rule::PidsFollowStatus => {
            assert forall|i: int| 0 <= i < r.len() implies ((#[trigger] r[i]).pid.is_none()
                <==> r[i].status == ProcessStatus::Halted) by {
                assert(ps[i].pid == r[i].pid);
            }
        },
        Rule::PanesAreDistinct => {
            assert forall|i: int, j: int| 0 <= i < r.len() && 0 <= j < r.len() && i != j implies (
            #[trigger] r[i]).pane_id.is_none() || (#[trigger] r[j]).pane_id.is_none()
                || r[i].pane_id != r[j].pane_id by {
                assert(ps[i].id == r[i].id && ps[j].id == r[j].id);
            }
        },
    }
}

/// A start under a pid keeps the first rule, and the second if no other
/// process holds the pane.
pub proof fn lemma_started(rule: Rule, ps: Seq<ProcessView>, id: usize, pane: Seq<char>, pid: i32)
    requires
        obeys(rule, ps),
        rule is PanesAreDistinct ==> pane_is_new(ps, id, pane),
    ensures
        obeys(rule, started(ps, id, pane, pid)),
{
    let a = with_status(ps, id, ProcessStatus::Running);
    let b = with_pane(a, id, Some(pane));
    let r = with_pid(b, id, Some(pid));
    assert forall|i: int, j: int| 0 <= i < r.len() && 0 <= j < r.len() && i != j implies (
    #[trigger] r[i]).id != (#[trigger] r[j]).id by {
        assert(a[i].id == ps[i].id && b[i].id == ps[i].id && r[i].id == ps[i].id);
        assert(a[j].id == ps[j].id && b[j].id == ps[j].id && r[j].id == ps[j].id);
    }
    match rule {
        Rule::PidsFollowStatus => {
            assert forall|i: int| 0 <= i < r.len() implies ((#[trigger] r[i]).pid.is_none()
                <==> r[i].status == ProcessStatus::Halted) by {
                assert(a[i].id == ps[i].id && b[i].id == ps[i].id);
            }
        },
        Rule::PanesAreDistinct => {
            assert forall|i: int, j: int| 0 <= i < r.len() && 0 <= j < r.len() && i != j implies (
            #[trigger] r[i]).pane_id.is_none() || (#[trigger] r[j]).pane_id.is_none()
                || r[i].pane_id != r[j].pane_id by {
                assert(a[i].id == ps[i].id && b[i].id == ps[i].id && r[i].id == ps[i].id);
                assert(a[j].id == ps[j].id && b[j].id == ps[j].id && r[j].id == ps[j].id);
                assert(r[i].pane_id == b[i].pane_id && r[j].pane_id == b[j].pane_id);
                assert(a[i].pane_id == ps[i].pane_id && a[j].pane_id == ps[j].pane_id);
            }
        },
    }
}

/// The end of a process keeps the rules.
pub proof fn lemma_terminated(rule: Rule, ps: Seq<ProcessView>, id: usize)
    requires
        obeys(rule, ps),
    ensures
        obeys(rule, terminated(ps, id)),
{
    let a = with_status(ps, id, ProcessStatus::Halted);
    let r = with_pid(a, id, None);
    assert forall|i: int, j: int| 0 <= i < r.len() && 0 <= j < r.len() && i != j implies (
    #[trigger] r[i]).id != (#[trigger] r[j]).id by {
        assert(a[i].id == ps[i].id && r[i].id == ps[i].id);
        assert(a[j].id == ps[j].id && r[j].id == ps[j].id);
    }
    match rule {
        Rule::PidsFollowStatus => {
            assert forall|i: int| 0 <= i < r.len() implies ((#[trigger] r[i]).pid.is_none()
                <==> r[i].status == ProcessStatus::Halted) by {
                assert(a[i].id == ps[i].id);
            }
        },
        Rule::PanesAreDistinct => {
            assert forall|i: int, j: int| 0 <= i < r.len() && 0 <= j < r.len() && i != j implies (
            #[trigger] r[i]).pane_id.is_none() || (#[trigger] r[j]).pane_id.is_none()
                || r[i].pane_id != r[j].pane_id by {
                assert(r[i].pane_id == a[i].pane_id && a[i].pane_id == ps[i].pane_id);
                assert(r[j].pane_id == a[j].pane_id && a[j].pane_id == ps[j].pane_id);
            }
        },
    }
}

/// Marking a process as halting keeps the second rule, and the first if
/// the process has a pid.
pub proof fn lemma_halting(rule: Rule, ps: Seq<ProcessView>, id: usize)
    requires
        obeys(rule, ps),
        rule is PidsFollowStatus ==> halt_ready(ps, id),
    ensures
        obeys(rule, with_status(ps, id, ProcessStatus::Halting)),
{
    let r = with_status(ps, id, ProcessStatus::Halting);
    assert forall|i: int, j: int| 0 <= i < r.len() && 0 <= j < r.len() && i != j implies (
    #[trigger] r[i]).id != (#[trigger] r[j]).id by {
        assert(ps[i].id == r[i].id && ps[j].id == r[j].id);
    }
    match rule {
        Rule::PidsFollowStatus => {
            assert forall|i: int| 0 <= i < r.len() implies ((#[trigger] r[i]).pid.is_none()
                <==> r[i].status == ProcessStatus::Halted) by {
                assert(r[i].pid == ps[i].pid);
                if ps[i].id == id {
                    lemma_process_by_id_is_the_one(ps, id, i);
                }
            }
        },
        Rule::PanesAreDistinct => {
            assert forall|i: int, j: int| 0 <= i < r.len() && 0 <= j < r.len() && i != j implies (
            #[trigger] r[i]).pane_id.is_none() || (#[trigger] r[j]).pane_id.is_none()
                || r[i].pane_id != r[j].pane_id by {
                assert(r[i].pane_id == ps[i].pane_id && r[j].pane_id == ps[j].pane_id);
            }
        },
    }
}

/// The pane that a start waits to record, if the supervisor is in the
/// middle of a start and has the pane's id: with the id of the process.
pub open spec fn pane_in_hand(c: ControllerView) -> Option<(usize, Seq<char>)> {
    match c.phase {
        PhaseView::MarkingPane { id, pane, focus } => Some((id, pane)),
        PhaseView::ReadingPid { id, pane, focus } => Some((id, pane)),
        _ => None,
    }
}

/// What holds of the supervisor at every moment: its state and the state
/// that it is building obey the rule. For the first rule, moreover, a
/// process that has been sent its stop signal has a pid; for the second, a
/// pane that waits to be recorded is no pane of another process.
pub open spec fn consistent(rule: Rule, c: ControllerView) -> bool {
    &&& obeys(rule, c.state.processes)
    &&& obeys(rule, c.draft.processes)
    &&& (rule is PidsFollowStatus && c.phase is Signalling ==> halt_ready(
        c.draft.processes,
        c.phase->Signalling_id,
    ))
    &&& (rule is PanesAreDistinct && pane_in_hand(c).is_some() ==> pane_is_new(
        c.draft.processes,
        pane_in_hand(c).unwrap().0,
        pane_in_hand(c).unwrap().1,
    ))
}

/// What the second rule asks of the multiplexer: that the pane which it
/// reports for a new process is no pane of another process.
pub open spec fn new_pane_is_new(c: ControllerView, reply: ReplyView) -> bool {
    match (c.phase, mux_reply(reply)) {
        (PhaseView::Creating { id, detached, focus }, Ok(pane)) => pane_is_new(
            c.draft.processes,
            id,
            pane,
        ),
        _ => true,
    }
}

/// Where the work in hand ends, the invariant holds.
pub proof fn lemma_finish_keeps_invariant(rule: Rule, c: ControllerView)
    requires
        obeys(rule, c.state.processes),
        obeys(rule, c.draft.processes),
    ensures
        consistent(rule, finish(c).0),
{
}

/// Where the work in hand goes on to the next process, the invariant holds.
pub proof fn lemma_next_unit_keeps_invariant(rule: Rule, c: ControllerView)
    requires
        obeys(rule, c.state.processes),
        obeys(rule, c.draft.processes),
    ensures
        consistent(rule, next_unit(c).0),
    decreases c.queue.len(),
{
    if c.queue.len() == 0 {
        lemma_finish_keeps_invariant(rule, c);
    } else {
        let rest = ControllerView { queue: c.queue.skip(1), ..c };
        match unit_request(rest, c.queue[0]) {
            Some((phase, request)) => {},
            None => {
                lemma_next_unit_keeps_invariant(rule, rest);
            },
        }
    }
}

/// Where a process is started or the work goes on, the invariant holds.
pub proof fn lemma_begin_unit_keeps_invariant(
    rule: Rule,
    c: ControllerView,
    id: usize,
    focus: bool,
)
    requires
        obeys(rule, c.state.processes),
        obeys(rule, c.draft.processes),
    ensures
        consistent(rule, begin_unit(c, start_request(c.tmux_context, c.draft, id, focus)).0),
        consistent(rule, begin_unit(c, start_request(c.tmux_context, c.state, id, focus)).0),
{
    lemma_next_unit_keeps_invariant(rule, c);
}

/// Where the selection moves, the invariant holds.
pub proof fn lemma_move_keeps_invariant(rule: Rule, c: ControllerView, forward: bool)
    requires
        obeys(rule, c.state.processes),
        obeys(rule, c.draft.processes),
    ensures
        consistent(rule, move_and_join(c, forward).0),
{
}

/// A reply to the start of a process keeps the invariant.
pub proof fn lemma_start_reply_keeps_invariant(rule: Rule, c: ControllerView, reply: ReplyView)
    requires
        consistent(rule, c),
        c.phase is KillingStalePane || c.phase is Creating || c.phase is MarkingPane
            || c.phase is ReadingPid || c.phase is Focusing,
        rule is PanesAreDistinct ==> new_pane_is_new(c, reply),
    ensures
        consistent(rule, after_reply(c, reply).0),
{
    let d = c.draft.processes;
    match c.phase {
        PhaseView::KillingStalePane { id, focus } => {
            lemma_pane_set(rule, d, id, None);
            let work = ControllerView {
                draft: StateView { processes: with_pane(d, id, None), ..c.draft },
                ..c
            };
            lemma_begin_unit_keeps_invariant(rule, work, id, focus);
        },
        PhaseView::Creating { id, detached, focus } => {
            match mux_reply(reply) {
                Err(e) => {
                    lemma_next_unit_keeps_invariant(
                        rule,
                        ControllerView { draft: with_message(c.draft, error_text(e)), ..c },
                    );
                },
                Ok(_) => {},
            }
        },
        PhaseView::ReadingPid { id, pane, focus } => {
            match pid_reply(reply) {
                Err(e) => {
                    lemma_pane_set(rule, d, id, Some(pane));
                    lemma_next_unit_keeps_invariant(
                        rule,
                        ControllerView {
                            draft: with_message(
                                StateView { processes: with_pane(d, id, Some(pane)), ..c.draft },
                                error_text(e),
                            ),
                            ..c
                        },
                    );
                },
                Ok(pid) => {
                    lemma_started(rule, d, id, pane, pid);
                    lemma_next_unit_keeps_invariant(
                        rule,
                        ControllerView {
                            draft: StateView { processes: started(d, id, pane, pid), ..c.draft },
                            ..c
                        },
                    );
                },
            }
        },
        PhaseView::Focusing => {
            lemma_next_unit_keeps_invariant(
                rule,
                ControllerView { draft: noting(c.draft, reply), ..c },
            );
        },
        _ => {},
    }
}

/// A reply to a signal, or to the end of a pane, keeps the invariant.
pub proof fn lemma_stop_reply_keeps_invariant(rule: Rule, c: ControllerView, reply: ReplyView)
    requires
        consistent(rule, c),
        c.phase is Signalling || c.phase is KillingPane,
    ensures
        consistent(rule, after_reply(c, reply).0),
{
    let d = c.draft.processes;
    match c.phase {
        PhaseView::Signalling { id } => {
            lemma_terminated(rule, d, id);
            lemma_halting(rule, d, id);
            let next = if reply == ReplyView::PidGone {
                terminated(d, id)
            } else {
                with_status(d, id, ProcessStatus::Halting)
            };
            lemma_next_unit_keeps_invariant(
                rule,
                ControllerView {
                    draft: StateView { processes: next, ..noting_signal(c.draft, reply) },
                    ..c
                },
            );
        },
        PhaseView::KillingPane { id } => {
            lemma_pane_set(rule, d, id, None);
            match mux_reply(reply) {
                Ok(_) => {
                    lemma_next_unit_keeps_invariant(
                        rule,
                        ControllerView {
                            draft: StateView { processes: with_pane(d, id, None), ..c.draft },
                            ..c
                        },
                    );
                },
                Err(e) => {
                    lemma_next_unit_keeps_invariant(
                        rule,
                        ControllerView { draft: with_message(c.draft, error_text(e)), ..c },
                    );
                },
            }
        },
        _ => {},
    }
}

/// A reply keeps the first rule, whatever it is, and the second if the pane
/// that it reports for a new process is no pane of another process.
pub proof fn lemma_reply_keeps_invariant(rule: Rule, c: ControllerView, reply: ReplyView)
    requires
        consistent(rule, c),
        rule is PanesAreDistinct ==> new_pane_is_new(c, reply),
    ensures
        consistent(rule, after_reply(c, reply).0),
{
    match c.phase {
        PhaseView::Preparing => {
            lemma_next_unit_keeps_invariant(
                rule,
                ControllerView {
                    kind: Kind::Startup,
                    draft: c.state,
                    queue: picked_ids(c.state.processes, Pick::Autostart),
                    ..c
                },
            );
        },
        PhaseView::KillingStalePane { id, focus } => {
            lemma_start_reply_keeps_invariant(rule, c, reply);
        },
        PhaseView::Creating { id, detached, focus } => {
            lemma_start_reply_keeps_invariant(rule, c, reply);
        },
        PhaseView::MarkingPane { id, pane, focus } => {
            lemma_start_reply_keeps_invariant(rule, c, reply);
        },
        PhaseView::ReadingPid { id, pane, focus } => {
            lemma_start_reply_keeps_invariant(rule, c, reply);
        },
        PhaseView::Focusing => {
            lemma_start_reply_keeps_invariant(rule, c, reply);
        },
        PhaseView::Signalling { id } => {
            lemma_stop_reply_keeps_invariant(rule, c, reply);
        },
        PhaseView::KillingPane { id } => {
            lemma_stop_reply_keeps_invariant(rule, c, reply);
        },
        PhaseView::Remarking { forward, break_error } => {
            lemma_move_keeps_invariant(rule, c, forward);
        },
        _ => {},
    }
}

/// A command of the user keeps the invariant.
pub proof fn lemma_command_keeps_invariant(rule: Rule, c: ControllerView, command: CommandView)
    requires
        consistent(rule, c),
    ensures
        consistent(rule, after_command(c, command).0),
{
    let single = ControllerView {
        kind: Kind::Single,
        draft: c.state,
        queue: Seq::<usize>::empty(),
        ..c
    };
    match command {
        CommandView::Quit => {
            lemma_next_unit_keeps_invariant(
                rule,
                ControllerView {
                    kind: Kind::Quit,
                    draft: StateView { exiting: true, ..c.state },
                    queue: picked_ids(c.state.processes, Pick::Live),
                    ..c
                },
            );
        },
        CommandView::Down => {
            lemma_move_keeps_invariant(rule, single, true);
        },
        CommandView::Up => {
            lemma_move_keeps_invariant(rule, single, false);
        },
        CommandView::Start => {
            match process_by_id(c.state.processes, c.state.current_proc_id) {
                Some(p) => {
                    lemma_begin_unit_keeps_invariant(rule, single, p.id, p.config.autofocus);
                },
                None => {},
            }
        },
        CommandView::Stop => {},
        CommandView::SwitchFocus => {},
        CommandView::FilterStart => {},
        CommandView::FilterDone => {},
        CommandView::FilterSet(text) => {},
    }
}

/// The start of the supervisor keeps the invariant.
pub proof fn lemma_startup_keeps_invariant(rule: Rule, c: ControllerView)
    requires
        consistent(rule, c),
    ensures
        consistent(rule, begin_startup(c).0),
{
}

/// The end of the supervisor keeps the invariant.
pub proof fn lemma_exit_keeps_invariant(rule: Rule, c: ControllerView)
    requires
        consistent(rule, c),
    ensures
        consistent(rule, begin_exit(c).0),
{
    lemma_next_unit_keeps_invariant(
        rule,
        ControllerView {
            kind: Kind::Exit,
            draft: c.state,
            queue: picked_ids(c.state.processes, Pick::Halted),
            ..c
        },
    );
}

/// The notice of a dead process keeps the invariant.
pub proof fn lemma_death_keeps_invariant(rule: Rule, c: ControllerView, pid: i32)
    requires
        consistent(rule, c),
    ensures
        consistent(rule, begin_pid_terminated(c, pid).0),
{
    match process_by_pid(c.state.processes, pid) {
        Some(p) => {
            lemma_terminated(rule, c.state.processes, p.id);
        },
        None => {},
    }
}

/// Ordering by label keeps the rules.
pub proof fn lemma_sort_keeps_rules(rule: Rule, ps: Seq<ProcessView>)
    requires
        obeys(rule, ps),
    ensures
        obeys(rule, sort_by_label(ps)),
    decreases ps.len(),
{
    if ps.len() > 0 {
        let before = ps.drop_last();
        let p = ps.last();
        assert forall|i: int| 0 <= i < before.len() implies (#[trigger] before[i]) == ps[i] by {}
        assert(obeys(rule, before));
        lemma_sort_keeps_rules(rule, before);
        let rest = sort_by_label(before);
        lemma_sort_is_permutation(before);
        let pos = lemma_insert_by_label_position(rest, p);
        let r = rest.insert(pos, p);
        assert forall|k: int| 0 <= k < rest.len() implies (#[trigger] rest[k]).id != p.id && (
        rule is PanesAreDistinct ==> rest[k].pane_id.is_none() || p.pane_id.is_none()
            || rest[k].pane_id != p.pane_id) by {
            vstd::seq_lib::to_multiset_contains(rest, rest[k]);
            vstd::seq_lib::to_multiset_contains(before, rest[k]);
            assert(rest.contains(rest[k]));
            assert(before.contains(rest[k]));
            let m = choose|m: int| 0 <= m < before.len() && before[m] == rest[k];
            assert(ps[m] == rest[k]);
            assert(ps[ps.len() - 1] == p);
        }
        assert forall|i: int, j: int| 0 <= i < r.len() && 0 <= j < r.len() && i != j implies (
        #[trigger] r[i]).id != (#[trigger] r[j]).id by {
            let a = if i < pos {
                i
            } else {
                i - 1
            };
            let b = if j < pos {
                j
            } else {
                j - 1
            };
            if i != pos {
                assert(r[i] == rest[a]);
            }
            if j != pos {
                assert(r[j] == rest[b]);
            }
        }
        match rule {
            Rule::PidsFollowStatus => {
                assert forall|i: int| 0 <= i < r.len() implies ((#[trigger] r[i]).pid.is_none()
                    <==> r[i].status == ProcessStatus::Halted) by {
                    if i < pos {
                        assert(r[i] == rest[i]);
                    } else if i > pos {
                        assert(r[i] == rest[i - 1]);
                    } else {
                        assert(r[i] == ps[ps.len() - 1]);
                    }
                }
            },
            Rule::PanesAreDistinct => {
                assert forall|i: int, j: int|
                    0 <= i < r.len() && 0 <= j < r.len() && i != j implies (
                #[trigger] r[i]).pane_id.is_none() || (#[trigger] r[j]).pane_id.is_none()
                    || r[i].pane_id != r[j].pane_id by {
                    let a = if i < pos {
                        i
                    } else {
                        i - 1
                    };
                    let b = if j < pos {
                        j
                    } else {
                        j - 1
                    };
                    if i != pos {
                        assert(r[i] == rest[a]);
                    }
                    if j != pos {
                        assert(r[j] == rest[b]);
                    }
                }
            },
        }
    }
}

/// The state that the supervisor starts in obeys the rules.
pub proof fn lemma_initial_state_is_regular(rule: Rule, config: ProcTmuxConfigView)
    requires
        config.procs.len() <= usize::MAX,
    ensures
        obeys(rule, initial_state(config).processes),
{
    let all = catalog(config.procs);
    assert(obeys(rule, all));
    lemma_sort_keeps_rules(rule, all);
}

/// No signal is sent to a process that is halted, or whose pid is not
/// known.
pub proof fn lemma_only_running_processes_are_signalled(s: StateView, id: usize)
    requires
        halt_request(s, id).is_some(),
    ensures
        process_by_id(s.processes, id).is_some(),
        process_by_id(s.processes, id).unwrap().status == ProcessStatus::Running,
        process_by_id(s.processes, id).unwrap().pid.is_some(),
{
}

} // verus!
