use proctmux::config::{
    default_general, default_keybinding, default_layout, default_style, ProcTmuxConfig,
    ProcessConfig,
};
use proctmux::controller::{Controller, Kind, Phase, Reply, Request, Step};
use proctmux::error::Error;
use proctmux::input::Command;
use proctmux::process::ProcessStatus;
use proctmux::state::State;
use proctmux::tmux;
use proctmux::tmux::CommandOutput;
use proctmux::tmux_context::TmuxContext;

fn ctl_proc(stop: i32) -> ProcessConfig {
    ProcessConfig {
        autostart: false,
        autofocus: false,
        shell: None,
        cmd: Some(vec!["echo".to_string(), "hi".to_string()]),
        cwd: "/work".to_string(),
        stop,
        env: None,
        add_path: None,
        description: None,
        docs: None,
        categories: None,
        meta_tags: None,
    }
}

fn ctl_context() -> TmuxContext {
    TmuxContext {
        pane_id: "%0".to_string(),
        session_id: "$0".to_string(),
        detached_session_id: "$7".to_string(),
    }
}

fn ctl_controller(procs: Vec<(&str, ProcessConfig)>) -> Controller {
    let config = ProcTmuxConfig {
        general: default_general(),
        procs: procs.into_iter().map(|(l, p)| (l.to_string(), p)).collect(),
        keybinding: default_keybinding(),
        log_file: "log".to_string(),
        layout: default_layout(),
        style: default_style(),
    };
    Controller::new(State::new(&config), ctl_context())
}

fn ctl_ok(stdout: &str) -> Reply {
    Reply::Output(CommandOutput {
        success: true,
        stdout: stdout.to_string(),
        stderr: String::new(),
    })
}

fn ctl_failed(stderr: &str) -> Reply {
    Reply::Output(CommandOutput {
        success: false,
        stdout: String::new(),
        stderr: stderr.to_string(),
    })
}

fn ctl_mux(args: Vec<String>) -> Step {
    Step::Request(Request::Mux(args))
}

fn ctl_draw() -> Step {
    Step::Request(Request::Draw)
}

fn ctl_drawn(c: &mut Controller) {
    assert_eq!(c.on_reply(Reply::Drawn), Step::Done);
    assert_eq!(c.phase, Phase::Idle);
}

fn ctl_select(c: &mut Controller, id: usize) {
    c.state.current_proc_id = id;
}

fn ctl_run(c: &mut Controller, index: usize, pane: &str, pid: i32) {
    c.state.processes[index].status = ProcessStatus::Running;
    c.state.processes[index].pane_id = Some(pane.to_string());
    c.state.processes[index].pid = Some(pid);
}

fn ctl_rules_hold(c: &Controller) {
    let ps = &c.state.processes;
    for p in ps {
        assert_eq!(p.pid.is_none(), p.status == ProcessStatus::Halted);
    }
    for (i, p) in ps.iter().enumerate() {
        for (j, q) in ps.iter().enumerate() {
            if i != j {
                assert!(p.pane_id.is_none() || q.pane_id.is_none() || p.pane_id != q.pane_id);
                assert_ne!(p.id, q.id);
            }
        }
    }
}

#[test]
fn a_new_controller_runs_and_is_idle() {
    let c = ctl_controller(vec![("echo", ctl_proc(15))]);
    assert!(c.running);
    assert_eq!(c.phase, Phase::Idle);
    assert_eq!(c.kind, Kind::Single);
    assert_eq!(c.draft, c.state);
    assert_eq!(c.queue, vec![]);
    assert_eq!(c.tmux_context, ctl_context());
    assert!(!c.is_entering_filter_text());
    assert_eq!(c.filter_text(), None);
    ctl_rules_hold(&c);
}

#[test]
fn start_and_stop_of_a_single_process() {
    let mut c = ctl_controller(vec![("echo", ctl_proc(15))]);
    assert_eq!(c.on_keypress_start(), Step::Done);
    assert_eq!(c.on_keypress_down(), ctl_draw());
    ctl_drawn(&mut c);
    assert_eq!(c.state.current_proc_id, 1);

    assert_eq!(
        c.on_keypress_start(),
        ctl_mux(tmux::create_pane("%0", "'echo' 'hi' ", "/work", &None))
    );
    assert_eq!(c.state.processes[0].status, ProcessStatus::Halted);
    assert_eq!(c.on_reply(ctl_ok("%5\n")), ctl_mux(tmux::get_pane_pid("%5")));
    assert_eq!(c.on_reply(ctl_ok("4242\n")), ctl_draw());
    assert_eq!(c.state.processes[0].status, ProcessStatus::Running);
    assert_eq!(c.state.processes[0].pid, Some(4242));
    assert_eq!(c.state.processes[0].pane_id, Some("%5".to_string()));
    ctl_drawn(&mut c);
    ctl_rules_hold(&c);

    assert_eq!(c.on_keypress_stop(), Step::Request(Request::Signal { pid: 4242, signal: 15 }));
    assert_eq!(c.on_reply(Reply::Delivered), ctl_draw());
    assert_eq!(c.state.processes[0].status, ProcessStatus::Halting);
    assert_eq!(c.state.processes[0].pid, Some(4242));
    ctl_drawn(&mut c);
    ctl_rules_hold(&c);

    assert_eq!(c.on_pid_terminated(4242), ctl_mux(tmux::select_pane("%0")));
    assert_eq!(c.on_reply(ctl_ok("")), ctl_draw());
    assert_eq!(c.state.processes[0].status, ProcessStatus::Halted);
    assert_eq!(c.state.processes[0].pid, None);
    assert_eq!(c.state.processes[0].pane_id, Some("%5".to_string()));
    ctl_drawn(&mut c);
    assert!(c.running);
    ctl_rules_hold(&c);
}

#[test]
fn death_of_a_running_process_halts_it() {
    let mut c = ctl_controller(vec![("a", ctl_proc(9)), ("b", ctl_proc(9))]);
    ctl_run(&mut c, 1, "%5", 77);
    assert_eq!(c.on_pid_terminated(77), ctl_draw());
    assert_eq!(c.state.processes[1].status, ProcessStatus::Halted);
    assert_eq!(c.state.processes[1].pid, None);
    assert_eq!(c.state.processes[1].pane_id, Some("%5".to_string()));
    assert_eq!(c.state.processes[0], c.draft.processes[0]);
    ctl_drawn(&mut c);
    ctl_rules_hold(&c);
}

#[test]
fn death_of_a_stopped_process_gives_the_focus_back() {
    let mut c = ctl_controller(vec![("a", ctl_proc(9)), ("b", ctl_proc(9))]);
    ctl_run(&mut c, 1, "%5", 77);
    c.state.processes[1].status = ProcessStatus::Halting;
    assert_eq!(c.on_pid_terminated(77), ctl_mux(tmux::select_pane("%0")));
    assert_eq!(c.on_reply(ctl_failed("no such pane")), ctl_draw());
    assert_eq!(c.state.processes[1].status, ProcessStatus::Halted);
    assert_eq!(c.state.processes[1].pid, None);
    assert_eq!(c.state.gui_state.messages, vec!["no such pane".to_string()]);
    ctl_drawn(&mut c);
}

#[test]
fn death_of_a_halted_process_changes_nothing() {
    let mut c = ctl_controller(vec![("a", ctl_proc(9))]);
    c.state.processes[0].pid = Some(77);
    let before = c.state.clone();
    assert_eq!(c.on_pid_terminated(77), ctl_draw());
    assert_eq!(c.state, before);
    ctl_drawn(&mut c);
}

#[test]
fn death_of_an_unknown_pid_only_redraws() {
    let mut c = ctl_controller(vec![("a", ctl_proc(9))]);
    let before = c.state.clone();
    assert_eq!(c.on_pid_terminated(5), ctl_draw());
    assert_eq!(c.state, before);
    ctl_drawn(&mut c);
}

#[test]
fn exit_drains() {
    let mut c = ctl_controller(vec![("a", ctl_proc(15)), ("b", ctl_proc(2)), ("c", ctl_proc(9))]);
    ctl_run(&mut c, 0, "%1", 101);
    ctl_run(&mut c, 1, "%2", 102);
    assert_eq!(c.on_keypress_quit(), Step::Request(Request::Signal { pid: 101, signal: 15 }));
    assert!(!c.state.exiting);
    assert_eq!(c.on_reply(Reply::Delivered), Step::Request(Request::Signal { pid: 102, signal: 2 }));
    assert_eq!(c.on_reply(Reply::Delivered), ctl_draw());
    assert!(c.state.exiting);
    assert_eq!(c.state.processes[0].status, ProcessStatus::Halting);
    assert_eq!(c.state.processes[1].status, ProcessStatus::Halting);
    assert_eq!(c.state.processes[2].status, ProcessStatus::Halted);
    assert!(c.running);
    ctl_drawn(&mut c);

    assert_eq!(c.on_keypress_quit(), Step::Done);
    assert_eq!(c.on_keypress_start(), Step::Done);

    assert_eq!(c.on_pid_terminated(101), ctl_mux(tmux::select_pane("%0")));
    assert_eq!(c.on_reply(ctl_ok("")), ctl_draw());
    assert!(c.running);
    ctl_drawn(&mut c);
    assert_eq!(c.on_pid_terminated(102), ctl_mux(tmux::select_pane("%0")));
    assert_eq!(c.on_reply(ctl_ok("")), ctl_draw());
    assert!(!c.running);
    ctl_drawn(&mut c);
    ctl_rules_hold(&c);
}

#[test]
fn quit_with_nothing_running_stops_at_once() {
    let mut c = ctl_controller(vec![("a", ctl_proc(15))]);
    assert_eq!(c.on_keypress_quit(), ctl_draw());
    assert!(c.state.exiting);
    assert!(!c.running);
    ctl_drawn(&mut c);
}

#[test]
fn a_signal_to_a_gone_pid_halts_the_process() {
    let mut c = ctl_controller(vec![("a", ctl_proc(15))]);
    ctl_run(&mut c, 0, "%1", 101);
    ctl_select(&mut c, 1);
    assert_eq!(c.on_keypress_stop(), Step::Request(Request::Signal { pid: 101, signal: 15 }));
    assert_eq!(c.on_reply(Reply::PidGone), ctl_draw());
    assert_eq!(c.state.processes[0].status, ProcessStatus::Halted);
    assert_eq!(c.state.processes[0].pid, None);
    ctl_drawn(&mut c);
    ctl_rules_hold(&c);
}

#[test]
fn stop_does_nothing_for_a_process_that_does_not_run() {
    let mut c = ctl_controller(vec![("a", ctl_proc(15)), ("b", ctl_proc(15))]);
    assert_eq!(c.on_keypress_stop(), Step::Done);
    ctl_select(&mut c, 1);
    assert_eq!(c.on_keypress_stop(), Step::Done);
    c.state.processes[0].status = ProcessStatus::Halting;
    c.state.processes[0].pid = Some(5);
    assert_eq!(c.on_keypress_stop(), Step::Done);
    c.state.processes[0].status = ProcessStatus::Running;
    c.state.processes[0].pid = None;
    assert_eq!(c.on_keypress_stop(), Step::Done);
    assert_eq!(c.phase, Phase::Idle);
}

#[test]
fn restart_of_a_previously_dead_pane() {
    let mut c = ctl_controller(vec![("echo", ctl_proc(15))]);
    ctl_select(&mut c, 1);
    c.state.processes[0].pane_id = Some("%5".to_string());
    assert_eq!(c.on_keypress_start(), ctl_mux(tmux::kill_pane("%5")));
    assert_eq!(
        c.on_reply(ctl_ok("")),
        ctl_mux(tmux::create_pane("%0", "'echo' 'hi' ", "/work", &None))
    );
    assert_eq!(c.draft.processes[0].pane_id, None);
    assert_eq!(c.on_reply(ctl_ok("%9\n")), ctl_mux(tmux::get_pane_pid("%9")));
    assert_eq!(c.on_reply(ctl_ok("555\n")), ctl_draw());
    assert_eq!(c.state.processes[0].status, ProcessStatus::Running);
    assert_eq!(c.state.processes[0].pane_id, Some("%9".to_string()));
    assert_eq!(c.state.processes[0].pid, Some(555));
    ctl_drawn(&mut c);
    ctl_rules_hold(&c);
}

#[test]
fn a_stale_pane_that_cannot_be_killed_gives_the_start_up() {
    let mut c = ctl_controller(vec![("echo", ctl_proc(15))]);
    ctl_select(&mut c, 1);
    c.state.processes[0].pane_id = Some("%5".to_string());
    assert_eq!(c.on_keypress_start(), ctl_mux(tmux::kill_pane("%5")));
    assert_eq!(c.on_reply(ctl_failed("can't find pane")), ctl_draw());
    assert_eq!(c.state.processes[0].status, ProcessStatus::Halted);
    assert_eq!(c.state.processes[0].pane_id, Some("%5".to_string()));
    assert_eq!(c.state.gui_state.messages, vec!["can't find pane".to_string()]);
    ctl_drawn(&mut c);
}

#[test]
fn a_start_that_fails_leaves_the_process_halted() {
    let mut c = ctl_controller(vec![("echo", ctl_proc(15))]);
    ctl_select(&mut c, 1);
    assert_eq!(
        c.on_keypress_start(),
        ctl_mux(tmux::create_pane("%0", "'echo' 'hi' ", "/work", &None))
    );
    assert_eq!(c.on_reply(Reply::Failure("cannot run tmux".to_string())), ctl_draw());
    assert_eq!(c.state.processes[0].status, ProcessStatus::Halted);
    assert_eq!(c.state.processes[0].pane_id, None);
    assert_eq!(c.state.gui_state.messages, vec!["cannot run tmux".to_string()]);
    ctl_drawn(&mut c);
}

#[test]
fn a_start_without_pid_leaves_the_process_halted() {
    let mut c = ctl_controller(vec![("echo", ctl_proc(15))]);
    ctl_select(&mut c, 1);
    c.on_keypress_start();
    assert_eq!(c.on_reply(ctl_ok("%9\n")), ctl_mux(tmux::get_pane_pid("%9")));
    assert_eq!(c.on_reply(ctl_ok("not a number\n")), ctl_draw());
    assert_eq!(c.state.processes[0].status, ProcessStatus::Halted);
    assert_eq!(c.state.processes[0].pane_id, Some("%9".to_string()));
    assert_eq!(c.state.processes[0].pid, None);
    assert_eq!(c.state.gui_state.messages, vec!["Not a pid: not a number".to_string()]);
    ctl_drawn(&mut c);
    ctl_rules_hold(&c);

    assert_eq!(c.on_keypress_stop(), Step::Done);
    assert_eq!(c.on_keypress_start(), ctl_mux(tmux::kill_pane("%9")));
    assert_eq!(
        c.on_reply(ctl_ok("")),
        ctl_mux(tmux::create_pane("%0", "'echo' 'hi' ", "/work", &None))
    );
    assert_eq!(c.on_reply(ctl_ok("%10\n")), ctl_mux(tmux::get_pane_pid("%10")));
    assert_eq!(c.on_reply(ctl_ok("77\n")), ctl_draw());
    assert_eq!(c.state.processes[0].status, ProcessStatus::Running);
    assert_eq!(c.state.processes[0].pane_id, Some("%10".to_string()));
    assert_eq!(c.state.processes[0].pid, Some(77));
    ctl_drawn(&mut c);
    ctl_rules_hold(&c);
}

#[test]
fn a_failed_pid_query_leaves_the_process_halted() {
    let mut config = ctl_proc(15);
    config.autofocus = true;
    let mut c = ctl_controller(vec![("echo", config)]);
    ctl_select(&mut c, 1);
    c.on_keypress_start();
    c.on_reply(ctl_ok("%9\n"));
    assert_eq!(c.on_reply(ctl_failed("can't find pane: %9")), ctl_draw());
    assert_eq!(c.state.processes[0].status, ProcessStatus::Halted);
    assert_eq!(c.state.processes[0].pane_id, Some("%9".to_string()));
    assert_eq!(c.state.processes[0].pid, None);
    assert_eq!(c.state.gui_state.messages, vec!["can't find pane: %9".to_string()]);
    ctl_drawn(&mut c);
    ctl_rules_hold(&c);
}

#[test]
fn quit_is_not_held_up_by_a_start_without_pid() {
    let mut auto = ctl_proc(15);
    auto.autostart = true;
    let mut c = ctl_controller(vec![("a", auto.clone()), ("b", auto)]);
    c.on_startup();
    c.on_reply(ctl_ok(""));
    c.on_reply(ctl_ok("%1\n"));
    c.on_reply(ctl_ok(""));
    assert_eq!(
        c.on_reply(ctl_ok("\n")),
        ctl_mux(tmux::create_detached_pane("$7", 2, "b", "'echo' 'hi' ", "/work", &None))
    );
    c.on_reply(ctl_ok("%2\n"));
    c.on_reply(ctl_ok(""));
    assert_eq!(c.on_reply(ctl_ok("22\n")), ctl_draw());
    ctl_drawn(&mut c);
    assert_eq!(c.state.processes[0].status, ProcessStatus::Halted);
    assert_eq!(c.state.processes[0].pane_id, Some("%1".to_string()));
    assert_eq!(c.state.processes[1].status, ProcessStatus::Running);
    assert_eq!(c.state.gui_state.messages, vec!["Not a pid: ".to_string()]);
    ctl_rules_hold(&c);

    assert_eq!(c.on_keypress_quit(), Step::Request(Request::Signal { pid: 22, signal: 15 }));
    assert_eq!(c.on_reply(Reply::Delivered), ctl_draw());
    ctl_drawn(&mut c);
    assert!(c.running);
    assert_eq!(c.on_pid_terminated(22), ctl_mux(tmux::select_pane("%0")));
    assert_eq!(c.on_reply(ctl_ok("")), ctl_draw());
    assert!(!c.running);
    ctl_drawn(&mut c);
    assert_eq!(c.on_exit(), ctl_mux(tmux::kill_pane("%1")));
}

#[test]
fn start_of_a_running_process_only_redraws() {
    let mut c = ctl_controller(vec![("echo", ctl_proc(15))]);
    ctl_select(&mut c, 1);
    ctl_run(&mut c, 0, "%5", 9);
    let before = c.state.clone();
    assert_eq!(c.on_keypress_start(), ctl_draw());
    assert_eq!(c.state, before);
    ctl_drawn(&mut c);
}

#[test]
fn autofocus_selects_the_new_pane() {
    let mut config = ctl_proc(15);
    config.autofocus = true;
    let mut c = ctl_controller(vec![("echo", config)]);
    ctl_select(&mut c, 1);
    c.on_keypress_start();
    c.on_reply(ctl_ok("%9\n"));
    assert_eq!(c.on_reply(ctl_ok("31\n")), ctl_mux(tmux::select_pane("%9")));
    assert_eq!(c.on_reply(ctl_failed("lost")), ctl_draw());
    assert_eq!(c.state.processes[0].status, ProcessStatus::Running);
    assert_eq!(c.state.gui_state.messages, vec!["lost".to_string()]);
    ctl_drawn(&mut c);
}

#[test]
fn startup_prepares_and_starts_the_marked_processes() {
    let mut auto = ctl_proc(15);
    auto.autostart = true;
    auto.autofocus = true;
    auto.shell = Some("serve".to_string());
    auto.env = Some(vec![("LISTEN".to_string(), Some("80".to_string()))]);
    let mut c = ctl_controller(vec![("web", auto.clone()), ("db", ctl_proc(9)), ("api", auto)]);
    assert_eq!(c.on_startup(), ctl_mux(tmux::set_remain_on_exit("%0", true)));
    let env = Some(vec![("LISTEN".to_string(), Some("80".to_string()))]);
    assert_eq!(
        c.on_reply(ctl_ok("")),
        ctl_mux(tmux::create_detached_pane("$7", 3, "api", "serve", "/work", &env))
    );
    assert_eq!(c.kind, Kind::Startup);
    assert_eq!(c.queue, vec![1]);
    assert_eq!(c.on_reply(ctl_ok("%11\n")), ctl_mux(tmux::set_remain_on_exit("%11", true)));
    assert_eq!(c.on_reply(ctl_failed("ignored")), ctl_mux(tmux::get_pane_pid("%11")));
    assert_eq!(
        c.on_reply(ctl_ok("1001\n")),
        ctl_mux(tmux::create_detached_pane("$7", 1, "web", "serve", "/work", &env))
    );
    assert_eq!(c.on_reply(ctl_ok("%12\n")), ctl_mux(tmux::set_remain_on_exit("%12", true)));
    assert_eq!(c.on_reply(ctl_ok("")), ctl_mux(tmux::get_pane_pid("%12")));
    assert_eq!(c.on_reply(ctl_ok("1002\n")), ctl_draw());
    ctl_drawn(&mut c);
    let got: Vec<(String, ProcessStatus, Option<String>, Option<i32>)> = c
        .state
        .processes
        .iter()
        .map(|p| (p.label.clone(), p.status, p.pane_id.clone(), p.pid))
        .collect();
    assert_eq!(
        got,
        vec![
            ("api".to_string(), ProcessStatus::Running, Some("%11".to_string()), Some(1001)),
            ("db".to_string(), ProcessStatus::Halted, None, None),
            ("web".to_string(), ProcessStatus::Running, Some("%12".to_string()), Some(1002)),
        ]
    );
    assert_eq!(c.state.gui_state.messages, vec!["ignored".to_string()]);
    ctl_rules_hold(&c);
}

#[test]
fn startup_goes_on_after_a_failed_start() {
    let mut auto = ctl_proc(15);
    auto.autostart = true;
    let mut c = ctl_controller(vec![("a", auto.clone()), ("b", auto)]);
    c.on_startup();
    assert_eq!(
        c.on_reply(ctl_ok("")),
        ctl_mux(tmux::create_detached_pane("$7", 1, "a", "'echo' 'hi' ", "/work", &None))
    );
    assert_eq!(
        c.on_reply(ctl_failed("no space for new pane")),
        ctl_mux(tmux::create_detached_pane("$7", 2, "b", "'echo' 'hi' ", "/work", &None))
    );
    c.on_reply(ctl_ok("%2\n"));
    c.on_reply(ctl_ok(""));
    assert_eq!(c.on_reply(ctl_ok("22\n")), ctl_draw());
    assert_eq!(c.state.processes[0].status, ProcessStatus::Halted);
    assert_eq!(c.state.processes[1].status, ProcessStatus::Running);
    assert_eq!(c.state.gui_state.messages, vec!["no space for new pane".to_string()]);
    ctl_drawn(&mut c);
}

#[test]
fn startup_is_fatal_when_the_pane_cannot_be_prepared() {
    let mut auto = ctl_proc(15);
    auto.autostart = true;
    let mut c = ctl_controller(vec![("a", auto)]);
    c.on_startup();
    assert_eq!(
        c.on_reply(ctl_failed("no current target")),
        Step::Fatal(Error::MuxInvocation("no current target".to_string()))
    );
    assert_eq!(c.phase, Phase::Idle);
    assert_eq!(c.state.processes[0].status, ProcessStatus::Halted);
}

#[test]
fn startup_with_nothing_to_start_only_draws() {
    let mut c = ctl_controller(vec![("a", ctl_proc(15))]);
    c.on_startup();
    assert_eq!(c.on_reply(ctl_ok("")), ctl_draw());
    ctl_drawn(&mut c);
}

#[test]
fn moving_the_selection_swaps_the_panes_on_show() {
    let mut c = ctl_controller(vec![("a", ctl_proc(15)), ("b", ctl_proc(15))]);
    ctl_run(&mut c, 0, "%1", 101);
    ctl_run(&mut c, 1, "%2", 102);
    ctl_select(&mut c, 1);
    assert_eq!(c.on_keypress_down(), ctl_mux(tmux::break_pane("%1", "$7", 1, "a")));
    assert_eq!(c.on_reply(ctl_ok("")), ctl_mux(tmux::set_remain_on_exit("%1", true)));
    assert_eq!(c.on_reply(ctl_ok("")), ctl_mux(tmux::join_pane("%2", "%0")));
    assert_eq!(c.state.current_proc_id, 1);
    assert_eq!(c.on_reply(ctl_ok("")), ctl_draw());
    assert_eq!(c.state.current_proc_id, 2);
    ctl_drawn(&mut c);

    assert_eq!(c.on_keypress_up(), ctl_mux(tmux::break_pane("%2", "$7", 2, "b")));
    c.on_reply(ctl_ok(""));
    assert_eq!(c.on_reply(ctl_ok("")), ctl_mux(tmux::join_pane("%1", "%0")));
    assert_eq!(c.on_reply(ctl_failed("join failed")), ctl_draw());
    assert_eq!(c.state.current_proc_id, 1);
    assert_eq!(c.state.gui_state.messages, vec!["join failed".to_string()]);
    ctl_drawn(&mut c);
}

#[test]
fn a_pane_that_cannot_be_put_away_keeps_the_selection() {
    let mut c = ctl_controller(vec![("a", ctl_proc(15)), ("b", ctl_proc(15))]);
    ctl_run(&mut c, 0, "%1", 101);
    ctl_select(&mut c, 1);
    c.on_keypress_down();
    assert_eq!(c.on_reply(ctl_failed("break failed")), ctl_mux(tmux::set_remain_on_exit("%1", true)));
    assert_eq!(c.on_reply(ctl_ok("")), ctl_draw());
    assert_eq!(c.state.current_proc_id, 1);
    assert_eq!(c.state.gui_state.messages, vec!["break failed".to_string()]);
    ctl_drawn(&mut c);

    c.on_keypress_down();
    c.on_reply(ctl_failed("break failed again"));
    assert_eq!(c.on_reply(ctl_failed("option failed")), ctl_draw());
    assert_eq!(c.state.current_proc_id, 1);
    assert_eq!(
        c.state.gui_state.messages,
        vec!["break failed".to_string(), "option failed".to_string()]
    );
    ctl_drawn(&mut c);
}

#[test]
fn selection_moves_without_panes() {
    let mut c = ctl_controller(vec![("a", ctl_proc(15)), ("b", ctl_proc(15)), ("c", ctl_proc(15))]);
    for want in [1, 2, 3, 1] {
        assert_eq!(c.on_keypress_down(), ctl_draw());
        assert_eq!(c.state.current_proc_id, want);
        ctl_drawn(&mut c);
    }
    for want in [3, 2] {
        assert_eq!(c.dispatch(Command::Up), ctl_draw());
        assert_eq!(c.state.current_proc_id, want);
        ctl_drawn(&mut c);
    }
}

#[test]
fn selection_rotates_in_the_filtered_view_of_the_controller() {
    let mut c = ctl_controller(vec![("a", ctl_proc(15)), ("b", ctl_proc(15)), ("c", ctl_proc(15))]);
    assert_eq!(c.on_filter_set(Some("b".to_string())), ctl_draw());
    ctl_drawn(&mut c);
    for _ in 0..3 {
        assert_eq!(c.dispatch(Command::Down), ctl_draw());
        assert_eq!(c.state.current_proc_id, 2);
        ctl_drawn(&mut c);
    }
    assert_eq!(c.dispatch(Command::FilterSet(None)), ctl_draw());
    ctl_drawn(&mut c);
    ctl_select(&mut c, 1);
    for want in [2, 3, 1] {
        assert_eq!(c.dispatch(Command::Down), ctl_draw());
        assert_eq!(c.state.current_proc_id, want);
        ctl_drawn(&mut c);
    }
}

#[test]
fn switch_focus_selects_the_pane_of_the_selected_process() {
    let mut c = ctl_controller(vec![("a", ctl_proc(15))]);
    assert_eq!(c.on_keypress_switch_focus(), Step::Done);
    ctl_select(&mut c, 1);
    assert_eq!(c.on_keypress_switch_focus(), Step::Done);
    ctl_run(&mut c, 0, "%1", 101);
    assert_eq!(c.on_keypress_switch_focus(), ctl_mux(tmux::select_pane("%1")));
    assert_eq!(c.on_reply(ctl_ok("")), Step::Done);
    assert_eq!(c.phase, Phase::Idle);
    assert_eq!(c.on_keypress_switch_focus(), ctl_mux(tmux::select_pane("%1")));
    assert_eq!(c.on_reply(ctl_failed("no pane")), ctl_draw());
    assert_eq!(c.state.gui_state.messages, vec!["no pane".to_string()]);
    ctl_drawn(&mut c);
}

#[test]
fn filter_commands_change_the_panel_state() {
    let mut c = ctl_controller(vec![("a", ctl_proc(15))]);
    assert_eq!(c.on_filter_start(), ctl_draw());
    assert!(c.is_entering_filter_text());
    ctl_drawn(&mut c);
    assert_eq!(c.on_filter_set(Some("ab".to_string())), ctl_draw());
    assert_eq!(c.filter_text(), Some("ab".to_string()));
    ctl_drawn(&mut c);
    assert_eq!(c.on_filter_done(), ctl_draw());
    assert!(!c.is_entering_filter_text());
    assert_eq!(c.filter_text(), Some("ab".to_string()));
    ctl_drawn(&mut c);
    assert_eq!(c.dispatch(Command::FilterStart), ctl_draw());
    ctl_drawn(&mut c);
    assert!(c.is_entering_filter_text());
    assert_eq!(c.dispatch(Command::FilterDone), ctl_draw());
    ctl_drawn(&mut c);
    assert!(!c.is_entering_filter_text());
    assert_eq!(c.on_error(Error::MuxInvocation("stdin closed".to_string())), ctl_draw());
    assert_eq!(c.state.gui_state.messages, vec!["stdin closed".to_string()]);
    ctl_drawn(&mut c);
}

#[test]
fn exit_kills_the_panes_of_halted_processes_and_cleans_up() {
    let mut c = ctl_controller(vec![("a", ctl_proc(15)), ("b", ctl_proc(15)), ("c", ctl_proc(15))]);
    c.state.processes[0].pane_id = Some("%1".to_string());
    ctl_run(&mut c, 1, "%2", 102);
    c.state.processes[2].pane_id = Some("%3".to_string());
    assert_eq!(c.on_exit(), ctl_mux(tmux::kill_pane("%1")));
    assert_eq!(c.on_reply(ctl_failed("already gone")), ctl_mux(tmux::kill_pane("%3")));
    assert_eq!(c.on_reply(ctl_ok("")), ctl_draw());
    assert_eq!(c.state.processes[0].pane_id, Some("%1".to_string()));
    assert_eq!(c.state.processes[1].pane_id, Some("%2".to_string()));
    assert_eq!(c.state.processes[2].pane_id, None);
    assert_eq!(c.state.gui_state.messages, vec!["already gone".to_string()]);
    assert_eq!(c.on_reply(Reply::Drawn), ctl_mux(tmux::kill_session("$7")));
    assert_eq!(c.on_reply(ctl_failed("x")), ctl_mux(tmux::set_remain_on_exit("%0", false)));
    assert_eq!(c.on_reply(ctl_ok("")), Step::Done);
    assert_eq!(c.phase, Phase::Idle);
}

#[test]
fn commands_are_ignored_while_work_is_in_hand() {
    let mut c = ctl_controller(vec![("a", ctl_proc(15))]);
    ctl_select(&mut c, 1);
    let first = c.on_keypress_start();
    let in_hand = c.phase.clone();
    assert_ne!(in_hand, Phase::Idle);
    let state = c.state.clone();
    assert_eq!(c.on_keypress_start(), Step::Done);
    assert_eq!(c.on_keypress_stop(), Step::Done);
    assert_eq!(c.on_keypress_quit(), Step::Done);
    assert_eq!(c.on_keypress_down(), Step::Done);
    assert_eq!(c.on_keypress_up(), Step::Done);
    assert_eq!(c.on_keypress_switch_focus(), Step::Done);
    assert_eq!(c.on_pid_terminated(1), Step::Done);
    assert_eq!(c.on_filter_start(), Step::Done);
    assert_eq!(c.on_startup(), Step::Done);
    assert_eq!(c.on_exit(), Step::Done);
    assert_eq!(c.phase, in_hand);
    assert_eq!(c.state, state);
    assert_eq!(first, ctl_mux(tmux::create_pane("%0", "'echo' 'hi' ", "/work", &None)));
}

#[test]
fn a_reply_without_a_request_does_nothing() {
    let mut c = ctl_controller(vec![("a", ctl_proc(15))]);
    let before = c.state.clone();
    assert_eq!(c.on_reply(ctl_ok("%1")), Step::Done);
    assert_eq!(c.on_reply(Reply::PidGone), Step::Done);
    assert_eq!(c.state, before);
    assert_eq!(c.phase, Phase::Idle);
}

#[test]
fn check_for_exit_stops_only_when_all_is_halted() {
    let mut c = ctl_controller(vec![("a", ctl_proc(15))]);
    c.check_for_exit();
    assert!(c.running);
    c.state.exiting = true;
    ctl_run(&mut c, 0, "%1", 5);
    c.check_for_exit();
    assert!(c.running);
    c.state.processes[0].status = ProcessStatus::Halting;
    c.check_for_exit();
    assert!(c.running);
    c.state.processes[0].status = ProcessStatus::Halted;
    c.check_for_exit();
    assert!(!c.running);
}

#[test]
fn a_reply_of_another_kind_counts_as_a_failure() {
    let mut c = ctl_controller(vec![("echo", ctl_proc(15))]);
    ctl_select(&mut c, 1);
    c.on_keypress_start();
    assert_eq!(c.on_reply(Reply::Delivered), ctl_draw());
    assert_eq!(c.state.processes[0].status, ProcessStatus::Halted);
    assert_eq!(c.state.gui_state.messages, vec!["Unexpected reply".to_string()]);
    ctl_drawn(&mut c);
    ctl_run(&mut c, 0, "%1", 5);
    assert_eq!(c.on_keypress_stop(), Step::Request(Request::Signal { pid: 5, signal: 15 }));
    assert_eq!(c.on_reply(Reply::Failure("Operation not permitted".to_string())), ctl_draw());
    assert_eq!(c.state.processes[0].status, ProcessStatus::Halting);
    assert_eq!(
        c.state.gui_state.messages,
        vec!["Unexpected reply".to_string(), "Operation not permitted".to_string()]
    );
    ctl_drawn(&mut c);
}
