use proctmux::color::{Color, Style};
use proctmux::config::{
    default_general, default_keybinding, default_layout, default_style, ProcTmuxConfig,
    ProcessConfig,
};
use proctmux::draw::{
    construct_frame, draw_frame, draw_screen, get_help_messages, init_screen,
    prepare_screen_for_exit, DrawOp,
};
use proctmux::frame::{ColoredSegment, ProcessPanelFrame};
use proctmux::gui_state::GUIStateMutation;
use proctmux::process::ProcessStatus;
use proctmux::state::{Mutator, State, StateMutation};

fn draw_proc(description: Option<&str>) -> ProcessConfig {
    ProcessConfig {
        autostart: false,
        autofocus: false,
        shell: Some("true".to_string()),
        cmd: None,
        cwd: "/".to_string(),
        stop: 9,
        env: None,
        add_path: None,
        description: description.map(|d| d.to_string()),
        docs: None,
        categories: None,
        meta_tags: None,
    }
}

fn draw_state(hide_help: bool) -> State {
    let mut layout = default_layout();
    layout.hide_help = hide_help;
    State::new(&ProcTmuxConfig {
        general: default_general(),
        procs: vec![
            ("a".to_string(), draw_proc(Some("first process"))),
            ("b".to_string(), draw_proc(None)),
        ],
        keybinding: default_keybinding(),
        log_file: "log".to_string(),
        layout,
        style: default_style(),
    })
}

fn draw_seg(fg: Color, text: &str) -> ColoredSegment {
    ColoredSegment::new_basic(fg, text.to_string())
}

fn draw_selected(text: &str) -> ColoredSegment {
    draw_seg(Color::Black, text).set_bg(Color::Magenta).set_style(Style::Bold).set_width(28)
}

fn draw_lines(n: usize, messages: usize, current: Option<usize>) -> ProcessPanelFrame {
    let mut frame = ProcessPanelFrame::new(31);
    frame.set_process_lines((0..n).map(|i| vec![draw_seg(Color::Blue, &format!("row{}", i))]).collect());
    frame.set_messages((0..messages).map(|i| draw_seg(Color::Red, &format!("note{}", i))).collect());
    frame.set_current_process_line_index(current);
    frame
}

fn draw_rows(ops: &[DrawOp]) -> Vec<(u16, String)> {
    let mut rows = vec![];
    let mut at = 0u16;
    for op in ops {
        match op {
            DrawOp::MoveTo { x, y } => {
                assert_eq!(*x, 0);
                at = *y;
            }
            DrawOp::Segment(s) => rows.push((at, s.text.clone())),
            _ => {}
        }
    }
    rows
}

#[test]
fn frame_of_a_state_without_selection() {
    let state = draw_state(true);
    let frame = construct_frame(&state);
    assert_eq!(frame.width, 31);
    assert_eq!(frame.filter_line, None);
    assert_eq!(frame.current_process_line_index, None);
    assert_eq!(
        frame.process_lines,
        vec![
            vec![draw_seg(Color::Red, " ▼"), draw_seg(Color::White, " "), draw_seg(Color::Blue, "a")],
            vec![draw_seg(Color::Red, " ▼"), draw_seg(Color::White, " "), draw_seg(Color::Blue, "b")],
        ]
    );
    assert_eq!(frame.messages, vec![]);
}

#[test]
fn frame_of_a_state_with_selection_filter_and_messages() {
    let mut state = draw_state(true);
    state.current_proc_id = 1;
    state.processes[0].status = ProcessStatus::Running;
    state.processes[1].status = ProcessStatus::Halting;
    let gui = GUIStateMutation::on(&state.gui_state)
        .start_entering_filter()
        .add_message("a message that is longer than the list is wide".to_string())
        .commit();
    let state = StateMutation::on(&state).set_gui_state(gui).commit();
    let frame = construct_frame(&state);
    assert_eq!(
        frame.filter_line,
        Some(vec![draw_seg(Color::White, "▶"), draw_seg(Color::White, "")])
    );
    assert_eq!(frame.current_process_line_index, Some(0));
    assert_eq!(
        frame.process_lines,
        vec![
            vec![draw_seg(Color::Green, " ▲"), draw_seg(Color::White, " "), draw_selected("a")],
            vec![
                draw_seg(Color::Yellow, " ▼"),
                draw_seg(Color::White, " "),
                draw_seg(Color::Blue, "b")
            ],
        ]
    );
    assert_eq!(
        frame.messages,
        vec![
            draw_seg(Color::White, "first process"),
            draw_seg(Color::Red, "a message that is longer than t"),
            draw_seg(Color::Red, "he list is wide"),
        ]
    );
}

#[test]
fn frame_shows_only_filtered_processes() {
    let mut state = draw_state(true);
    state.current_proc_id = 2;
    let gui = GUIStateMutation::on(&state.gui_state)
        .start_entering_filter()
        .set_filter_text(Some("b".to_string()))
        .commit();
    let state = StateMutation::on(&state).set_gui_state(gui).commit();
    let frame = construct_frame(&state);
    assert_eq!(
        frame.filter_line,
        Some(vec![draw_seg(Color::White, "▶"), draw_seg(Color::White, "b")])
    );
    assert_eq!(frame.current_process_line_index, Some(0));
    assert_eq!(
        frame.process_lines,
        vec![vec![draw_seg(Color::Red, " ▼"), draw_seg(Color::White, " "), draw_selected("b")]]
    );
    assert_eq!(frame.messages, vec![]);
}

#[test]
fn description_can_be_hidden_and_colors_fall_back() {
    let mut state = draw_state(true);
    state.current_proc_id = 1;
    state.config.layout.hide_process_description_panel = true;
    state.config.layout.process_list_width = 2;
    state.config.style.selected_process_color = "nonsense".to_string();
    state.config.style.selected_process_bg_color = "nonsense".to_string();
    state.config.style.unselected_process_color = "nonsense".to_string();
    let frame = construct_frame(&state);
    assert_eq!(frame.messages, vec![]);
    assert_eq!(
        frame.process_lines,
        vec![
            vec![
                draw_seg(Color::Red, " ▼"),
                draw_seg(Color::White, " "),
                draw_seg(Color::Black, "a")
                    .set_bg(Color::LightMagenta)
                    .set_style(Style::Bold)
                    .set_width(0),
            ],
            vec![draw_seg(Color::Red, " ▼"), draw_seg(Color::White, " "), draw_seg(Color::Cyan, "b")],
        ]
    );
}

#[test]
fn help_is_put_on_lines_of_the_list_width() {
    let state = draw_state(false);
    let help: Vec<String> = get_help_messages(&state).into_iter().map(|s| s.text).collect();
    assert_eq!(help, help_lines_expected());
    for seg in get_help_messages(&state) {
        assert_eq!(seg.fg, Color::White);
        assert_eq!(seg.bg, None);
    }
    let frame = construct_frame(&state);
    let texts: Vec<String> = frame.messages.into_iter().map(|s| s.text).collect();
    assert_eq!(texts, help_lines_expected());
}

fn help_lines_expected() -> Vec<String> {
    let items = [
        "<q> quit",
        "<s> start",
        "<x> stop",
        "<k, ↑> up",
        "<j, ↓> down",
        "</> filter",
        "<↵> submit filter",
        "<^-w> switch focus",
    ];
    let mut lines: Vec<String> = vec![];
    for item in items {
        match lines.last() {
            Some(last) if format!("{} | {}", last, item).len() <= 31 => {
                let merged = format!("{} | {}", last, item);
                lines.pop();
                lines.push(merged);
            }
            _ => lines.push(item.to_string()),
        }
    }
    lines
}

#[test]
fn help_lines_have_the_expected_breaks() {
    assert_eq!(
        help_lines_expected(),
        vec![
            "<q> quit | <s> start | <x> stop".to_string(),
            "<k, ↑> up | <j, ↓> down".to_string(),
            "</> filter".to_string(),
            "<↵> submit filter".to_string(),
            "<^-w> switch focus".to_string(),
        ]
    );
}

#[test]
fn a_low_screen_gets_a_notice() {
    let frame = draw_lines(2, 0, None);
    assert_eq!(
        draw_frame(&frame, 4),
        vec![
            DrawOp::Clear,
            DrawOp::MoveTo { x: 0, y: 1 },
            DrawOp::Notice { fg: Color::Red, text: "Screen too small".to_string() },
        ]
    );
    assert_eq!(draw_frame(&frame, 0), draw_frame(&frame, 4));
}

#[test]
fn lines_that_fit_are_drawn_from_the_top() {
    let state = draw_state(true);
    let ops = draw_screen(&state, 10);
    assert_eq!(
        ops,
        vec![
            DrawOp::Clear,
            DrawOp::MoveTo { x: 0, y: 1 },
            DrawOp::Segment(draw_seg(Color::Red, " ▼")),
            DrawOp::Segment(draw_seg(Color::White, " ")),
            DrawOp::Segment(draw_seg(Color::Blue, "a")),
            DrawOp::MoveTo { x: 0, y: 2 },
            DrawOp::Segment(draw_seg(Color::Red, " ▼")),
            DrawOp::Segment(draw_seg(Color::White, " ")),
            DrawOp::Segment(draw_seg(Color::Blue, "b")),
        ]
    );
    assert_eq!(ops, draw_frame(&construct_frame(&state), 10));
}

#[test]
fn the_filter_line_takes_the_first_row() {
    let mut frame = draw_lines(2, 1, Some(1));
    frame.set_filter_line(Some(vec![draw_seg(Color::White, "▶"), draw_seg(Color::White, "ab")]));
    let ops = draw_frame(&frame, 8);
    assert_eq!(ops[0], DrawOp::Clear);
    assert_eq!(
        draw_rows(&ops),
        vec![
            (1, "▶".to_string()),
            (1, "ab".to_string()),
            (2, "row0".to_string()),
            (3, "row1".to_string()),
            (7, "note0".to_string()),
        ]
    );
}

#[test]
fn messages_are_drawn_at_the_bottom() {
    let ops = draw_frame(&draw_lines(1, 3, None), 6);
    assert_eq!(
        draw_rows(&ops),
        vec![
            (1, "row0".to_string()),
            (3, "note0".to_string()),
            (4, "note1".to_string()),
            (5, "note2".to_string()),
        ]
    );
    let ops = draw_frame(&draw_lines(1, 7, None), 6);
    assert_eq!(
        draw_rows(&ops),
        vec![(1, "row0".to_string()), (5, "note0".to_string())]
    );
}

#[test]
fn a_long_list_is_shown_from_the_selection_on() {
    let rows = draw_rows(&draw_frame(&draw_lines(10, 0, Some(4)), 5));
    assert_eq!(rows, vec![(1, "row4".to_string()), (2, "row5".to_string()), (3, "row6".to_string())]);
    let rows = draw_rows(&draw_frame(&draw_lines(10, 0, Some(9)), 5));
    assert_eq!(rows, vec![(1, "row9".to_string())]);
    let rows = draw_rows(&draw_frame(&draw_lines(10, 0, None), 5));
    assert_eq!(rows, vec![(1, "row0".to_string()), (2, "row1".to_string()), (3, "row2".to_string())]);
    let rows = draw_rows(&draw_frame(&draw_lines(10, 0, Some(0)), 5));
    assert_eq!(rows, vec![(1, "row0".to_string()), (2, "row1".to_string()), (3, "row2".to_string())]);
    let rows = draw_rows(&draw_frame(&draw_lines(10, 0, Some(25)), 5));
    assert_eq!(rows, vec![]);
}

#[test]
fn the_cursor_is_hidden_at_start_and_shown_at_the_end() {
    assert_eq!(init_screen(), vec![DrawOp::HideCursor]);
    assert_eq!(
        prepare_screen_for_exit(),
        vec![DrawOp::MoveTo { x: 0, y: 1 }, DrawOp::Clear, DrawOp::ShowCursor]
    );
}
