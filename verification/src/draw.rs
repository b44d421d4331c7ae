//! From a state to what is drawn: the frame of the panel, and the drawing
//! steps that put the frame on a screen of a given height.

use vstd::prelude::*;
use crate::color::{Color, Style};
use crate::config::KeybindingConfigView;
use crate::frame::{
    break_at_natural_break_points, broken_lines, chunks, partition_plan, plain_segment,
    wrap_lines_to_width, wrap_to_width, wrapped_lines, ColoredSegment, ColoredSegmentView,
    Partition, Partitionable, ProcessPanelFrame, ProcessPanelFrameView,
};
use crate::process::ProcessView;
use crate::repr::{
    color_or, color_or_default, get_status_arrow_and_color, help_text, keybinding_help,
    status_segment,
};
use crate::state::{filtered_processes, process_by_id, State, StateView};
use crate::text::copy_str;

verus! {

/// The lines in one color.
pub open spec fn colored(lines: Seq<Seq<char>>, color: Color) -> Seq<ColoredSegmentView> {
    Seq::new(lines.len(), |i: int| plain_segment(color, lines[i]))
}

fn colored_segments(lines: &Vec<String>, color: Color) -> (r: Vec<ColoredSegment>)
    ensures
        r.deep_view() == colored(lines.deep_view(), color),
{
    let mut r: Vec<ColoredSegment> = Vec::new();
    let mut i: usize = 0;
    let ghost target = colored(lines.deep_view(), color);
    while i < lines.len()
        invariant
            i <= lines.len(),
            target == colored(lines.deep_view(), color),
            r.deep_view() == target.take(i as int),
        decreases lines.len() - i,
    {
        let ghost before = r.deep_view();
        r.push(ColoredSegment::new_basic(color, lines[i].clone()));
        assert(r.deep_view() =~= before.push(target[i as int]));
        assert(target.take(i + 1) =~= target.take(i as int).push(target[i as int]));
        i += 1;
    }
    assert(target.take(lines.len() as int) =~= target);
    r
}

/// The help texts of the eight actions, in the order in which they are
/// shown.
pub open spec fn help_items(keys: KeybindingConfigView) -> Seq<Seq<char>> {
    seq![
        help_text(keys.quit, "quit"@),
        help_text(keys.start, "start"@),
        help_text(keys.stop, "stop"@),
        help_text(keys.up, "up"@),
        help_text(keys.down, "down"@),
        help_text(keys.filter, "filter"@),
        help_text(keys.filter_submit, "submit filter"@),
        help_text(keys.switch_focus, "switch focus"@),
    ]
}

/// The items put on lines one after the other, as many on a line as its
/// width takes, with a bar between them.
pub open spec fn folded_lines(items: Seq<Seq<char>>, width: nat) -> Seq<Seq<char>>
    decreases items.len(),
{
    if items.len() == 0 {
        Seq::<Seq<char>>::empty()
    } else {
        broken_lines(width, " | "@, folded_lines(items.drop_last(), width), items.last())
    }
}

/// The lines of the key help of a state.
pub open spec fn help_lines(s: StateView) -> Seq<ColoredSegmentView> {
    colored(
        folded_lines(help_items(s.config.keybinding), s.config.layout.process_list_width as nat),
        Color::White,
    )
}

/// The key help: for each action its keys and its name, as many on a line as
/// the width of the process list takes.
pub fn get_help_messages(state: &State) -> (r: Vec<ColoredSegment>)
    ensures
        r.deep_view() == help_lines(state@),
{
    let keybindings = &state.config.keybinding;
    let mut msg: Vec<String> = Vec::new();
    msg.push(keybinding_help(keybindings.quit.as_slice(), "quit"));
    msg.push(keybinding_help(keybindings.start.as_slice(), "start"));
    msg.push(keybinding_help(keybindings.stop.as_slice(), "stop"));
    msg.push(keybinding_help(keybindings.up.as_slice(), "up"));
    msg.push(keybinding_help(keybindings.down.as_slice(), "down"));
    msg.push(keybinding_help(keybindings.filter.as_slice(), "filter"));
    msg.push(keybinding_help(keybindings.filter_submit.as_slice(), "submit filter"));
    msg.push(keybinding_help(keybindings.switch_focus.as_slice(), "switch focus"));
    let ghost items = help_items(state@.config.keybinding);
    assert(msg.deep_view() =~= items);
    let width = state.config.layout.process_list_width;
    let mut lines: Vec<String> = Vec::new();
    let mut i: usize = 0;
    assert(items.take(0) =~= Seq::<Seq<char>>::empty());
    assert(lines.deep_view() =~= Seq::<Seq<char>>::empty());
    while i < msg.len()
        invariant
            i <= msg.len(),
            msg.deep_view() == items,
            lines.deep_view() == folded_lines(items.take(i as int), width as nat),
        decreases msg.len() - i,
    {
        let ghost upto = items.take(i + 1);
        assert(upto.drop_last() =~= items.take(i as int));
        assert(upto.last() == msg@[i as int]@);
        lines = break_at_natural_break_points(width, " | ", lines, msg[i].as_str());
        i += 1;
    }
    assert(items.take(msg.len() as int) =~= items);
    colored_segments(&lines, Color::White)
}

/// The line on which the filter is typed, while it is being typed: the
/// pointer, then the filter text.
pub open spec fn filter_frame_line(s: StateView) -> Option<Seq<ColoredSegmentView>> {
    if s.gui_state.entering_filter_text {
        Some(
            seq![
                plain_segment(Color::White, s.config.style.pointer_char),
                plain_segment(
                    Color::White,
                    match s.gui_state.filter_text {
                        Some(t) => t,
                        None => Seq::<char>::empty(),
                    },
                ),
            ],
        )
    } else {
        None
    }
}

fn get_filter_frame_line(state: &State) -> (r: Option<Vec<ColoredSegment>>)
    ensures
        r.deep_view() == filter_frame_line(state@),
{
    if state.gui_state.entering_filter_text {
        let filter_text = match &state.gui_state.filter_text {
            Some(t) => t.clone(),
            None => String::new(),
        };
        let mut line: Vec<ColoredSegment> = Vec::new();
        line.push(ColoredSegment::new_basic(Color::White, state.config.style.pointer_char.clone()));
        line.push(ColoredSegment::new_basic(Color::White, filter_text));
        assert(line.deep_view() =~= filter_frame_line(state@).unwrap());
        return Some(line);
    }
    None
}

/// The width to which the label of the selected process is padded: three
/// less than the width of the process list.
pub open spec fn label_width(s: StateView) -> usize {
    if s.config.layout.process_list_width >= 3 {
        (s.config.layout.process_list_width - 3) as usize
    } else {
        0
    }
}

/// The line of one process: the glyph of its status, a space, and its label;
/// for the selected process the label in bold on a background, padded to a
/// fixed width.
pub open spec fn process_line(s: StateView, p: ProcessView) -> Seq<ColoredSegmentView> {
    let style = s.config.style;
    if s.current_proc_id == p.id {
        seq![
            status_segment(style, p.status),
            plain_segment(Color::White, " "@),
            ColoredSegmentView {
                fg: color_or(style.selected_process_color, Color::Black),
                bg: Some(color_or(style.selected_process_bg_color, Color::LightMagenta)),
                text: p.label,
                style: Some(Style::Bold),
                width: Some(label_width(s)),
            },
        ]
    } else {
        seq![
            status_segment(style, p.status),
            plain_segment(Color::White, " "@),
            plain_segment(color_or(style.unselected_process_color, Color::Cyan), p.label),
        ]
    }
}

/// The lines of the visible processes.
pub open spec fn process_lines(s: StateView) -> Seq<Seq<ColoredSegmentView>> {
    Seq::new(
        filtered_processes(s).len(),
        |i: int| process_line(s, filtered_processes(s)[i]),
    )
}

/// The position of the last of the processes that has the given id.
pub open spec fn last_with_id(ps: Seq<ProcessView>, id: usize) -> Option<usize>
    decreases ps.len(),
{
    if ps.len() == 0 {
        None
    } else if ps.last().id == id {
        Some((ps.len() - 1) as usize)
    } else {
        last_with_id(ps.drop_last(), id)
    }
}

fn get_process_lines(state: &State) -> (r: (Vec<Vec<ColoredSegment>>, Option<usize>))
    ensures
        r.0.deep_view() == process_lines(state@),
        r.1 == last_with_id(filtered_processes(state@), state.current_proc_id),
{
    let width = state.config.layout.process_list_width;
    let process_label_width: usize = if width >= 3 {
        width - 3
    } else {
        0
    };
    let mut current_process_line_index: Option<usize> = None;
    let mut lines: Vec<Vec<ColoredSegment>> = Vec::new();
    let filtered = state.get_filtered_processes();
    let ghost shown = filtered_processes(state@);
    let ghost target = process_lines(state@);
    let mut i: usize = 0;
    assert(shown.take(0) =~= Seq::<ProcessView>::empty());
    while i < filtered.len()
        invariant
            i <= filtered.len(),
            filtered.deep_view() == shown,
            shown == filtered_processes(state@),
            target == process_lines(state@),
            process_label_width == label_width(state@),
            lines.deep_view() == target.take(i as int),
            current_process_line_index == last_with_id(shown.take(i as int), state.current_proc_id),
        decreases filtered.len() - i,
    {
        let proc = filtered[i];
        let ghost upto = shown.take(i + 1);
        assert(upto.drop_last() =~= shown.take(i as int));
        assert(upto.last() == proc@);
        assert(shown[i as int] == proc@);
        let ghost before = lines.deep_view();
        let mut line: Vec<ColoredSegment> = Vec::new();
        line.push(get_status_arrow_and_color(state, proc));
        line.push(ColoredSegment::new_basic(Color::White, copy_str(" ")));
        if state.current_proc_id == proc.id {
            let bg = color_or_default(
                state.config.style.selected_process_bg_color.as_str(),
                Color::LightMagenta,
            );
            let fg = color_or_default(
                state.config.style.selected_process_color.as_str(),
                Color::Black,
            );
            line.push(
                ColoredSegment::new_basic(fg, proc.label.clone()).set_bg(bg).set_style(
                    Style::Bold,
                ).set_width(process_label_width),
            );
            current_process_line_index = Some(i);
        } else {
            let fg = color_or_default(
                state.config.style.unselected_process_color.as_str(),
                Color::Cyan,
            );
            line.push(ColoredSegment::new_basic(fg, proc.label.clone()));
        }
        assert(line.deep_view() =~= process_line(state@, proc@));
        lines.push(line);
        assert(lines.deep_view() =~= before.push(target[i as int]));
        assert(target.take(i + 1) =~= target.take(i as int).push(target[i as int]));
        i += 1;
    }
    assert(target.take(filtered.len() as int) =~= target);
    assert(shown.take(filtered.len() as int) =~= shown);
    (lines, current_process_line_index)
}

/// The description of the selected process, cut to the width of the process
/// list, unless the layout hides it.
pub open spec fn description_lines(s: StateView) -> Seq<ColoredSegmentView> {
    match process_by_id(s.processes, s.current_proc_id) {
        Some(p) => if !s.config.layout.hide_process_description_panel {
            match p.config.description {
                Some(d) => colored(
                    chunks(d, s.config.layout.process_list_width as nat),
                    Color::White,
                ),
                None => Seq::<ColoredSegmentView>::empty(),
            }
        } else {
            Seq::<ColoredSegmentView>::empty()
        },
        None => Seq::<ColoredSegmentView>::empty(),
    }
}

/// The message lines of a state: the description of the selected process,
/// the key help unless the layout hides it, and the messages in red, cut to
/// the width of the process list.
pub open spec fn message_lines(s: StateView) -> Seq<ColoredSegmentView> {
    description_lines(s) + (if !s.config.layout.hide_help {
        help_lines(s)
    } else {
        Seq::<ColoredSegmentView>::empty()
    }) + colored(
        wrapped_lines(s.gui_state.messages, s.config.layout.process_list_width as nat),
        Color::Red,
    )
}

fn get_message_lines(state: &State) -> (r: Vec<ColoredSegment>)
    ensures
        r.deep_view() == message_lines(state@),
{
    let process_list_width = state.config.layout.process_list_width;
    let mut all_msgs: Vec<ColoredSegment> = Vec::new();
    assert(all_msgs.deep_view() =~= Seq::<ColoredSegmentView>::empty());
    match state.current_process() {
        Some(current_proc) => {
            if !state.config.layout.hide_process_description_panel {
                match &current_proc.config.description {
                    Some(desc) => {
                        let wrapped = wrap_to_width(process_list_width, desc.as_str());
                        all_msgs = colored_segments(&wrapped, Color::White);
                    },
                    None => {},
                }
            }
        },
        None => {},
    }
    assert(all_msgs.deep_view() == description_lines(state@));
    if !state.config.layout.hide_help {
        let mut help = get_help_messages(state);
        let ghost before = all_msgs.deep_view();
        let ghost added = help.deep_view();
        all_msgs.append(&mut help);
        assert(all_msgs.deep_view() =~= before + added);
    } else {
        assert(all_msgs.deep_view() =~= all_msgs.deep_view() + Seq::<ColoredSegmentView>::empty());
    }
    let wrapped = wrap_lines_to_width(process_list_width, state.gui_state.messages.as_slice());
    let mut errors = colored_segments(&wrapped, Color::Red);
    let ghost before = all_msgs.deep_view();
    let ghost added = errors.deep_view();
    all_msgs.append(&mut errors);
    assert(all_msgs.deep_view() =~= before + added);
    all_msgs
}

/// The frame that shows a state.
pub open spec fn frame_of(s: StateView) -> ProcessPanelFrameView {
    ProcessPanelFrameView {
        width: s.config.layout.process_list_width,
        filter_line: filter_frame_line(s),
        process_lines: process_lines(s),
        messages: message_lines(s),
        current_process_line_index: last_with_id(filtered_processes(s), s.current_proc_id),
    }
}

/// Builds the frame that shows a state.
pub fn construct_frame(state: &State) -> (frame: ProcessPanelFrame)
    ensures
        frame@ == frame_of(state@),
{
    let mut frame = ProcessPanelFrame::new(state.config.layout.process_list_width);
    frame.set_filter_line(get_filter_frame_line(state));
    let (proc_lines, current_idx) = get_process_lines(state);
    frame.set_process_lines(proc_lines);
    frame.set_current_process_line_index(current_idx);
    frame.set_messages(get_message_lines(state));
    frame
}

/// One step of drawing.
#[derive(Debug, PartialEq, Eq)]
pub enum DrawOp {
    /// Clear the whole screen.
    Clear,
    /// Put the cursor at a column and a row.
    MoveTo { x: u16, y: u16 },
    /// Write a segment in its colors and style, padded to its width, and
    /// reset colors and style after it.
    Segment(ColoredSegment),
    /// Write a text in a color, and leave the color set.
    Notice { fg: Color, text: String },
    /// Hide the cursor.
    HideCursor,
    /// Show the cursor.
    ShowCursor,
}

/// A [`DrawOp`] with its texts as sequences of characters.
pub enum DrawOpView {
    Clear,
    MoveTo { x: u16, y: u16 },
    Segment(ColoredSegmentView),
    Notice { fg: Color, text: Seq<char> },
    HideCursor,
    ShowCursor,
}

impl View for DrawOp {
    type V = DrawOpView;

    open spec fn view(&self) -> DrawOpView {
        match self {
            DrawOp::Clear => DrawOpView::Clear,
            DrawOp::MoveTo { x, y } => DrawOpView::MoveTo { x: *x, y: *y },
            DrawOp::Segment(s) => DrawOpView::Segment(s@),
            DrawOp::Notice { fg, text } => DrawOpView::Notice { fg: *fg, text: text@ },
            DrawOp::HideCursor => DrawOpView::HideCursor,
            DrawOp::ShowCursor => DrawOpView::ShowCursor,
        }
    }
}

impl DeepView for DrawOp {
    type V = DrawOpView;

    open spec fn deep_view(&self) -> DrawOpView {
        self@
    }
}

/// The steps that write the segments of a line one after the other.
pub open spec fn segment_ops(line: Seq<ColoredSegmentView>) -> Seq<DrawOpView> {
    Seq::new(line.len(), |i: int| DrawOpView::Segment(line[i]))
}

/// The steps that write the lines on the rows from `top` down: for each line
/// the cursor is put at the start of its row, then its segments are written.
pub open spec fn line_ops(lines: Seq<Seq<ColoredSegmentView>>, top: int) -> Seq<DrawOpView>
    decreases lines.len(),
{
    if lines.len() == 0 {
        Seq::<DrawOpView>::empty()
    } else {
        line_ops(lines.drop_last(), top) + seq![
            DrawOpView::MoveTo { x: 0, y: (top + lines.len() - 1) as u16 },
        ] + segment_ops(lines.last())
    }
}

/// The steps that write the messages on the rows from `top` down, one
/// message on each row.
pub open spec fn message_ops(msgs: Seq<ColoredSegmentView>, top: int) -> Seq<DrawOpView>
    decreases msgs.len(),
{
    if msgs.len() == 0 {
        Seq::<DrawOpView>::empty()
    } else {
        message_ops(msgs.drop_last(), top) + seq![
            DrawOpView::MoveTo { x: 0, y: (top + msgs.len() - 1) as u16 },
            DrawOpView::Segment(msgs.last()),
        ]
    }
}

/// The first process line that is shown when not all of them fit: the
/// selected one, or the first if none is selected.
pub open spec fn window_start(f: ProcessPanelFrameView) -> int {
    match f.current_process_line_index {
        Some(i) => if i <= f.process_lines.len() {
            i as int
        } else {
            f.process_lines.len() as int
        },
        None => 0,
    }
}

/// The process lines that are shown in a partition: all if they fit, else as
/// many as the partition has rows, from the selected line on.
pub open spec fn shown_lines(f: ProcessPanelFrameView, part: Partition) -> Seq<
    Seq<ColoredSegmentView>,
> {
    if part.fits {
        f.process_lines
    } else {
        let start = window_start(f);
        let end = if f.process_lines.len() - start <= part.height {
            f.process_lines.len() as int
        } else {
            start + part.height
        };
        f.process_lines.subrange(start, end)
    }
}

/// The messages that are shown in a partition: as many as it has rows, from
/// the first on.
pub open spec fn shown_messages(f: ProcessPanelFrameView, part: Partition) -> Seq<
    ColoredSegmentView,
> {
    if f.messages.len() <= part.height {
        f.messages
    } else {
        f.messages.take(part.height as int)
    }
}

/// The steps that draw a frame on a screen of `height` rows. The screen is
/// cleared. On a screen that is too small a notice in red is written on the
/// first row. Else the filter line, if there is one, is written on the first
/// row, the process lines on the rows below it, and the messages on the rows
/// that end one above the last row of the screen.
pub open spec fn frame_ops(f: ProcessPanelFrameView, height: u16) -> Seq<DrawOpView> {
    match partition_plan(
        f.filter_line.is_some(),
        f.process_lines.len(),
        f.messages.len(),
        height,
    ) {
        None => seq![
            DrawOpView::Clear,
            DrawOpView::MoveTo { x: 0, y: 1 },
            DrawOpView::Notice { fg: Color::Red, text: "Screen too small"@ },
        ],
        Some(parts) => {
            let k = parts.len() as int;
            let messages = shown_messages(f, parts[k - 1]);
            seq![DrawOpView::Clear] + (match f.filter_line {
                Some(line) => seq![DrawOpView::MoveTo { x: 0, y: 1 }] + segment_ops(line),
                None => Seq::<DrawOpView>::empty(),
            }) + line_ops(
                shown_lines(f, parts[k - 2]),
                if f.filter_line.is_some() {
                    2
                } else {
                    1
                },
            ) + message_ops(messages, height - messages.len())
        },
    }
}

fn push_segments(ops: &mut Vec<DrawOp>, line: &Vec<ColoredSegment>)
    ensures
        final(ops).deep_view() == old(ops).deep_view() + segment_ops(line.deep_view()),
{
    let ghost start = ops.deep_view();
    let ghost target = segment_ops(line.deep_view());
    let mut i: usize = 0;
    assert(ops.deep_view() =~= start + target.take(0));
    while i < line.len()
        invariant
            i <= line.len(),
            target == segment_ops(line.deep_view()),
            ops.deep_view() == start + target.take(i as int),
        decreases line.len() - i,
    {
        let ghost before = ops.deep_view();
        ops.push(DrawOp::Segment(line[i].clone()));
        assert(ops.deep_view() =~= before.push(target[i as int]));
        assert(start + target.take(i + 1) =~= (start + target.take(i as int)).push(
            target[i as int],
        ));
        i += 1;
    }
    assert(target.take(line.len() as int) =~= target);
}

fn push_lines(
    ops: &mut Vec<DrawOp>,
    lines: &Vec<Vec<ColoredSegment>>,
    start: usize,
    end: usize,
    top: usize,
)
    requires
        start <= end <= lines.len(),
        top + (end - start) <= 0x1_0000,
    ensures
        final(ops).deep_view() == old(ops).deep_view() + line_ops(
            lines.deep_view().subrange(start as int, end as int),
            top as int,
        ),
{
    let ghost head = ops.deep_view();
    let ghost shown = lines.deep_view().subrange(start as int, end as int);
    let mut i: usize = start;
    assert(shown.take(0) =~= Seq::<Seq<ColoredSegmentView>>::empty());
    assert(ops.deep_view() =~= head + line_ops(shown.take(0), top as int));
    while i < end
        invariant
            start <= i <= end <= lines.len(),
            shown == lines.deep_view().subrange(start as int, end as int),
            top + (end - start) <= 0x1_0000,
            ops.deep_view() == head + line_ops(shown.take(i - start), top as int),
        decreases end - i,
    {
        let ghost upto = shown.take(i - start + 1);
        assert(upto.drop_last() =~= shown.take(i - start));
        assert(upto.last() == lines@[i as int].deep_view());
        let ghost before = ops.deep_view();
        let y: u16 = (top + (i - start)) as u16;
        ops.push(DrawOp::MoveTo { x: 0, y });
        let ghost moved = ops.deep_view();
        assert(moved =~= before.push(DrawOpView::MoveTo { x: 0, y }));
        push_segments(ops, &lines[i]);
        assert(head + line_ops(upto, top as int) =~= moved + segment_ops(upto.last()));
        i += 1;
    }
    assert(shown.take(end - start) =~= shown);
}

fn push_messages(ops: &mut Vec<DrawOp>, msgs: &Vec<ColoredSegment>, count: usize, top: usize)
    requires
        count <= msgs.len(),
        top + count <= 0x1_0000,
    ensures
        final(ops).deep_view() == old(ops).deep_view() + message_ops(
            msgs.deep_view().take(count as int),
            top as int,
        ),
{
    let ghost head = ops.deep_view();
    let ghost shown = msgs.deep_view().take(count as int);
    let mut j: usize = 0;
    assert(shown.take(0) =~= Seq::<ColoredSegmentView>::empty());
    assert(ops.deep_view() =~= head + message_ops(shown.take(0), top as int));
    while j < count
        invariant
            j <= count <= msgs.len(),
            shown == msgs.deep_view().take(count as int),
            top + count <= 0x1_0000,
            ops.deep_view() == head + message_ops(shown.take(j as int), top as int),
        decreases count - j,
    {
        let ghost upto = shown.take(j + 1);
        assert(upto.drop_last() =~= shown.take(j as int));
        assert(upto.last() == msgs@[j as int]@);
        let ghost before = ops.deep_view();
        let y: u16 = (top + j) as u16;
        ops.push(DrawOp::MoveTo { x: 0, y });
        ops.push(DrawOp::Segment(msgs[j].clone()));
        assert(ops.deep_view() =~= before + seq![
            DrawOpView::MoveTo { x: 0, y },
            DrawOpView::Segment(upto.last()),
        ]);
        j += 1;
    }
    assert(shown.take(count as int) =~= shown);
}

fn line_window(frame: &ProcessPanelFrame, part: Partition) -> (r: (usize, usize))
    ensures
        r.0 <= r.1 <= frame.process_lines.len(),
        frame@.process_lines.subrange(r.0 as int, r.1 as int) == shown_lines(frame@, part),
        part.fits ==> r.0 == 0 && r.1 == frame.process_lines.len(),
        !part.fits ==> r.1 - r.0 <= part.height,
{
    let total = frame.process_lines.len();
    if part.fits {
        assert(frame@.process_lines.subrange(0, total as int) =~= frame@.process_lines);
        (0, total)
    } else {
        let start: usize = match frame.current_process_line_index {
            Some(i) => if i <= total {
                i
            } else {
                total
            },
            None => 0,
        };
        let end: usize = if total - start <= part.height as usize {
            total
        } else {
            start + part.height as usize
        };
        (start, end)
    }
}

/// Plans the drawing of a frame on a screen of `height` rows.
pub fn draw_frame(frame: &ProcessPanelFrame, height: u16) -> (ops: Vec<DrawOp>)
    ensures
        ops.deep_view() == frame_ops(frame@, height),
{
    let mut ops: Vec<DrawOp> = Vec::new();
    ops.push(DrawOp::Clear);
    let partitions = frame.partition(height);
    let parts = match partitions {
        None => {
            ops.push(DrawOp::MoveTo { x: 0, y: 1 });
            ops.push(DrawOp::Notice { fg: Color::Red, text: copy_str("Screen too small") });
            assert(ops.deep_view() =~= frame_ops(frame@, height));
            return ops;
        },
        Some(parts) => parts,
    };
    proof {
        crate::frame::lemma_partition_fits_screen(
            frame@.filter_line.is_some(),
            frame@.process_lines.len(),
            frame@.messages.len(),
            height,
        );
    }
    let ghost f = frame@;
    let k = parts.len();
    let process_partition = parts[k - 2];
    let message_partition = parts[k - 1];
    assert(process_partition.height + message_partition.height + (k - 2) <= height);
    assert(process_partition.fits ==> f.process_lines.len() <= process_partition.height);
    let top: usize = match &frame.filter_line {
        Some(line) => {
            ops.push(DrawOp::MoveTo { x: 0, y: 1 });
            push_segments(&mut ops, line);
            2
        },
        None => 1,
    };
    assert(top == k - 1);
    let ghost head = seq![DrawOpView::Clear] + (match f.filter_line {
        Some(line) => seq![DrawOpView::MoveTo { x: 0, y: 1 }] + segment_ops(line),
        None => Seq::<DrawOpView>::empty(),
    });
    assert(ops.deep_view() =~= head);
    let (start, end) = line_window(frame, process_partition);
    push_lines(&mut ops, &frame.process_lines, start, end, top);
    let count: usize = if frame.messages.len() <= message_partition.height as usize {
        frame.messages.len()
    } else {
        message_partition.height as usize
    };
    assert(f.messages.take(count as int) =~= shown_messages(f, message_partition));
    push_messages(&mut ops, &frame.messages, count, height as usize - count);
    ops
}

/// Plans the drawing of a state on a screen of `height` rows.
pub fn draw_screen(state: &State, height: u16) -> (ops: Vec<DrawOp>)
    ensures
        ops.deep_view() == frame_ops(frame_of(state@), height),
{
    let frame = construct_frame(state);
    draw_frame(&frame, height)
}

/// The steps that make the screen ready for the panel, once the terminal
/// is in raw mode: the cursor is hidden.
pub fn init_screen() -> (ops: Vec<DrawOp>)
    ensures
        ops.deep_view() == seq![DrawOpView::HideCursor],
{
    let mut ops: Vec<DrawOp> = Vec::new();
    ops.push(DrawOp::HideCursor);
    assert(ops.deep_view() =~= seq![DrawOpView::HideCursor]);
    ops
}

/// The steps that give the screen back when the supervisor ends: the
/// cursor is put on the first row, the screen is cleared, and the cursor is
/// shown.
pub fn prepare_screen_for_exit() -> (ops: Vec<DrawOp>)
    ensures
        ops.deep_view() == seq![
            DrawOpView::MoveTo { x: 0, y: 1 },
            DrawOpView::Clear,
            DrawOpView::ShowCursor,
        ],
{
    let mut ops: Vec<DrawOp> = Vec::new();
    ops.push(DrawOp::MoveTo { x: 0, y: 1 });
    ops.push(DrawOp::Clear);
    ops.push(DrawOp::ShowCursor);
    assert(ops.deep_view() =~= seq![
        DrawOpView::MoveTo { x: 0, y: 1 },
        DrawOpView::Clear,
        DrawOpView::ShowCursor,
    ]);
    ops
}

} // verus!
