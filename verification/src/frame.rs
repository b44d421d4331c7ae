//! The render plan of the panel: colored lines, and how the rows of the
//! screen are shared out among them.

use vstd::prelude::*;
use crate::color::{Color, Style};
use crate::constants::MIN_SCREEN_HEIGHT;
use crate::text::{byte_len, chars_of, copy_str, slice_chars, string_of};

verus! {

/// A piece of text with its colors.
#[derive(Debug, PartialEq, Eq)]
pub struct ColoredSegment {
    pub fg: Color,
    pub bg: Option<Color>,
    pub text: String,
    pub style: Option<Style>,
    /// The width to which the text is padded with spaces, if any.
    pub width: Option<usize>,
}

/// A [`ColoredSegment`] with its text as a sequence of characters.
pub struct ColoredSegmentView {
    pub fg: Color,
    pub bg: Option<Color>,
    pub text: Seq<char>,
    pub style: Option<Style>,
    pub width: Option<usize>,
}

impl View for ColoredSegment {
    type V = ColoredSegmentView;

    open spec fn view(&self) -> ColoredSegmentView {
        ColoredSegmentView {
            fg: self.fg,
            bg: self.bg,
            text: self.text@,
            style: self.style,
            width: self.width,
        }
    }
}

impl DeepView for ColoredSegment {
    type V = ColoredSegmentView;

    open spec fn deep_view(&self) -> ColoredSegmentView {
        self@
    }
}

impl Clone for ColoredSegment {
    fn clone(&self) -> (r: Self)
        ensures
            r@ == self@,
    {
        ColoredSegment {
            fg: self.fg,
            bg: self.bg,
            text: self.text.clone(),
            style: self.style,
            width: self.width,
        }
    }
}

/// A segment with a foreground color and nothing else set.
pub open spec fn plain_segment(fg: Color, text: Seq<char>) -> ColoredSegmentView {
    ColoredSegmentView { fg, bg: None, text, style: None, width: None }
}

impl ColoredSegment {
    /// A segment with a foreground color and nothing else set.
    pub fn new_basic(fg: Color, text: String) -> (r: Self)
        ensures
            r@ == plain_segment(fg, text@),
    {
        ColoredSegment { fg, bg: None, text, style: None, width: None }
    }

    /// The segment with the given background color.
    pub fn set_bg(self, bg: Color) -> (r: Self)
        ensures
            r@ == (ColoredSegmentView { bg: Some(bg), ..self@ }),
    {
        let mut s = self;
        s.bg = Some(bg);
        s
    }

    /// The segment with the given style.
    pub fn set_style(self, style: Style) -> (r: Self)
        ensures
            r@ == (ColoredSegmentView { style: Some(style), ..self@ }),
    {
        let mut s = self;
        s.style = Some(style);
        s
    }

    /// The segment padded to the given width.
    pub fn set_width(self, width: usize) -> (r: Self)
        ensures
            r@ == (ColoredSegmentView { width: Some(width), ..self@ }),
    {
        let mut s = self;
        s.width = Some(width);
        s
    }
}

/// What the panel shows: an optional filter line, the process lines with the
/// index of the selected one, and the message lines.
#[derive(Debug, PartialEq, Eq)]
pub struct ProcessPanelFrame {
    pub width: usize,
    pub filter_line: Option<Vec<ColoredSegment>>,
    pub process_lines: Vec<Vec<ColoredSegment>>,
    pub messages: Vec<ColoredSegment>,
    pub current_process_line_index: Option<usize>,
}

/// A [`ProcessPanelFrame`] with its texts as sequences of characters.
pub struct ProcessPanelFrameView {
    pub width: usize,
    pub filter_line: Option<Seq<ColoredSegmentView>>,
    pub process_lines: Seq<Seq<ColoredSegmentView>>,
    pub messages: Seq<ColoredSegmentView>,
    pub current_process_line_index: Option<usize>,
}

impl View for ProcessPanelFrame {
    type V = ProcessPanelFrameView;

    open spec fn view(&self) -> ProcessPanelFrameView {
        ProcessPanelFrameView {
            width: self.width,
            filter_line: self.filter_line.deep_view(),
            process_lines: self.process_lines.deep_view(),
            messages: self.messages.deep_view(),
            current_process_line_index: self.current_process_line_index,
        }
    }
}

impl ProcessPanelFrame {
    /// An empty frame of the given width.
    pub fn new(width: usize) -> (r: Self)
        ensures
            r@ == (ProcessPanelFrameView {
                width,
                filter_line: None,
                process_lines: Seq::<Seq<ColoredSegmentView>>::empty(),
                messages: Seq::<ColoredSegmentView>::empty(),
                current_process_line_index: None,
            }),
    {
        let r = ProcessPanelFrame {
            width,
            filter_line: None,
            process_lines: Vec::new(),
            messages: Vec::new(),
            current_process_line_index: None,
        };
        assert(r@.process_lines =~= Seq::<Seq<ColoredSegmentView>>::empty());
        assert(r@.messages =~= Seq::<ColoredSegmentView>::empty());
        r
    }

    /// Replaces the filter line.
    pub fn set_filter_line(&mut self, filter_line: Option<Vec<ColoredSegment>>)
        ensures
            final(self)@ == (ProcessPanelFrameView {
                filter_line: filter_line.deep_view(),
                ..old(self)@
            }),
    {
        self.filter_line = filter_line;
    }

    /// Replaces the process lines.
    pub fn set_process_lines(&mut self, process_lines: Vec<Vec<ColoredSegment>>)
        ensures
            final(self)@ == (ProcessPanelFrameView {
                process_lines: process_lines.deep_view(),
                ..old(self)@
            }),
    {
        self.process_lines = process_lines;
    }

    /// Replaces the index of the selected process line.
    pub fn set_current_process_line_index(&mut self, current_process_line_index: Option<usize>)
        ensures
            final(self)@ == (ProcessPanelFrameView { current_process_line_index, ..old(self)@ }),
    {
        self.current_process_line_index = current_process_line_index;
    }

    /// Replaces the message lines.
    pub fn set_messages(&mut self, messages: Vec<ColoredSegment>)
        ensures
            final(self)@ == (ProcessPanelFrameView {
                messages: messages.deep_view(),
                ..old(self)@
            }),
    {
        self.messages = messages;
    }
}

/// A band of rows of the screen, and whether what it is for fits in it.
#[derive(Clone, Copy, Debug, PartialEq, Eq, Structural)]
pub struct Partition {
    pub height: u16,
    pub fits: bool,
}

/// The rows that the partitions take together.
pub open spec fn total_height(parts: Seq<Partition>) -> int
    decreases parts.len(),
{
    if parts.len() == 0 {
        0
    } else {
        total_height(parts.drop_last()) + parts.last().height
    }
}

/// How a frame with or without a filter line, with so many process lines and
/// message lines, shares out a screen of `height` rows: nothing on a screen
/// that is too small; else one row for the filter line, if there is one, and
/// of the rest each of the two lists its own length if both fit, and else
/// three quarters for the processes and one quarter for the messages, both
/// rounded down.
pub open spec fn partition_plan(has_filter: bool, lines: nat, messages: nat, height: u16) -> Option<
    Seq<Partition>,
> {
    if height < MIN_SCREEN_HEIGHT {
        None
    } else {
        let head = if has_filter {
            seq![Partition { height: 1, fits: true }]
        } else {
            Seq::<Partition>::empty()
        };
        let remaining: int = if has_filter {
            height - 1
        } else {
            height as int
        };
        if lines + messages <= remaining {
            Some(
                head + seq![
                    Partition { height: lines as u16, fits: true },
                    Partition { height: messages as u16, fits: true },
                ],
            )
        } else {
            let share: int = remaining * 75 / 100;
            let rest: int = remaining * 25 / 100;
            Some(
                head + seq![
                    Partition { height: share as u16, fits: lines <= share },
                    Partition { height: rest as u16, fits: messages <= rest },
                ],
            )
        }
    }
}

/// On a screen that is high enough a frame is always partitioned: into three
/// partitions with a filter line, the first of them one row high, and into two
/// without; and the partitions never take more rows than the screen has.
pub proof fn lemma_partition_fits_screen(has_filter: bool, lines: nat, messages: nat, height: u16)
    requires
        height >= MIN_SCREEN_HEIGHT,
    ensures
        partition_plan(has_filter, lines, messages, height).is_some(),
        total_height(partition_plan(has_filter, lines, messages, height).unwrap()) <= height,
        has_filter ==> partition_plan(has_filter, lines, messages, height).unwrap().len() == 3
            && partition_plan(has_filter, lines, messages, height).unwrap()[0].height == 1,
        !has_filter ==> partition_plan(has_filter, lines, messages, height).unwrap().len() == 2,
{
    let plan = partition_plan(has_filter, lines, messages, height).unwrap();
    let remaining: int = if has_filter {
        height - 1
    } else {
        height as int
    };
    let n = plan.len() as int;
    let a = plan[n - 2];
    let b = plan[n - 1];
    assert(a.height + b.height <= remaining);
    assert(plan.drop_last().drop_last().len() == n - 2);
    assert(total_height(plan) == total_height(plan.drop_last()) + b.height);
    assert(plan.drop_last().last() == a);
    assert(total_height(plan.drop_last()) == total_height(plan.drop_last().drop_last())
        + a.height);
    if has_filter {
        let head = plan.drop_last().drop_last();
        assert(head.len() == 1);
        assert(head.last().height == 1);
        assert(head.drop_last().len() == 0);
        assert(total_height(head) == total_height(head.drop_last()) + 1);
    }
}

/// Something that can share out the rows of a screen.
pub trait Partitionable {
    /// The partitions on a screen of `height` rows, or nothing if the screen
    /// is too small. They never take more rows than the screen has.
    fn partition(&self, height: u16) -> (r: Option<Vec<Partition>>)
        ensures
            r matches Some(parts) ==> total_height(parts@) <= height,
    ;
}

impl Partitionable for ProcessPanelFrame {
    fn partition(&self, height: u16) -> (r: Option<Vec<Partition>>)
        ensures
            match r {
                Some(parts) => Some(parts@),
                None => None,
            } == partition_plan(
                self@.filter_line.is_some(),
                self@.process_lines.len(),
                self@.messages.len(),
                height,
            ),
    {
        if height < MIN_SCREEN_HEIGHT {
            return None;
        }
        proof {
            lemma_partition_fits_screen(
                self@.filter_line.is_some(),
                self@.process_lines.len(),
                self@.messages.len(),
                height,
            );
        }
        let mut remaining_height = height;
        let mut partitions: Vec<Partition> = Vec::new();
        if self.filter_line.is_some() {
            partitions.push(Partition { height: 1, fits: true });
            remaining_height -= 1;
        }
        let lines = self.process_lines.len();
        let messages = self.messages.len();
        let room = remaining_height as usize;
        if lines <= room && messages <= room - lines {
            partitions.push(Partition { height: lines as u16, fits: true });
            partitions.push(Partition { height: messages as u16, fits: true });
        } else {
            let share: u16 = ((remaining_height as u32) * 75 / 100) as u16;
            let rest: u16 = ((remaining_height as u32) * 25 / 100) as u16;
            partitions.push(Partition { height: share, fits: lines <= share as usize });
            partitions.push(Partition { height: rest, fits: messages <= rest as usize });
        }
        assert(partitions@ =~= partition_plan(
            self@.filter_line.is_some(),
            self@.process_lines.len(),
            self@.messages.len(),
            height,
        ).unwrap());
        Some(partitions)
    }
}

/// A text cut into pieces of `width` characters, the last one perhaps
/// shorter. With no width there are no pieces.
pub open spec fn chunks(s: Seq<char>, width: nat) -> Seq<Seq<char>>
    decreases s.len(),
{
    if s.len() == 0 || width == 0 {
        Seq::<Seq<char>>::empty()
    } else if s.len() <= width {
        seq![s]
    } else {
        seq![s.take(width as int)] + chunks(s.skip(width as int), width)
    }
}

/// The pieces one after the other, as one text.
pub open spec fn glued(parts: Seq<Seq<char>>) -> Seq<char>
    decreases parts.len(),
{
    if parts.len() == 0 {
        Seq::<char>::empty()
    } else {
        parts[0] + glued(parts.skip(1))
    }
}

/// The pieces of a text are the text again when they are put one after the
/// other; none of them is empty or longer than the width, and all but the
/// last have just the width.
pub proof fn lemma_chunks_cover(s: Seq<char>, width: nat)
    requires
        width > 0,
    ensures
        glued(chunks(s, width)) == s,
        forall|i: int|
            0 <= i < chunks(s, width).len() ==> 0 < (#[trigger] chunks(s, width)[i]).len()
                <= width,
        forall|i: int|
            0 <= i < chunks(s, width).len() - 1 ==> (#[trigger] chunks(s, width)[i]).len()
                == width,
    decreases s.len(),
{
    let parts = chunks(s, width);
    if s.len() == 0 {
    } else if s.len() <= width {
        assert(parts.skip(1).len() == 0);
        assert(glued(parts.skip(1)) =~= Seq::<char>::empty());
        assert(glued(parts) =~= s);
    } else {
        let rest = chunks(s.skip(width as int), width);
        lemma_chunks_cover(s.skip(width as int), width);
        assert(parts.skip(1) =~= rest);
        assert(parts[0] == s.take(width as int));
        assert(glued(parts) =~= s);
        assert forall|i: int| 0 <= i < parts.len() implies 0 < (#[trigger] parts[i]).len()
            <= width by {
            if i > 0 {
                assert(parts[i] == rest[i - 1]);
            }
        }
        assert forall|i: int| 0 <= i < parts.len() - 1 implies (#[trigger] parts[i]).len()
            == width by {
            if i > 0 {
                assert(parts[i] == rest[i - 1]);
            }
        }
    }
}

/// The pieces of all the texts, one text after the other.
pub open spec fn wrapped_lines(msgs: Seq<Seq<char>>, width: nat) -> Seq<Seq<char>>
    decreases msgs.len(),
{
    if msgs.len() == 0 {
        Seq::<Seq<char>>::empty()
    } else {
        wrapped_lines(msgs.drop_last(), width) + chunks(msgs.last(), width)
    }
}

/// Cuts a text into lines of `width` characters.
pub fn wrap_to_width(width: usize, s: &str) -> (r: Vec<String>)
    ensures
        r.deep_view() == chunks(s@, width as nat),
{
    let mut r: Vec<String> = Vec::new();
    let chars = chars_of(s);
    let n = chars.len();
    if width == 0 {
        assert(r.deep_view() =~= Seq::<Seq<char>>::empty());
        return r;
    }
    let mut i: usize = 0;
    assert(chars@.skip(0) =~= chars@);
    assert(r.deep_view() + chunks(chars@.skip(0), width as nat) =~= chunks(s@, width as nat));
    while i < n
        invariant
            i <= n,
            n == chars.len(),
            chars@ == s@,
            width > 0,
            r.deep_view() + chunks(chars@.skip(i as int), width as nat) == chunks(
                s@,
                width as nat,
            ),
        decreases n - i,
    {
        let end: usize = if n - i <= width {
            n
        } else {
            i + width
        };
        let ghost rest = chars@.skip(i as int);
        let ghost before = r.deep_view();
        let piece = slice_chars(&chars, i, end);
        r.push(string_of(&piece));
        assert(r.deep_view() =~= before.push(piece@));
        if end == n {
            assert(piece@ =~= rest);
            assert(chars@.skip(n as int).len() == 0);
            assert(before.push(piece@) + chunks(chars@.skip(n as int), width as nat) =~= before
                + chunks(rest, width as nat));
        } else {
            assert(piece@ =~= rest.take(width as int));
            assert(rest.skip(width as int) =~= chars@.skip(end as int));
            assert(before.push(piece@) + chunks(chars@.skip(end as int), width as nat) =~= before
                + chunks(rest, width as nat));
        }
        i = end;
    }
    assert(chars@.skip(n as int).len() == 0);
    assert(r.deep_view() + Seq::<Seq<char>>::empty() =~= r.deep_view());
    r
}

/// Cuts each of the texts into lines of `width` characters.
pub fn wrap_lines_to_width(width: usize, msgs: &[String]) -> (r: Vec<String>)
    ensures
        r.deep_view() == wrapped_lines(msgs.deep_view(), width as nat),
{
    let mut r: Vec<String> = Vec::new();
    let mut i: usize = 0;
    let ghost all = msgs.deep_view();
    assert(all.take(0) =~= Seq::<Seq<char>>::empty());
    assert(r.deep_view() =~= Seq::<Seq<char>>::empty());
    while i < msgs.len()
        invariant
            i <= msgs.len(),
            all == msgs.deep_view(),
            r.deep_view() == wrapped_lines(all.take(i as int), width as nat),
        decreases msgs.len() - i,
    {
        let ghost upto = all.take(i + 1);
        assert(upto.drop_last() =~= all.take(i as int));
        assert(upto.last() == msgs@[i as int]@);
        let mut lines = wrap_to_width(width, msgs[i].as_str());
        let ghost before = r.deep_view();
        let ghost added = lines.deep_view();
        r.append(&mut lines);
        assert(r.deep_view() =~= before + added);
        i += 1;
    }
    assert(all.take(msgs.len() as int) =~= all);
    r
}

/// The lines after one more item has been put on them: joined to the last
/// line with the delimiter between them if that takes no more than `width`
/// bytes, and on a line of its own if it does or if there is no line yet.
pub open spec fn broken_lines(
    width: nat,
    delimiter: Seq<char>,
    acc: Seq<Seq<char>>,
    next: Seq<char>,
) -> Seq<Seq<char>> {
    if acc.len() == 0 {
        seq![next]
    } else if byte_len(acc.last() + delimiter + next) > width {
        acc.push(next)
    } else {
        acc.drop_last().push(acc.last() + delimiter + next)
    }
}

/// Whether each of the lines takes no more than `width` bytes.
pub open spec fn within_width(lines: Seq<Seq<char>>, width: nat) -> bool {
    forall|i: int| 0 <= i < lines.len() ==> byte_len(#[trigger] lines[i]) <= width
}

/// Lines and an item that are no wider than `width` give lines that are no
/// wider than `width`.
pub proof fn lemma_broken_lines_keep_width(
    width: nat,
    delimiter: Seq<char>,
    acc: Seq<Seq<char>>,
    next: Seq<char>,
)
    requires
        within_width(acc, width),
        byte_len(next) <= width,
    ensures
        within_width(broken_lines(width, delimiter, acc, next), width),
{
    let r = broken_lines(width, delimiter, acc, next);
    assert forall|i: int| 0 <= i < r.len() implies byte_len(#[trigger] r[i]) <= width by {
        if acc.len() == 0 {
        } else if byte_len(acc.last() + delimiter + next) > width {
            if i < acc.len() {
                assert(r[i] == acc[i]);
            }
        } else {
            if i < acc.len() - 1 {
                assert(r[i] == acc[i]);
            }
        }
    }
}

/// Puts one more item on the lines: on the last line, behind the delimiter, if
/// the line then takes no more than `width` bytes, else on a new line.
pub fn break_at_natural_break_points(
    width: usize,
    delimiter: &str,
    acc: Vec<String>,
    next: &str,
) -> (r: Vec<String>)
    ensures
        r.deep_view() == broken_lines(width as nat, delimiter@, acc.deep_view(), next@),
        within_width(acc.deep_view(), width as nat) && byte_len(next@) <= width ==> within_width(
            r.deep_view(),
            width as nat,
        ),
{
    proof {
        if within_width(acc.deep_view(), width as nat) && byte_len(next@) <= width {
            lemma_broken_lines_keep_width(width as nat, delimiter@, acc.deep_view(), next@);
        }
    }
    let mut acc = acc;
    let ghost before = acc.deep_view();
    let n = acc.len();
    if n == 0 {
        acc.push(copy_str(next));
        assert(acc.deep_view() =~= seq![next@]);
        return acc;
    }
    let mut merged = acc[n - 1].clone();
    merged.append(delimiter);
    merged.append(next);
    assert(merged@ == before.last() + delimiter@ + next@);
    let bytes = merged.as_str().as_bytes();
    assert(bytes@.len() == byte_len(merged@));
    if bytes.len() > width {
        acc.push(copy_str(next));
        assert(acc.deep_view() =~= before.push(next@));
    } else {
        acc.remove(n - 1);
        acc.push(merged);
        assert(acc.deep_view() =~= before.drop_last().push(merged@));
    }
    acc
}

} // verus!
