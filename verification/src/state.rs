//! The snapshot that the supervisor works on: the catalog, the selection and
//! the panel state.

use vstd::prelude::*;
use crate::config::{clone_optional_string, ProcTmuxConfig, ProcTmuxConfigView, ProcessConfigView};
use crate::gui_state::{GUIState, GUIStateView};
use crate::process::{fresh_process, Process, ProcessStatus, ProcessView};
use crate::text::{
    chars_of, contains, first_index, has_prefix, le_chars, lemma_first_index,
    lemma_first_index_is_first, lemma_text_le_total, lemma_text_le_transitive, lowercase,
    occurs_in, pieces, same_chars, starts_with, suffix_from, text_le, to_lower,
};

verus! {

/// A builder that makes a new value of `T` from an existing one: it starts
/// `on` a value, is changed by the builder's own methods, and is turned into
/// the new value by `commit`.
pub trait Mutator<T: View>: Sized {
    /// The value that `commit` will hand out.
    spec fn pending(&self) -> T::V;

    /// A builder that holds a copy of `state`.
    fn on(state: &T) -> (m: Self)
        ensures
            m.pending() == state@,
    ;

    /// The value that was built.
    fn commit(self) -> (t: T)
        ensures
            t@ == self.pending(),
    ;
}

/// Everything the supervisor knows at one moment.
#[derive(Debug, PartialEq, Eq)]
pub struct State {
    pub config: ProcTmuxConfig,
    /// The id of the selected process; 0 while nothing is selected.
    pub current_proc_id: usize,
    pub processes: Vec<Process>,
    pub gui_state: GUIState,
    /// Set once the user has asked to quit.
    pub exiting: bool,
}

/// A [`State`] with its texts as sequences of characters.
pub struct StateView {
    pub config: ProcTmuxConfigView,
    pub current_proc_id: usize,
    pub processes: Seq<ProcessView>,
    pub gui_state: GUIStateView,
    pub exiting: bool,
}

impl View for State {
    type V = StateView;

    open spec fn view(&self) -> StateView {
        StateView {
            config: self.config@,
            current_proc_id: self.current_proc_id,
            processes: self.processes.deep_view(),
            gui_state: self.gui_state@,
            exiting: self.exiting,
        }
    }
}

/// A copy of a list of processes.
pub fn clone_processes(v: &Vec<Process>) -> (r: Vec<Process>)
    ensures
        r.deep_view() == v.deep_view(),
{
    let r = v.clone();
    assert(r.deep_view() =~= v.deep_view());
    r
}

impl Clone for State {
    fn clone(&self) -> (r: Self)
        ensures
            r@ == self@,
    {
        State {
            config: self.config.clone(),
            current_proc_id: self.current_proc_id,
            processes: clone_processes(&self.processes),
            gui_state: self.gui_state.clone(),
            exiting: self.exiting,
        }
    }
}

/// The processes of a configuration in its own order, halted, with the ids
/// 1, 2, 3 and so on.
pub open spec fn catalog(procs: Seq<(Seq<char>, ProcessConfigView)>) -> Seq<ProcessView> {
    Seq::new(procs.len(), |i: int| fresh_process((i + 1) as usize, procs[i].0, procs[i].1))
}

/// A list that is ordered by label, with one more process put behind the
/// last one whose label does not come after its own.
pub open spec fn insert_by_label(sorted: Seq<ProcessView>, p: ProcessView) -> Seq<ProcessView>
    decreases sorted.len(),
{
    if sorted.len() == 0 || text_le(sorted.last().label, p.label) {
        sorted.push(p)
    } else {
        insert_by_label(sorted.drop_last(), p).push(sorted.last())
    }
}

/// The processes ordered by label; those with equal labels keep their order.
pub open spec fn sort_by_label(ps: Seq<ProcessView>) -> Seq<ProcessView>
    decreases ps.len(),
{
    if ps.len() == 0 {
        ps
    } else {
        insert_by_label(sort_by_label(ps.drop_last()), ps.last())
    }
}

/// The state that the supervisor starts in.
pub open spec fn initial_state(config: ProcTmuxConfigView) -> StateView {
    StateView {
        config,
        current_proc_id: 0,
        processes: if config.layout.sort_process_list_alpha {
            sort_by_label(catalog(config.procs))
        } else {
            catalog(config.procs)
        },
        gui_state: GUIStateView {
            messages: Seq::<Seq<char>>::empty(),
            filter_text: None,
            entering_filter_text: false,
        },
        exiting: false,
    }
}

/// The test whether a process has the given id.
pub open spec fn has_id(id: usize) -> spec_fn(ProcessView) -> bool {
    |p: ProcessView| p.id == id
}

/// The test whether a process runs under the given pid.
pub open spec fn has_pid(pid: i32) -> spec_fn(ProcessView) -> bool {
    |p: ProcessView| p.pid == Some(pid)
}

/// The test whether an id is the given one.
pub open spec fn is_id(id: usize) -> spec_fn(usize) -> bool {
    |x: usize| x == id
}

/// Where the first process with the given id stands in the list; the length
/// of the list if there is none.
pub open spec fn index_of_id(ps: Seq<ProcessView>, id: usize) -> int {
    first_index(ps, has_id(id))
}

/// The first process with the given id.
pub open spec fn process_by_id(ps: Seq<ProcessView>, id: usize) -> Option<ProcessView> {
    if index_of_id(ps, id) < ps.len() {
        Some(ps[index_of_id(ps, id)])
    } else {
        None
    }
}

/// Where the first process with the given pid stands in the list; the length
/// of the list if there is none.
pub open spec fn index_of_pid(ps: Seq<ProcessView>, pid: i32) -> int {
    first_index(ps, has_pid(pid))
}

/// The first process with the given pid.
pub open spec fn process_by_pid(ps: Seq<ProcessView>, pid: i32) -> Option<ProcessView> {
    if index_of_pid(ps, pid) < ps.len() {
        Some(ps[index_of_pid(ps, pid)])
    } else {
        None
    }
}

/// A category filter matches a process one of whose categories is the
/// filter's term in lowercase.
pub open spec fn category_match(term: Seq<char>, p: ProcessView) -> bool {
    has_category(p.config.categories, lowercase(term))
}

/// Whether the wanted category is one of the categories.
pub open spec fn has_category(categories: Option<Seq<Seq<char>>>, wanted: Seq<char>) -> bool {
    match categories {
        Some(cs) => cs.contains(wanted),
        None => false,
    }
}

/// Whether one of the tags holds `needle`.
pub open spec fn some_tag_holds(tags: Seq<Seq<char>>, needle: Seq<char>) -> bool {
    exists|i: int| 0 <= i < tags.len() && occurs_in(needle, #[trigger] tags[i])
}

/// Whether the label or one of the tags holds `needle`.
pub open spec fn text_match(
    needle: Seq<char>,
    label: Seq<char>,
    tags: Option<Seq<Seq<char>>>,
) -> bool {
    ||| occurs_in(needle, label)
    ||| match tags {
        Some(ts) => some_tag_holds(ts, needle),
        None => false,
    }
}

/// The tags in lowercase.
pub open spec fn lowered(tags: Option<Seq<Seq<char>>>) -> Option<Seq<Seq<char>>> {
    match tags {
        Some(ts) => Some(Seq::new(ts.len(), |i: int| lowercase(ts[i]))),
        None => None,
    }
}

/// A text filter matches a process whose label or one of whose meta tags
/// holds the filter, case set aside.
pub open spec fn name_match(filter: Seq<char>, p: ProcessView) -> bool {
    text_match(lowercase(filter), lowercase(p.label), lowered(p.config.meta_tags))
}

/// Whether the filter lets a process through: no filter lets all through; one
/// that begins with the category prefix goes by category, any other by name.
pub open spec fn process_matches(
    filter: Option<Seq<char>>,
    prefix: Seq<char>,
    p: ProcessView,
) -> bool {
    match filter {
        None => true,
        Some(f) => if has_prefix(f, prefix) {
            category_match(f.skip(prefix.len() as int), p)
        } else {
            name_match(f, p)
        },
    }
}

/// The processes that the filter lets through, in their order.
pub open spec fn visible(
    ps: Seq<ProcessView>,
    filter: Option<Seq<char>>,
    prefix: Seq<char>,
) -> Seq<ProcessView>
    decreases ps.len(),
{
    if ps.len() == 0 {
        ps
    } else if process_matches(filter, prefix, ps.last()) {
        visible(ps.drop_last(), filter, prefix).push(ps.last())
    } else {
        visible(ps.drop_last(), filter, prefix)
    }
}

/// The test whether the filter lets a process through.
pub open spec fn lets_through(filter: Option<Seq<char>>, prefix: Seq<char>) -> spec_fn(
    ProcessView,
) -> bool {
    |p: ProcessView| process_matches(filter, prefix, p)
}

/// The visible processes are the processes without those that the filter
/// does not let through.
pub proof fn lemma_visible_is_filter(
    ps: Seq<ProcessView>,
    filter: Option<Seq<char>>,
    prefix: Seq<char>,
)
    ensures
        visible(ps, filter, prefix) == ps.filter(lets_through(filter, prefix)),
    decreases ps.len(),
{
    reveal(Seq::filter);
    if ps.len() > 0 {
        lemma_visible_is_filter(ps.drop_last(), filter, prefix);
    }
}

/// The processes of a state that its filter lets through.
pub open spec fn filtered_processes(s: StateView) -> Seq<ProcessView> {
    visible(s.processes, s.gui_state.filter_text, s.config.layout.category_search_prefix)
}

/// The ids of a list of processes.
pub open spec fn ids_of(ps: Seq<ProcessView>) -> Seq<usize> {
    Seq::new(ps.len(), |i: int| ps[i].id)
}

/// The selection after one step through the visible ids: nothing changes
/// where none is visible; the only visible one is taken; a selection that is
/// not visible is replaced by the first; else the neighbour is taken, the
/// first after the last and the last before the first.
pub open spec fn selection_after_move(ids: Seq<usize>, current: usize, forward: bool) -> usize {
    if ids.len() == 0 {
        current
    } else if ids.len() < 2 {
        ids[0]
    } else {
        let idx = first_index(ids, is_id(current));
        if idx == ids.len() {
            ids[0]
        } else if forward {
            if idx + 1 == ids.len() {
                ids[0]
            } else {
                ids[idx + 1]
            }
        } else {
            if idx == 0 {
                ids[ids.len() - 1]
            } else {
                ids[idx - 1]
            }
        }
    }
}

/// The selection after a series of steps, `true` for each step forward.
pub open spec fn selection_after_moves(ids: Seq<usize>, current: usize, moves: Seq<bool>) -> usize
    decreases moves.len(),
{
    if moves.len() == 0 {
        current
    } else {
        selection_after_move(
            ids,
            selection_after_moves(ids, current, moves.drop_last()),
            moves.last(),
        )
    }
}

/// After a step the selection is one of the visible ids, if there is any.
pub proof fn lemma_selection_stays_visible(ids: Seq<usize>, current: usize, forward: bool)
    requires
        ids.len() > 0,
    ensures
        ids.contains(selection_after_move(ids, current, forward)),
{
    let pred = is_id(current);
    lemma_first_index_is_first(ids, pred);
    let r = selection_after_move(ids, current, forward);
    if ids.len() < 2 {
        assert(ids[0] == r);
    } else {
        let idx = first_index(ids, pred);
        if idx == ids.len() {
            assert(ids[0] == r);
        } else if forward {
            if idx + 1 == ids.len() {
                assert(ids[0] == r);
            } else {
                assert(ids[idx + 1] == r);
            }
        } else {
            if idx == 0 {
                assert(ids[ids.len() - 1] == r);
            } else {
                assert(ids[idx - 1] == r);
            }
        }
    }
}

/// After any series of one or more steps forward and backward the selection
/// is one of the visible ids, if there is any.
pub proof fn lemma_selection_stays_visible_after_moves(
    ids: Seq<usize>,
    current: usize,
    moves: Seq<bool>,
)
    requires
        ids.len() > 0,
        moves.len() > 0,
    ensures
        ids.contains(selection_after_moves(ids, current, moves)),
{
    lemma_selection_stays_visible(
        ids,
        selection_after_moves(ids, current, moves.drop_last()),
        moves.last(),
    );
}

/// The processes with the status of those that have the given id replaced.
pub open spec fn with_status(ps: Seq<ProcessView>, id: usize, status: ProcessStatus) -> Seq<
    ProcessView,
> {
    Seq::new(
        ps.len(),
        |i: int|
            if ps[i].id == id {
                ProcessView { status, ..ps[i] }
            } else {
                ps[i]
            },
    )
}

/// The processes with the pane of those that have the given id replaced.
pub open spec fn with_pane(ps: Seq<ProcessView>, id: usize, pane_id: Option<Seq<char>>) -> Seq<
    ProcessView,
> {
    Seq::new(
        ps.len(),
        |i: int|
            if ps[i].id == id {
                ProcessView { pane_id, ..ps[i] }
            } else {
                ps[i]
            },
    )
}

/// The processes with the pid of those that have the given id replaced.
pub open spec fn with_pid(ps: Seq<ProcessView>, id: usize, pid: Option<i32>) -> Seq<ProcessView> {
    Seq::new(
        ps.len(),
        |i: int|
            if ps[i].id == id {
                ProcessView { pid, ..ps[i] }
            } else {
                ps[i]
            },
    )
}

/// Putting a process at `pos` is putting it by label, if `pos` is behind the
/// last process whose label does not come after its own.
proof fn lemma_insert_position(s: Seq<ProcessView>, p: ProcessView, pos: int)
    requires
        0 <= pos <= s.len(),
        forall|k: int| pos <= k < s.len() ==> !text_le((#[trigger] s[k]).label, p.label),
        pos == 0 || text_le(s[pos - 1].label, p.label),
    ensures
        insert_by_label(s, p) == s.insert(pos, p),
    decreases s.len(),
{
    if pos == s.len() {
        assert(s.push(p) =~= s.insert(pos, p));
    } else {
        assert(!text_le(s[s.len() - 1].label, p.label));
        let t = s.drop_last();
        assert forall|k: int| pos <= k < t.len() implies !text_le(
            (#[trigger] t[k]).label,
            p.label,
        ) by {
            assert(t[k] == s[k]);
        }
        lemma_insert_position(t, p, pos);
        assert(t.insert(pos, p).push(s.last()) =~= s.insert(pos, p));
    }
}

fn label_le(a: &str, b: &str) -> (r: bool)
    ensures
        r == text_le(a@, b@),
{
    let x = chars_of(a);
    let y = chars_of(b);
    le_chars(&x, &y)
}

fn insert_sorted(sorted: &mut Vec<Process>, p: Process)
    ensures
        final(sorted).deep_view() == insert_by_label(old(sorted).deep_view(), p@),
{
    let mut pos: usize = sorted.len();
    let mut found = false;
    while pos > 0 && !found
        invariant
            pos <= sorted.len(),
            *sorted == *old(sorted),
            forall|k: int|
                pos <= k < sorted.len() ==> !text_le(
                    (#[trigger] sorted.deep_view()[k]).label,
                    p@.label,
                ),
            found ==> pos > 0 && text_le(sorted.deep_view()[pos - 1].label, p@.label),
        decreases pos + (if found { 0int } else { 1int }),
    {
        if label_le(sorted[pos - 1].label.as_str(), p.label.as_str()) {
            found = true;
        } else {
            pos -= 1;
        }
    }
    proof {
        lemma_insert_position(sorted.deep_view(), p@, pos as int);
    }
    let ghost before = sorted.deep_view();
    let ghost pv = p@;
    sorted.insert(pos, p);
    assert(sorted.deep_view() =~= before.insert(pos as int, pv));
}

fn lowercase_chars(s: &str) -> (v: Vec<char>)
    ensures
        v@ == lowercase(s@),
{
    let l = to_lower(s);
    chars_of(l.as_str())
}

/// The views of the tags, if there are tags.
pub open spec fn tag_views(tags: Option<Vec<Vec<char>>>) -> Option<Seq<Seq<char>>> {
    match tags {
        Some(ts) => Some(pieces(ts@)),
        None => None,
    }
}

fn list_has(list: &Vec<String>, item: &Vec<char>) -> (r: bool)
    ensures
        r == list.deep_view().contains(item@),
{
    let mut i: usize = 0;
    while i < list.len()
        invariant
            i <= list.len(),
            forall|k: int| 0 <= k < i ==> list.deep_view()[k] != item@,
        decreases list.len() - i,
    {
        let entry = chars_of(list[i].as_str());
        if same_chars(&entry, item) {
            assert(list.deep_view()[i as int] == item@);
            return true;
        }
        i += 1;
    }
    false
}

fn tag_holds(tags: &Vec<Vec<char>>, needle: &Vec<char>) -> (r: bool)
    ensures
        r == some_tag_holds(pieces(tags@), needle@),
{
    let mut i: usize = 0;
    while i < tags.len()
        invariant
            i <= tags.len(),
            forall|k: int| 0 <= k < i ==> !occurs_in(needle@, #[trigger] pieces(tags@)[k]),
        decreases tags.len() - i,
    {
        if contains(&tags[i], needle) {
            assert(occurs_in(needle@, pieces(tags@)[i as int]));
            return true;
        }
        i += 1;
    }
    false
}

/// Whether the wanted category is one of the categories.
pub fn matches_category(wanted: &Vec<char>, categories: &Option<Vec<String>>) -> (r: bool)
    ensures
        r == has_category(categories.deep_view(), wanted@),
{
    match categories {
        Some(list) => list_has(list, wanted),
        None => false,
    }
}

/// Whether the label or one of the tags holds `needle`.
pub fn matches_text(needle: &Vec<char>, label: &Vec<char>, tags: &Option<Vec<Vec<char>>>) -> (r:
    bool)
    ensures
        r == text_match(needle@, label@, tag_views(*tags)),
{
    if contains(label, needle) {
        return true;
    }
    match tags {
        Some(ts) => tag_holds(ts, needle),
        None => false,
    }
}

fn lowercase_tags(tags: &Option<Vec<String>>) -> (r: Option<Vec<Vec<char>>>)
    ensures
        tag_views(r) == lowered(tags.deep_view()),
{
    match tags {
        Some(ts) => {
            let mut out: Vec<Vec<char>> = Vec::new();
            let mut i: usize = 0;
            let ghost target = lowered(tags.deep_view()).unwrap();
            while i < ts.len()
                invariant
                    i <= ts.len(),
                    target == lowered(Some(ts.deep_view())).unwrap(),
                    pieces(out@) == target.take(i as int),
                decreases ts.len() - i,
            {
                let ghost before = pieces(out@);
                let tag = lowercase_chars(ts[i].as_str());
                assert(tag@ == target[i as int]);
                out.push(tag);
                assert(pieces(out@) =~= before.push(target[i as int]));
                assert(target.take(i + 1) =~= target.take(i as int).push(target[i as int]));
                i += 1;
            }
            assert(target.take(ts.len() as int) =~= target);
            Some(out)
        },
        None => None,
    }
}

/// Whether the filter lets the process through. `prefix` is the text that a
/// category filter begins with.
pub fn process_matches_filter(process: &Process, filter: &Option<String>, prefix: &str) -> (r:
    bool)
    ensures
        r == process_matches(filter.deep_view(), prefix@, process@),
{
    match filter {
        None => true,
        Some(text) => {
            let f = chars_of(text.as_str());
            let pre = chars_of(prefix);
            if starts_with(&f, &pre) {
                let term = suffix_from(&f, pre.len());
                let wanted = lowercase_chars(crate::text::string_of(&term).as_str());
                matches_category(&wanted, &process.config.categories)
            } else {
                let needle = lowercase_chars(text.as_str());
                let label = lowercase_chars(process.label.as_str());
                let tags = lowercase_tags(&process.config.meta_tags);
                matches_text(&needle, &label, &tags)
            }
        },
    }
}

impl State {
    /// The state at startup: every process of the configuration halted, in
    /// the order of their labels if the layout asks for it, nothing selected,
    /// no filter and no message.
    pub fn new(config: &ProcTmuxConfig) -> (s: State)
        ensures
            s@ == initial_state(config@),
            forall|rule: crate::invariants::Rule| crate::invariants::obeys(rule, s@.processes),
    {
        proof {
            assert(config@.procs.len() == config.procs.len());
            assert forall|rule: crate::invariants::Rule| crate::invariants::obeys(
                rule,
                initial_state(config@).processes,
            ) by {
                crate::invariants::lemma_initial_state_is_regular(rule, config@);
            }
        }
        let sort = config.layout.sort_process_list_alpha;
        let mut listed: Vec<Process> = Vec::new();
        let mut i: usize = 0;
        let ghost all = catalog(config@.procs);
        while i < config.procs.len()
            invariant
                i <= config.procs.len(),
                all == catalog(config@.procs),
                listed.deep_view() == all.take(i as int),
            decreases config.procs.len() - i,
        {
            let ghost before = listed.deep_view();
            let p = Process::new(i + 1, config.procs[i].0.as_str(), config.procs[i].1.clone());
            assert(p@ == all[i as int]);
            listed.push(p);
            assert(listed.deep_view() =~= before.push(all[i as int]));
            assert(all.take(i + 1) =~= all.take(i as int).push(all[i as int]));
            i += 1;
        }
        assert(all.take(config.procs.len() as int) =~= all);
        let processes = if sort {
            let mut sorted: Vec<Process> = Vec::new();
            let mut j: usize = 0;
            assert(all.take(0) =~= Seq::<ProcessView>::empty());
            while j < listed.len()
                invariant
                    j <= listed.len(),
                    listed.deep_view() == all,
                    sorted.deep_view() == sort_by_label(all.take(j as int)),
                decreases listed.len() - j,
            {
                assert(all.take(j + 1).drop_last() =~= all.take(j as int));
                insert_sorted(&mut sorted, listed[j].clone());
                j += 1;
            }
            assert(all.take(listed.len() as int) =~= all);
            sorted
        } else {
            listed
        };
        let gui_state = GUIState {
            messages: Vec::new(),
            filter_text: None,
            entering_filter_text: false,
        };
        assert(gui_state@.messages =~= Seq::<Seq<char>>::empty());
        State { config: config.clone(), current_proc_id: 0, processes, gui_state, exiting: false }
    }

    /// The first process with the given id.
    pub fn get_process(&self, process_id: usize) -> (r: Option<&Process>)
        ensures
            r.deep_view() == process_by_id(self@.processes, process_id),
    {
        let mut i: usize = 0;
        while i < self.processes.len()
            invariant
                i <= self.processes.len(),
                forall|k: int| 0 <= k < i ==> (#[trigger] self@.processes[k]).id != process_id,
            decreases self.processes.len() - i,
        {
            if self.processes[i].id == process_id {
                proof {
                    lemma_first_index(self@.processes, has_id(process_id), i as int);
                }
                return Some(&self.processes[i]);
            }
            i += 1;
        }
        proof {
            lemma_first_index(self@.processes, has_id(process_id), i as int);
        }
        None
    }

    /// The selected process.
    pub fn current_process(&self) -> (r: Option<&Process>)
        ensures
            r.deep_view() == process_by_id(self@.processes, self.current_proc_id),
    {
        self.get_process(self.current_proc_id)
    }

    /// The first process that runs under the given pid.
    pub fn get_process_by_pid(&self, pid: i32) -> (r: Option<&Process>)
        ensures
            r.deep_view() == process_by_pid(self@.processes, pid),
    {
        let mut i: usize = 0;
        while i < self.processes.len()
            invariant
                i <= self.processes.len(),
                forall|k: int| 0 <= k < i ==> (#[trigger] self@.processes[k]).pid != Some(pid),
            decreases self.processes.len() - i,
        {
            let hit = match self.processes[i].pid {
                Some(p) => p == pid,
                None => false,
            };
            if hit {
                proof {
                    lemma_first_index(self@.processes, has_pid(pid), i as int);
                }
                return Some(&self.processes[i]);
            }
            i += 1;
        }
        proof {
            lemma_first_index(self@.processes, has_pid(pid), i as int);
        }
        None
    }

    /// The processes that the filter lets through, in the order of the
    /// catalog.
    pub fn get_filtered_processes(&self) -> (r: Vec<&Process>)
        ensures
            r.deep_view() == filtered_processes(self@),
    {
        let mut r: Vec<&Process> = Vec::new();
        let mut i: usize = 0;
        let ghost ps = self@.processes;
        let ghost filter = self@.gui_state.filter_text;
        let ghost prefix = self@.config.layout.category_search_prefix;
        assert(ps.take(0) =~= Seq::<ProcessView>::empty());
        while i < self.processes.len()
            invariant
                i <= self.processes.len(),
                ps == self@.processes,
                filter == self@.gui_state.filter_text,
                prefix == self@.config.layout.category_search_prefix,
                r.deep_view() == visible(ps.take(i as int), filter, prefix),
            decreases self.processes.len() - i,
        {
            let ghost upto = ps.take(i + 1);
            assert(upto.drop_last() =~= ps.take(i as int));
            assert(upto.last() == self.processes@[i as int]@);
            if process_matches_filter(
                &self.processes[i],
                &self.gui_state.filter_text,
                self.config.layout.category_search_prefix.as_str(),
            ) {
                let ghost before = r.deep_view();
                r.push(&self.processes[i]);
                assert(r.deep_view() =~= before.push(upto.last()));
            }
            i += 1;
        }
        assert(ps.take(self.processes.len() as int) =~= ps);
        r
    }
}

/// What is replaced in a process.
enum Change {
    Status(ProcessStatus),
    Pane(Option<String>),
    Pid(Option<i32>),
}

/// A process with one thing replaced.
spec fn changed(p: ProcessView, change: Change) -> ProcessView {
    match change {
        Change::Status(status) => ProcessView { status, ..p },
        Change::Pane(pane_id) => ProcessView { pane_id: pane_id.deep_view(), ..p },
        Change::Pid(pid) => ProcessView { pid, ..p },
    }
}

/// Copies of the processes, with the change made to those that have the
/// given id.
fn rebuilt(processes: &Vec<Process>, id: usize, change: &Change) -> (r: Vec<Process>)
    ensures
        r.deep_view().len() == processes.deep_view().len(),
        forall|i: int|
            0 <= i < r.deep_view().len() ==> #[trigger] r.deep_view()[i] == if processes@[i]@.id
                == id {
                changed(processes@[i]@, *change)
            } else {
                processes@[i]@
            },
{
    let ghost before = processes.deep_view();
    let mut r: Vec<Process> = Vec::new();
    let mut i: usize = 0;
    while i < processes.len()
        invariant
            i <= processes.len(),
            before == processes.deep_view(),
            r.deep_view().len() == i,
            forall|k: int|
                0 <= k < i ==> #[trigger] r.deep_view()[k] == if before[k].id == id {
                    changed(before[k], *change)
                } else {
                    before[k]
                },
        decreases processes.len() - i,
    {
        let ghost done = r.deep_view();
        let mut p = processes[i].clone();
        if p.id == id {
            match change {
                Change::Status(status) => {
                    p.status = *status;
                },
                Change::Pane(pane_id) => {
                    p.pane_id = clone_optional_string(pane_id);
                },
                Change::Pid(pid) => {
                    p.pid = *pid;
                },
            }
        }
        let ghost pv = p@;
        r.push(p);
        assert(r.deep_view() =~= done.push(pv));
        i += 1;
    }
    r
}

/// A state under construction: it starts as a copy of an existing one, is
/// changed step by step, and is then committed.
pub struct StateMutation {
    init_state: State,
}

impl Mutator<State> for StateMutation {
    closed spec fn pending(&self) -> StateView {
        self.init_state@
    }

    fn on(state: &State) -> (m: Self) {
        StateMutation { init_state: state.clone() }
    }

    fn commit(self) -> (t: State) {
        self.init_state
    }
}

impl StateMutation {
    fn move_process_selection(self, forward: bool) -> (r: Self)
        ensures
            r.pending() == (StateView {
                current_proc_id: selection_after_move(
                    ids_of(filtered_processes(self.pending())),
                    self.pending().current_proc_id,
                    forward,
                ),
                ..self.pending()
            }),
    {
        let mut m = self;
        let ghost ids = ids_of(filtered_processes(m.init_state@));
        let current = m.init_state.current_proc_id;
        let filtered = m.init_state.get_filtered_processes();
        let n = filtered.len();
        if n == 0 {
            return m;
        }
        assert(ids[0] == filtered@[0].id);
        if n < 2 {
            let first = filtered[0].id;
            m.init_state.current_proc_id = first;
            return m;
        }
        let mut idx: usize = 0;
        while idx < n && filtered[idx].id != current
            invariant
                n == filtered.len(),
                idx <= n,
                ids == ids_of(filtered.deep_view()),
                forall|k: int| 0 <= k < idx ==> (#[trigger] ids[k]) != current,
            decreases n - idx,
        {
            idx += 1;
        }
        proof {
            if idx < n {
                assert(ids[idx as int] == filtered@[idx as int].id);
            }
            lemma_first_index(ids, is_id(current), idx as int);
        }
        let target: usize = if idx == n {
            0
        } else if forward {
            if idx + 1 == n {
                0
            } else {
                idx + 1
            }
        } else {
            if idx == 0 {
                n - 1
            } else {
                idx - 1
            }
        };
        assert(ids[target as int] == filtered@[target as int].id);
        let chosen = filtered[target].id;
        m.init_state.current_proc_id = chosen;
        m
    }

    /// Selects the visible process after the selected one; the first after
    /// the last. With no visible process nothing changes.
    pub fn next_process(self) -> (r: Self)
        ensures
            r.pending() == (StateView {
                current_proc_id: selection_after_move(
                    ids_of(filtered_processes(self.pending())),
                    self.pending().current_proc_id,
                    true,
                ),
                ..self.pending()
            }),
            filtered_processes(r.pending()) == filtered_processes(self.pending()),
            filtered_processes(self.pending()).len() > 0 ==> ids_of(
                filtered_processes(r.pending()),
            ).contains(r.pending().current_proc_id),
    {
        proof {
            if filtered_processes(self.pending()).len() > 0 {
                lemma_selection_stays_visible(
                    ids_of(filtered_processes(self.pending())),
                    self.pending().current_proc_id,
                    true,
                );
            }
        }
        self.move_process_selection(true)
    }

    /// Selects the visible process before the selected one; the last before
    /// the first. With no visible process nothing changes.
    pub fn previous_process(self) -> (r: Self)
        ensures
            r.pending() == (StateView {
                current_proc_id: selection_after_move(
                    ids_of(filtered_processes(self.pending())),
                    self.pending().current_proc_id,
                    false,
                ),
                ..self.pending()
            }),
            filtered_processes(r.pending()) == filtered_processes(self.pending()),
            filtered_processes(self.pending()).len() > 0 ==> ids_of(
                filtered_processes(r.pending()),
            ).contains(r.pending().current_proc_id),
    {
        proof {
            if filtered_processes(self.pending()).len() > 0 {
                lemma_selection_stays_visible(
                    ids_of(filtered_processes(self.pending())),
                    self.pending().current_proc_id,
                    false,
                );
            }
        }
        self.move_process_selection(false)
    }

    /// Gives every process with the given id the given status.
    pub fn set_process_status(self, status: ProcessStatus, process_id: usize) -> (r: Self)
        ensures
            r.pending() == (StateView {
                processes: with_status(self.pending().processes, process_id, status),
                ..self.pending()
            }),
    {
        let mut m = self;
        let changed = rebuilt(&m.init_state.processes, process_id, &Change::Status(status));
        assert(changed.deep_view() =~= with_status(m.init_state@.processes, process_id, status));
        m.init_state.processes = changed;
        m
    }

    /// Gives every process with the given id the given pane, or none.
    pub fn set_process_pane_id(self, pane_id: Option<String>, process_id: usize) -> (r: Self)
        ensures
            r.pending() == (StateView {
                processes: with_pane(self.pending().processes, process_id, pane_id.deep_view()),
                ..self.pending()
            }),
    {
        let mut m = self;
        let ghost pane = pane_id.deep_view();
        let changed = rebuilt(&m.init_state.processes, process_id, &Change::Pane(pane_id));
        assert(changed.deep_view() =~= with_pane(m.init_state@.processes, process_id, pane));
        m.init_state.processes = changed;
        m
    }

    /// Gives every process with the given id the given pid, or none.
    pub fn set_process_pid(self, pid: Option<i32>, process_id: usize) -> (r: Self)
        ensures
            r.pending() == (StateView {
                processes: with_pid(self.pending().processes, process_id, pid),
                ..self.pending()
            }),
    {
        let mut m = self;
        let changed = rebuilt(&m.init_state.processes, process_id, &Change::Pid(pid));
        assert(changed.deep_view() =~= with_pid(m.init_state@.processes, process_id, pid));
        m.init_state.processes = changed;
        m
    }

    /// Replaces the panel state.
    pub fn set_gui_state(self, gui_state: GUIState) -> (r: Self)
        ensures
            r.pending() == (StateView { gui_state: gui_state@, ..self.pending() }),
    {
        let mut m = self;
        m.init_state.gui_state = gui_state;
        m
    }

    /// Records that the user has asked to quit.
    pub fn set_exiting(self) -> (r: Self)
        ensures
            r.pending() == (StateView { exiting: true, ..self.pending() }),
    {
        let mut m = self;
        m.init_state.exiting = true;
        m
    }
}


/// Whether the labels of the processes never go down.
pub open spec fn ordered_by_label(ps: Seq<ProcessView>) -> bool {
    forall|i: int, j: int|
        0 <= i < j < ps.len() ==> text_le((#[trigger] ps[i]).label, (#[trigger] ps[j]).label)
}

/// Where a process is put by label: behind the last process whose label does
/// not come after its own.
pub proof fn lemma_insert_by_label_position(s: Seq<ProcessView>, p: ProcessView) -> (pos: int)
    ensures
        0 <= pos <= s.len(),
        insert_by_label(s, p) == s.insert(pos, p),
        forall|k: int| pos <= k < s.len() ==> !text_le((#[trigger] s[k]).label, p.label),
        pos == 0 || text_le(s[pos - 1].label, p.label),
    decreases s.len(),
{
    if s.len() == 0 || text_le(s.last().label, p.label) {
        assert(s.push(p) =~= s.insert(s.len() as int, p));
        s.len() as int
    } else {
        let t = s.drop_last();
        let pos = lemma_insert_by_label_position(t, p);
        assert(t.insert(pos, p).push(s.last()) =~= s.insert(pos, p));
        assert forall|k: int| pos <= k < s.len() implies !text_le(
            (#[trigger] s[k]).label,
            p.label,
        ) by {
            if k < t.len() {
                assert(t[k] == s[k]);
            }
        }
        if pos > 0 {
            assert(t[pos - 1] == s[pos - 1]);
        }
        pos
    }
}

/// Ordering by label loses no process and adds none.
pub proof fn lemma_sort_is_permutation(ps: Seq<ProcessView>)
    ensures
        sort_by_label(ps).to_multiset() == ps.to_multiset(),
        sort_by_label(ps).len() == ps.len(),
    decreases ps.len(),
{
    if ps.len() > 0 {
        let rest = ps.drop_last();
        lemma_sort_is_permutation(rest);
        let pos = lemma_insert_by_label_position(sort_by_label(rest), ps.last());
        vstd::seq_lib::to_multiset_insert(sort_by_label(rest), pos, ps.last());
        vstd::seq_lib::to_multiset_build(rest, ps.last());
        assert(rest.push(ps.last()) =~= ps);
    }
}

/// Ordering by label gives labels that never go down.
pub proof fn lemma_sort_is_ordered(ps: Seq<ProcessView>)
    ensures
        ordered_by_label(sort_by_label(ps)),
    decreases ps.len(),
{
    if ps.len() > 0 {
        let rest = sort_by_label(ps.drop_last());
        let p = ps.last();
        lemma_sort_is_ordered(ps.drop_last());
        let pos = lemma_insert_by_label_position(rest, p);
        let r = rest.insert(pos, p);
        assert forall|i: int, j: int| 0 <= i < j < r.len() implies text_le(
            (#[trigger] r[i]).label,
            (#[trigger] r[j]).label,
        ) by {
            if j == pos {
                assert(r[i] == rest[i]);
                if i < pos - 1 {
                    assert(text_le(rest[i].label, rest[pos - 1].label));
                    lemma_text_le_transitive(rest[i].label, rest[pos - 1].label, p.label);
                }
            } else if i == pos {
                assert(r[j] == rest[j - 1]);
                assert(!text_le(rest[j - 1].label, p.label));
                lemma_text_le_total(rest[j - 1].label, p.label);
            } else {
                let a = if i < pos {
                    i
                } else {
                    i - 1
                };
                let b = if j < pos {
                    j
                } else {
                    j - 1
                };
                assert(r[i] == rest[a] && r[j] == rest[b]);
            }
        }
    }
}


/// A text filter does not tell upper case from lower case: filters, labels
/// and meta tags that differ in the case of their letters alone match
/// alike.
pub proof fn lemma_name_match_ignores_case(
    filter: Seq<char>,
    other_filter: Seq<char>,
    p: ProcessView,
    q: ProcessView,
)
    requires
        lowercase(filter) == lowercase(other_filter),
        lowercase(p.label) == lowercase(q.label),
        lowered(p.config.meta_tags) == lowered(q.config.meta_tags),
    ensures
        name_match(filter, p) == name_match(other_filter, q),
{
}

/// A category filter matches exactly the processes one of whose categories
/// equals the filter's term in lowercase.
pub proof fn lemma_category_match_is_exact(term: Seq<char>, p: ProcessView)
    ensures
        category_match(term, p) <==> (p.config.categories matches Some(cs) && exists|i: int|
            0 <= i < cs.len() && cs[i] == lowercase(term)),
{
}

} // verus!
