//! One entry of the process catalog.

use vstd::prelude::*;
use crate::config::{clone_optional_string, ProcessConfig, ProcessConfigView};
use crate::text::copy_str;

verus! {

/// Where a process stands in its life.
#[derive(Clone, Copy, Debug, PartialEq, Eq, Structural)]
pub enum ProcessStatus {
    /// Started, and not asked to stop.
    Running,
    /// Signalled to stop, its death not yet reported.
    Halting,
    /// Not running.
    Halted,
}

/// A process of the catalog with what the supervisor knows of it.
#[derive(Debug, PartialEq, Eq)]
pub struct Process {
    pub id: usize,
    pub label: String,
    pub status: ProcessStatus,
    /// The pane that the multiplexer holds for this process, if any.
    pub pane_id: Option<String>,
    /// The operating system's id of the running process, if any.
    pub pid: Option<i32>,
    pub config: ProcessConfig,
}

/// A [`Process`] with its texts as sequences of characters.
pub struct ProcessView {
    pub id: usize,
    pub label: Seq<char>,
    pub status: ProcessStatus,
    pub pane_id: Option<Seq<char>>,
    pub pid: Option<i32>,
    pub config: ProcessConfigView,
}

impl View for Process {
    type V = ProcessView;

    open spec fn view(&self) -> ProcessView {
        ProcessView {
            id: self.id,
            label: self.label@,
            status: self.status,
            pane_id: self.pane_id.deep_view(),
            pid: self.pid,
            config: self.config@,
        }
    }
}

impl DeepView for Process {
    type V = ProcessView;

    open spec fn deep_view(&self) -> ProcessView {
        self@
    }
}

impl Clone for Process {
    fn clone(&self) -> (r: Self)
        ensures
            r@ == self@,
    {
        Process {
            id: self.id,
            label: self.label.clone(),
            status: self.status,
            pane_id: clone_optional_string(&self.pane_id),
            pid: self.pid,
            config: self.config.clone(),
        }
    }
}

/// The words of a command, each between single quotes and followed by a
/// space.
pub open spec fn quoted_words(words: Seq<Seq<char>>) -> Seq<char>
    decreases words.len(),
{
    if words.len() == 0 {
        Seq::<char>::empty()
    } else {
        quoted_words(words.drop_last()) + "'"@ + words.last() + "' "@
    }
}

/// The command line that runs a process: its shell string if it has one,
/// else its words, quoted; empty if it has neither.
pub open spec fn command_text(config: ProcessConfigView) -> Seq<char> {
    match config.shell {
        Some(s) => s,
        None => match config.cmd {
            Some(words) => quoted_words(words),
            None => Seq::<char>::empty(),
        },
    }
}

/// A process that has never run.
pub open spec fn fresh_process(
    id: usize,
    label: Seq<char>,
    config: ProcessConfigView,
) -> ProcessView {
    ProcessView { id, label, status: ProcessStatus::Halted, pane_id: None, pid: None, config }
}

impl Process {
    /// A halted process without pane or pid.
    pub fn new(id: usize, label: &str, config: ProcessConfig) -> (r: Self)
        ensures
            r@ == fresh_process(id, label@, config@),
    {
        Process {
            id,
            label: copy_str(label),
            status: ProcessStatus::Halted,
            pane_id: None,
            pid: None,
            config,
        }
    }

    /// The command line that the multiplexer is to run for this process.
    pub fn command(&self) -> (r: String)
        ensures
            r@ == command_text(self@.config),
    {
        match &self.config.shell {
            Some(s) => s.clone(),
            None => match &self.config.cmd {
                Some(words) => {
                    let mut r = String::new();
                    let mut i: usize = 0;
                    let ghost all = words.deep_view();
                    assert(all.take(0) =~= Seq::<Seq<char>>::empty());
                    while i < words.len()
                        invariant
                            i <= words.len(),
                            all == words.deep_view(),
                            r@ == quoted_words(all.take(i as int)),
                        decreases words.len() - i,
                    {
                        let ghost upto = all.take(i + 1);
                        assert(upto.drop_last() =~= all.take(i as int));
                        assert(upto.last() == words@[i as int]@);
                        r.append("'");
                        r.append(words[i].as_str());
                        r.append("' ");
                        i += 1;
                    }
                    assert(all.take(words.len() as int) =~= all);
                    r
                },
                None => String::new(),
            },
        }
    }
}

} // verus!
