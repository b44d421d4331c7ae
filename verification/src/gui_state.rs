//! What the panel shows besides the processes: messages and the filter.

use vstd::prelude::*;
use crate::config::{clone_optional_string, clone_strings};
use crate::state::Mutator;

verus! {

/// The messages and the filter of the panel.
#[derive(Debug, PartialEq, Eq)]
pub struct GUIState {
    pub messages: Vec<String>,
    pub filter_text: Option<String>,
    pub entering_filter_text: bool,
}

/// A [`GUIState`] with its texts as sequences of characters.
pub struct GUIStateView {
    pub messages: Seq<Seq<char>>,
    pub filter_text: Option<Seq<char>>,
    pub entering_filter_text: bool,
}

impl View for GUIState {
    type V = GUIStateView;

    open spec fn view(&self) -> GUIStateView {
        GUIStateView {
            messages: self.messages.deep_view(),
            filter_text: self.filter_text.deep_view(),
            entering_filter_text: self.entering_filter_text,
        }
    }
}

impl Clone for GUIState {
    fn clone(&self) -> (r: Self)
        ensures
            r@ == self@,
    {
        GUIState {
            messages: clone_strings(&self.messages),
            filter_text: clone_optional_string(&self.filter_text),
            entering_filter_text: self.entering_filter_text,
        }
    }
}

/// A panel state under construction: it starts as a copy of an existing one,
/// is changed step by step, and is then committed.
pub struct GUIStateMutation {
    init_state: GUIState,
}

impl Mutator<GUIState> for GUIStateMutation {
    closed spec fn pending(&self) -> GUIStateView {
        self.init_state@
    }

    fn on(state: &GUIState) -> (m: Self) {
        GUIStateMutation { init_state: state.clone() }
    }

    fn commit(self) -> (t: GUIState) {
        self.init_state
    }
}

impl GUIStateMutation {
    /// Replaces the filter text.
    pub fn set_filter_text(self, text: Option<String>) -> (r: Self)
        ensures
            r.pending() == (GUIStateView { filter_text: text.deep_view(), ..self.pending() }),
    {
        let mut m = self;
        m.init_state.filter_text = text;
        m
    }

    /// Marks the filter as being typed.
    pub fn start_entering_filter(self) -> (r: Self)
        ensures
            r.pending() == (GUIStateView { entering_filter_text: true, ..self.pending() }),
    {
        let mut m = self;
        m.init_state.entering_filter_text = true;
        m
    }

    /// Marks the filter as no longer being typed.
    pub fn stop_entering_filter(self) -> (r: Self)
        ensures
            r.pending() == (GUIStateView { entering_filter_text: false, ..self.pending() }),
    {
        let mut m = self;
        m.init_state.entering_filter_text = false;
        m
    }

    /// Adds a message after those already there.
    pub fn add_message(self, message: String) -> (r: Self)
        ensures
            r.pending() == (GUIStateView {
                messages: self.pending().messages.push(message@),
                ..self.pending()
            }),
    {
        let mut m = self;
        let ghost before = m.init_state.messages.deep_view();
        m.init_state.messages.push(message);
        assert(m.init_state.messages.deep_view() =~= before.push(message@));
        m
    }

    /// Removes all messages.
    pub fn clear_messages(self) -> (r: Self)
        ensures
            r.pending() == (GUIStateView {
                messages: Seq::<Seq<char>>::empty(),
                ..self.pending()
            }),
    {
        let mut m = self;
        m.init_state.messages.clear();
        assert(m.init_state.messages.deep_view() =~= Seq::<Seq<char>>::empty());
        m
    }
}

} // verus!
