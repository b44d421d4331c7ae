//! The control channel of the multiplexer: the subscription that reports
//! dead panes, and the reading of its notifications.

use vstd::prelude::*;
use crate::text::{
    chars_of, copy_str, has_prefix, parse_i32, parse_signed, pieces, same_chars, split, split_seq,
    starts_with, string_of, trim, trimmed,
};

verus! {

/// A text without its dollar signs.
pub open spec fn without_dollars(s: Seq<char>) -> Seq<char>
    decreases s.len(),
{
    if s.len() == 0 {
        s
    } else if s.last() == '$' {
        without_dollars(s.drop_last())
    } else {
        without_dollars(s.drop_last()).push(s.last())
    }
}

/// A text without its dollar signs is the text with every other character
/// kept.
pub proof fn lemma_without_dollars_is_filter(s: Seq<char>)
    ensures
        without_dollars(s) == s.filter(|c: char| c != '$'),
    decreases s.len(),
{
    reveal(Seq::filter);
    if s.len() > 0 {
        lemma_without_dollars_is_filter(s.drop_last());
    }
}

/// Removes the dollar signs from a session id, which a subscription's name
/// cannot hold.
pub fn clean(s: &str) -> (r: String)
    ensures
        r@ == without_dollars(s@),
{
    let chars = chars_of(s);
    let mut kept: Vec<char> = Vec::new();
    let mut i: usize = 0;
    assert(chars@.take(0) =~= Seq::<char>::empty());
    while i < chars.len()
        invariant
            i <= chars.len(),
            kept@ == without_dollars(chars@.take(i as int)),
        decreases chars.len() - i,
    {
        assert(chars@.take(i + 1).drop_last() =~= chars@.take(i as int));
        if chars[i] != '$' {
            kept.push(chars[i]);
        }
        i += 1;
    }
    assert(chars@.take(chars.len() as int) =~= chars@);
    string_of(&kept)
}

/// The name of the subscription for the dead panes of a session.
pub open spec fn subscription_name_of(session_id: Seq<char>) -> Seq<char> {
    "pane_dead_notification_"@ + without_dollars(session_id)
}

/// The line that registers a subscription: on every refresh the multiplexer
/// is to report, for each pane, whether it is dead, and the pid in it.
pub open spec fn subscription_line(name: Seq<char>) -> Seq<char> {
    "refresh-client -B "@ + name + ":%*:\"#{pane_dead} #{pane_pid}\"\n"@
}

/// The last two words of a line that tells of a change of the subscription:
/// whether the last word but one is `1`, the mark of a dead pane, and the
/// last word. Other lines have nothing to tell.
pub open spec fn dead_pane_words(line: Seq<char>, subscription_name: Seq<char>) -> Option<
    (bool, Seq<char>),
> {
    let words = split_seq(line, ' ');
    if has_prefix(line, "%subscription-changed "@ + subscription_name) && words.len() >= 2 {
        Some((words[words.len() - 2] == "1"@, words.last()))
    } else {
        None
    }
}

/// The pid that a line of the control channel reports dead: the line tells
/// of a change of the subscription, its last word but one is `1`, and its
/// last word, without the whitespace around it, is the pid.
pub open spec fn dead_pane_pid(line: Seq<char>, subscription_name: Seq<char>) -> Option<i32> {
    match dead_pane_words(line, subscription_name) {
        Some((dead, word)) => if dead {
            match parse_signed(trimmed(word), -0x8000_0000, 0x7fff_ffff) {
                Some(v) => Some(v as i32),
                None => None,
            }
        } else {
            None
        },
        None => None,
    }
}

/// The view of the last two words of a line.
pub open spec fn words_view(r: Option<(bool, String)>) -> Option<(bool, Seq<char>)> {
    match r {
        Some((dead, word)) => Some((dead, word@)),
        None => None,
    }
}

/// Reads the last two words of a line of the control channel that tells of a
/// change of the given subscription.
pub fn notification_words(line: &str, subscription_name: &str) -> (r: Option<(bool, String)>)
    ensures
        words_view(r) == dead_pane_words(line@, subscription_name@),
{
    let chars = chars_of(line);
    let mut head = copy_str("%subscription-changed ");
    head.append(subscription_name);
    let prefix = chars_of(head.as_str());
    if !starts_with(&chars, &prefix) {
        return None;
    }
    let words = split(&chars, ' ');
    let n = words.len();
    if n < 2 {
        return None;
    }
    assert(pieces(words@)[n - 2] == words@[n - 2]@);
    assert(pieces(words@)[n - 1] == words@[n - 1]@);
    let one = chars_of("1");
    Some((same_chars(&words[n - 2], &one), string_of(&words[n - 1])))
}

/// Reads a line of the control channel: the pid of a pane that has died, if
/// the line reports one for the given subscription.
pub fn parse_pane_dead_notification(line: &str, subscription_name: &str) -> (r: Option<i32>)
    ensures
        r == dead_pane_pid(line@, subscription_name@),
{
    match notification_words(line, subscription_name) {
        Some((dead, word)) => {
            if dead {
                let pid_text = trim(word.as_str());
                parse_i32(&chars_of(pid_text.as_str()))
            } else {
                None
            }
        },
        None => None,
    }
}

/// The watcher of one session's dead panes.
#[derive(Debug, PartialEq, Eq)]
pub struct TmuxDaemon {
    pub session_id: String,
    pub subscription_name: String,
    /// Whether the control channel is still to be read.
    pub running: bool,
}

/// A [`TmuxDaemon`] with its texts as sequences of characters.
pub struct TmuxDaemonView {
    pub session_id: Seq<char>,
    pub subscription_name: Seq<char>,
    pub running: bool,
}

impl View for TmuxDaemon {
    type V = TmuxDaemonView;

    open spec fn view(&self) -> TmuxDaemonView {
        TmuxDaemonView {
            session_id: self.session_id@,
            subscription_name: self.subscription_name@,
            running: self.running,
        }
    }
}

impl TmuxDaemon {
    /// The watcher of the given session, running.
    pub fn new(session_id: &str) -> (r: Self)
        ensures
            r@ == (TmuxDaemonView {
                session_id: session_id@,
                subscription_name: subscription_name_of(session_id@),
                running: true,
            }),
    {
        let mut name = copy_str("pane_dead_notification_");
        let cleaned = clean(session_id);
        name.append(cleaned.as_str());
        TmuxDaemon { session_id: copy_str(session_id), subscription_name: name, running: true }
    }

    /// The command that opens the control channel.
    pub fn control_mode(&self) -> (args: Vec<String>)
        ensures
            args.deep_view() == seq![
                "tmux"@,
                "-C"@,
                "attach-session"@,
                "-t"@,
                self@.session_id,
            ],
    {
        crate::tmux::control_mode(self.session_id.as_str())
    }

    /// The line that is written to the control channel to register the
    /// subscription.
    pub fn subscribe_to_pane_dead_notifications(&self) -> (line: String)
        ensures
            line@ == subscription_line(self@.subscription_name),
    {
        let mut cmd = copy_str("refresh-client -B ");
        cmd.append(self.subscription_name.as_str());
        cmd.append(":%*:\"#{pane_dead} #{pane_pid}\"\n");
        cmd
    }

    /// What a line read from the control channel reports: the pid of a dead
    /// pane, or nothing. A watcher that has been stopped reports nothing.
    pub fn listen_for_dead_panes(&self, line: &str) -> (r: Option<i32>)
        ensures
            r == if self.running {
                dead_pane_pid(line@, self@.subscription_name)
            } else {
                None
            },
    {
        if self.running {
            parse_pane_dead_notification(line, self.subscription_name.as_str())
        } else {
            None
        }
    }

    /// Stops the watcher.
    pub fn kill(&mut self)
        ensures
            final(self)@ == (TmuxDaemonView { running: false, ..old(self)@ }),
    {
        self.running = false;
    }
}

} // verus!
