//! The conversation log and the window of it that goes into a prompt.

use vstd::prelude::*;
use crate::message::{views_of, ChatMessage, MessageView, Role};

verus! {

/// Where the window of at most `cap` latest entries begins in a log of
/// `stored` entries.
pub open spec fn window_start(stored: nat, cap: nat) -> nat {
    if stored > cap {
        (stored - cap) as nat
    } else {
        0
    }
}

/// The prompt for a log `history`: one system message that holds
/// `preamble`, then the last `cap` entries of the log, or all of them where
/// it holds fewer.
pub open spec fn window_of(history: Seq<MessageView>, cap: nat, preamble: Seq<char>) -> Seq<
    MessageView,
> {
    seq![MessageView { role: Role::System, content: preamble }] + history.subrange(
        window_start(history.len(), cap) as int,
        history.len() as int,
    )
}

/// A prompt holds the system message with the preamble first and then the
/// latest entries of the log in their order: all of them where the log holds
/// at most `cap`, else exactly `cap`. So it never holds more than `cap + 1`
/// messages.
pub proof fn lemma_window_shape(history: Seq<MessageView>, cap: nat, preamble: Seq<char>)
    ensures
        window_of(history, cap, preamble).len() == 1 + if history.len() <= cap {
            history.len()
        } else {
            cap
        },
        window_of(history, cap, preamble).len() <= cap + 1,
        window_of(history, cap, preamble)[0] == (MessageView {
            role: Role::System,
            content: preamble,
        }),
        forall|at: int|
            1 <= at < window_of(history, cap, preamble).len() ==> #[trigger] window_of(
                history,
                cap,
                preamble,
            )[at] == history[window_start(history.len(), cap) + at - 1],
{
}

/// The conversation so far, oldest entry first. It only grows.
pub struct Transcript {
    entries: Vec<ChatMessage>,
}

impl View for Transcript {
    type V = Seq<MessageView>;

    closed spec fn view(&self) -> Seq<MessageView> {
        views_of(self.entries@)
    }
}

impl Transcript {
    /// An empty log.
    pub fn new() -> (log: Transcript)
        ensures
            log@ == Seq::<MessageView>::empty(),
    {
        let log = Transcript { entries: Vec::new() };
        assert(log@ =~= Seq::<MessageView>::empty());
        log
    }

    /// The number of entries stored.
    pub fn len(&self) -> (count: usize)
        ensures
            count == self@.len(),
    {
        self.entries.len()
    }

    /// A copy of the entry at `index`, counted from the oldest.
    pub fn get(&self, index: usize) -> (entry: Option<ChatMessage>)
        ensures
            index < self@.len() ==> entry.is_some() && entry.unwrap()@ == self@[index as int],
            index >= self@.len() ==> entry.is_none(),
    {
        if index < self.entries.len() {
            Some(self.entries[index].clone())
        } else {
            None
        }
    }

    /// Adds one message at the end of the log.
    pub fn append(&mut self, role: Role, content: String)
        ensures
            final(self)@ == old(self)@.push(MessageView { role, content: content@ }),
    {
        self.entries.push(ChatMessage { role, content });
        assert(self@ =~= old(self)@.push(MessageView { role, content: content@ }));
    }

    /// The prompt built from the log as it stands: the system message with
    /// `system_preamble`, then the latest `max_user_assistant` entries. The
    /// log itself is left as it was.
    pub fn window(&self, max_user_assistant: usize, system_preamble: &str) -> (prompt: Vec<
        ChatMessage,
    >)
        ensures
            views_of(prompt@) == window_of(self@, max_user_assistant as nat, system_preamble@),
            prompt@.len() == window_of(
                self@,
                max_user_assistant as nat,
                system_preamble@,
            ).len(),
            prompt@.len() <= max_user_assistant + 1,
            forall|at: int|
                0 <= at < prompt@.len() ==> (#[trigger] prompt@[at])@ == window_of(
                    self@,
                    max_user_assistant as nat,
                    system_preamble@,
                )[at],
    {
        let stored: usize = self.entries.len();
        let start: usize = if stored > max_user_assistant {
            stored - max_user_assistant
        } else {
            0
        };
        let mut prompt: Vec<ChatMessage> = Vec::new();
        prompt.push(ChatMessage { role: Role::System, content: system_preamble.to_owned() });
        let mut at: usize = start;
        while at < stored
            invariant
                stored == self.entries@.len(),
                start == window_start(self@.len(), max_user_assistant as nat),
                start <= at <= stored,
                prompt@.len() == 1 + at - start,
                views_of(prompt@) == seq![
                    MessageView { role: Role::System, content: system_preamble@ },
                ] + self@.subrange(start as int, at as int),
            decreases stored - at,
        {
            let ghost before = prompt@;
            let entry = self.entries[at].clone();
            assert(entry@ == self@[at as int]);
            prompt.push(entry);
            at = at + 1;
            assert(views_of(prompt@) =~= views_of(before).push(entry@));
            assert(views_of(prompt@) =~= seq![
                MessageView { role: Role::System, content: system_preamble@ },
            ] + self@.subrange(start as int, at as int));
        }
        assert forall|at: int| 0 <= at < prompt@.len() implies (#[trigger] prompt@[at])@
            == views_of(prompt@)[at] by {}
        prompt
    }
}

} // verus!
