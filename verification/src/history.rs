//! The history log: an append-only ordered sequence of accepted messages,
//! never truncated or reordered, replayed in full to each newly
//! authenticated connection.

use vstd::prelude::*;

use crate::message::{lemma_views_of_push, views_of, Message, MessageView};

verus! {

/// How many times a message value occurs in a sequence.
pub open spec fn occurrences(s: Seq<MessageView>, m: MessageView) -> nat
    decreases s.len(),
{
    if s.len() == 0 {
        0
    } else {
        occurrences(s.drop_last(), m) + if s.last() == m {
            1nat
        } else {
            0nat
        }
    }
}

/// Appending a message adds exactly one occurrence of it and none of any
/// other message.
pub proof fn lemma_occurrences_push(s: Seq<MessageView>, m: MessageView, x: MessageView)
    ensures
        occurrences(s.push(m), m) == occurrences(s, m) + 1,
        x != m ==> occurrences(s.push(m), x) == occurrences(s, x),
{
    assert(s.push(m).drop_last() =~= s);
}

/// The shared record of accepted messages, in acceptance order.
pub struct HistoryLog {
    messages: Vec<Message>,
}

impl View for HistoryLog {
    type V = Seq<MessageView>;

    closed spec fn view(&self) -> Seq<MessageView> {
        views_of(self.messages@)
    }
}

impl HistoryLog {
    /// An empty log.
    pub fn new() -> (l: Self)
        ensures
            l@ == Seq::<MessageView>::empty(),
    {
        let l = HistoryLog { messages: Vec::new() };
        proof {
            assert(l@ =~= Seq::<MessageView>::empty());
        }
        l
    }

    /// How many messages the log holds.
    pub fn len(&self) -> (n: usize)
        ensures
            n == self@.len(),
    {
        self.messages.len()
    }

    /// Adds the message at the end; always succeeds, and no earlier entry
    /// moves or changes.
    pub fn append(&mut self, m: Message)
        ensures
            final(self)@ == old(self)@.push(m@),
    {
        let ghost m0 = self.messages@;
        self.messages.push(m);
        proof {
            lemma_views_of_push(m0, self.messages@.last());
            assert(self@ =~= old(self)@.push(m@));
        }
    }

    /// A point-in-time copy of all messages currently stored, in insertion
    /// order: exactly the log's content, nothing more, nothing less.
    pub fn snapshot(&self) -> (r: Vec<Message>)
        ensures
            views_of(r@) == self@,
    {
        let n = self.messages.len();
        let mut r: Vec<Message> = Vec::new();
        let mut i: usize = 0;
        while i < n
            invariant
                n == self.messages.len(),
                i <= n,
                views_of(r@) =~= self@.take(i as int),
            decreases n - i,
        {
            let ghost r0 = r@;
            r.push(self.messages[i].duplicate());
            proof {
                lemma_views_of_push(r0, r@.last());
                assert(views_of(r@) =~= self@.take(i as int + 1));
            }
            i += 1;
        }
        proof {
            assert(views_of(r@) =~= self@);
        }
        r
    }
}

/// A message appended once to a log that did not yet hold it appears exactly
/// once in the log afterwards, hence exactly once in any subsequent
/// snapshot (a snapshot's content equals the log's).
pub proof fn lemma_append_once_appears_once(s: Seq<MessageView>, m: MessageView)
    requires
        occurrences(s, m) == 0,
    ensures
        occurrences(s.push(m), m) == 1,
{
    lemma_occurrences_push(s, m, m);
}

} // verus!
