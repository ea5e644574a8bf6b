//! The message envelope carried by the relay: sender, content, timestamp.
//! Immutable once constructed; shared read-only by the history log and by
//! every bus subscriber.

use vstd::prelude::*;

verus! {

/// One chat message. The sender field is producer-supplied and is not
/// verified against the authenticated identity of the connection.
pub struct Message {
    pub sender: String,
    pub content: String,
    pub timestamp: i64,
}

/// The mathematical value of a message: its texts as character sequences
/// and its timestamp as an unbounded integer.
pub struct MessageView {
    pub sender: Seq<char>,
    pub content: Seq<char>,
    pub timestamp: int,
}

impl View for Message {
    type V = MessageView;

    open spec fn view(&self) -> MessageView {
        MessageView {
            sender: self.sender@,
            content: self.content@,
            timestamp: self.timestamp as int,
        }
    }
}

/// The views of a sequence of messages, element by element.
pub open spec fn views_of(s: Seq<Message>) -> Seq<MessageView> {
    s.map_values(|m: Message| m@)
}

/// Taking views commutes with appending a message.
pub proof fn lemma_views_of_push(s: Seq<Message>, m: Message)
    ensures
        views_of(s.push(m)) == views_of(s).push(m@),
{
    assert(views_of(s.push(m)) =~= views_of(s).push(m@));
}

impl Message {
    /// An independent copy with the same sender, content and timestamp.
    pub fn duplicate(&self) -> (r: Message)
        ensures
            r@ == self@,
    {
        Message {
            sender: self.sender.clone(),
            content: self.content.clone(),
            timestamp: self.timestamp,
        }
    }
}

} // verus!
