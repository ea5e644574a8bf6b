//! The broadcast bus: a multi-producer, multi-consumer fan-out channel with
//! a bounded backlog. Each subscription observes every message published
//! after it was taken, in publish order; a subscriber that falls more than
//! the bus capacity behind loses its oldest unconsumed entries (drop-oldest),
//! and is told how many were skipped.

use vstd::prelude::*;

use crate::message::{lemma_views_of_push, views_of, Message, MessageView};

verus! {

/// Backlog capacity of the bus: how many pending messages a subscriber may
/// accumulate before its oldest unconsumed entries are dropped.
pub const BUS_CAPACITY: usize = 100;

/// What one receive operation yields: the next message in publish order, a
/// notice that `skipped` older entries were dropped for this lagging
/// subscriber, or nothing pending right now.
pub enum Delivery {
    Item(Message),
    Lagged(usize),
    Empty,
}

/// The fan-out channel. Publishing appends to a shared log; each
/// subscription walks that log with its own cursor.
pub struct BroadcastBus {
    entries: Vec<Message>,
    capacity: usize,
}

/// A receive handle: observes exactly the messages published after
/// `subscribe` returned it.
pub struct Subscription {
    cursor: usize,
}

impl View for Subscription {
    type V = int;

    closed spec fn view(&self) -> int {
        self.cursor as int
    }
}

impl BroadcastBus {
    /// Everything ever published, in publish order.
    pub closed spec fn log(&self) -> Seq<MessageView> {
        views_of(self.entries@)
    }

    /// The backlog bound the bus was created with.
    pub closed spec fn capacity(&self) -> nat {
        self.capacity as nat
    }

    /// A new bus with the given backlog capacity and an empty log.
    pub fn new(capacity: usize) -> (b: Self)
        requires
            capacity >= 1,
        ensures
            b.log() == Seq::<MessageView>::empty(),
            b.capacity() == capacity,
    {
        let b = BroadcastBus { entries: Vec::new(), capacity };
        proof {
            assert(b.log() =~= Seq::<MessageView>::empty());
        }
        b
    }

    /// A new receive handle that will observe every message published after
    /// this call, and none published before.
    pub fn subscribe(&self) -> (s: Subscription)
        ensures
            s@ == self.log().len(),
            pending(self, &s) == Seq::<MessageView>::empty(),
    {
        let s = Subscription { cursor: self.entries.len() };
        proof {
            assert(pending(self, &s) =~= Seq::<MessageView>::empty());
        }
        s
    }

    /// Appends the message to the bus; every subscription that keeps pace
    /// will observe it, in publish order.
    pub fn publish(&mut self, m: Message)
        ensures
            final(self).log() == old(self).log().push(m@),
            final(self).capacity() == old(self).capacity(),
    {
        let ghost e0 = self.entries@;
        self.entries.push(m);
        proof {
            lemma_views_of_push(e0, self.entries@.last());
        }
    }

    /// Applies the drop-oldest policy: a subscription more than the bus
    /// capacity behind loses its oldest unconsumed entries and resumes at
    /// the oldest retained one; one that kept pace is untouched. Returns how
    /// many entries were dropped.
    fn catch_up(&self, sub: &mut Subscription) -> (skipped: usize)
        requires
            sub_wf(self, old(sub)),
        ensures
            sub_wf(self, final(sub)),
            pending(self, old(sub)).len() <= self.capacity() ==> final(sub)@ == old(sub)@
                && skipped == 0,
            pending(self, old(sub)).len() > self.capacity() ==> final(sub)@ == self.log().len()
                - self.capacity() && skipped == pending(self, old(sub)).len() - self.capacity(),
    {
        let n = self.entries.len();
        if n - sub.cursor > self.capacity {
            let skipped = n - sub.cursor - self.capacity;
            sub.cursor = n - self.capacity;
            skipped
        } else {
            0
        }
    }

    /// Yields the subscription's next message in publish order; if the
    /// subscriber lagged more than the bus capacity behind, reports how many
    /// of its oldest unconsumed entries were dropped and resumes at the
    /// oldest retained one.
    pub fn receive(&self, sub: &mut Subscription) -> (d: Delivery)
        requires
            sub_wf(self, old(sub)),
        ensures
            sub_wf(self, final(sub)),
            pending(self, old(sub)).len() == 0 ==> d is Empty && final(sub)@ == old(sub)@,
            0 < pending(self, old(sub)).len() <= self.capacity() ==> {
                &&& d matches Delivery::Item(m) && m@ == pending(self, old(sub)).first()
                &&& final(sub)@ == old(sub)@ + 1
                &&& pending(self, final(sub)) == pending(self, old(sub)).drop_first()
            },
            pending(self, old(sub)).len() > self.capacity() ==> {
                &&& d matches Delivery::Lagged(skipped) && skipped == pending(
                    self,
                    old(sub),
                ).len() - self.capacity()
                &&& final(sub)@ == self.log().len() - self.capacity()
                &&& pending(self, final(sub)) == self.log().skip(
                    self.log().len() - self.capacity(),
                )
            },
    {
        let skipped = self.catch_up(sub);
        if skipped > 0 {
            proof {
                assert(pending(self, sub) =~= self.log().skip(
                    self.log().len() - self.capacity(),
                ));
            }
            return Delivery::Lagged(skipped);
        }
        let n = self.entries.len();
        if sub.cursor >= n {
            proof {
                assert(pending(self, sub) =~= pending(self, old(sub)));
            }
            return Delivery::Empty;
        }
        let m = self.entries[sub.cursor].duplicate();
        proof {
            assert(m@ == pending(self, old(sub)).first());
        }
        sub.cursor = sub.cursor + 1;
        proof {
            assert(pending(self, sub) =~= pending(self, old(sub)).drop_first());
        }
        Delivery::Item(m)
    }

    /// Receives everything currently pending for the subscription, in
    /// publish order, leaving it fully caught up. A subscriber that kept
    /// pace gets exactly its pending messages and a skip count of zero; one
    /// that lagged gets the newest `capacity` messages of the log and the
    /// count of older entries dropped for it.
    pub fn drain(&self, sub: &mut Subscription) -> (r: (Vec<Message>, usize))
        requires
            sub_wf(self, old(sub)),
        ensures
            sub_wf(self, final(sub)),
            final(sub)@ == self.log().len(),
            pending(self, final(sub)) == Seq::<MessageView>::empty(),
            pending(self, old(sub)).len() <= self.capacity() ==> views_of(r.0@) == pending(
                self,
                old(sub),
            ) && r.1 == 0,
            pending(self, old(sub)).len() > self.capacity() ==> views_of(r.0@) == self.log().skip(
                self.log().len() - self.capacity(),
            ) && r.1 == pending(self, old(sub)).len() - self.capacity(),
    {
        let skipped = self.catch_up(sub);
        let ghost start = sub@;
        let n = self.entries.len();
        let mut out: Vec<Message> = Vec::new();
        while sub.cursor < n
            invariant
                n == self.entries@.len(),
                start == sub@ - out@.len(),
                0 <= start <= sub@ <= n,
                views_of(out@) =~= self.log().subrange(start, sub@),
            decreases n - sub.cursor,
        {
            let ghost o0 = out@;
            out.push(self.entries[sub.cursor].duplicate());
            proof {
                lemma_views_of_push(o0, out@.last());
                assert(views_of(out@) =~= self.log().subrange(start, sub@ + 1));
            }
            sub.cursor = sub.cursor + 1;
        }
        proof {
            assert(pending(self, sub) =~= Seq::<MessageView>::empty());
            assert(views_of(out@) =~= self.log().subrange(start, self.log().len() as int));
        }
        (out, skipped)
    }
}

/// A subscription's cursor never points past the end of the bus log.
pub open spec fn sub_wf(bus: &BroadcastBus, sub: &Subscription) -> bool {
    0 <= sub@ <= bus.log().len()
}

/// The messages published but not yet received by this subscription, oldest
/// first.
pub open spec fn pending(bus: &BroadcastBus, sub: &Subscription) -> Seq<MessageView> {
    bus.log().subrange(sub@, bus.log().len() as int)
}

/// Broadcast fan-out: a published message becomes the newest pending entry
/// of every subscription alive at the time of the publish, after all
/// messages published earlier and before none; as this holds of every such
/// subscription, all of them observe the message, in publish order.
pub proof fn lemma_broadcast_fanout(
    pre: &BroadcastBus,
    post: &BroadcastBus,
    sub: &Subscription,
    m: MessageView,
)
    requires
        sub_wf(pre, sub),
        post.log() == pre.log().push(m),
    ensures
        sub_wf(post, sub),
        pending(post, sub) == pending(pre, sub).push(m),
{
    assert(pending(post, sub) =~= pending(pre, sub).push(m));
}

/// History replay is prefix-consistent: a subscription taken when the log
/// held exactly the replayed messages has, at any later point, exactly the
/// messages published after the replay as its pending sequence — every
/// replayed message precedes every live-broadcast one, and no replayed
/// message is delivered again through the subscription.
pub proof fn lemma_replay_prefix_consistent(
    at_join: &BroadcastBus,
    later: &BroadcastBus,
    sub: &Subscription,
    replay: Seq<MessageView>,
)
    requires
        replay == at_join.log(),
        sub@ == at_join.log().len(),
        at_join.log().is_prefix_of(later.log()),
    ensures
        pending(later, sub) == later.log().skip(replay.len() as int),
        replay + pending(later, sub) == later.log(),
{
    assert(pending(later, sub) =~= later.log().skip(replay.len() as int));
    assert(replay + pending(later, sub) =~= later.log());
}

} // verus!
