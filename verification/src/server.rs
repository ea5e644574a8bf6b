//! The server context: one shared credential store, history log and
//! broadcast bus, constructed once at startup and handed to every
//! per-connection task — never reached through ambient globals. Its
//! invariant ties the history log and the bus together: every accepted
//! message goes to both, in the same order.

use vstd::prelude::*;

use crate::bus::{BroadcastBus, Subscription, BUS_CAPACITY};
use crate::credentials::{auth_ok, register_step, CredentialStore};
use crate::errors::ChatError;
use crate::history::HistoryLog;
use crate::message::{views_of, Message, MessageView};
use crate::session::handle_client_payload;

verus! {

/// The shared state of the relay. All mutation goes through `register_user`
/// and `broadcast_message`, so the history log and the bus log stay equal.
pub struct ChatServer {
    pub users: CredentialStore,
    pub messages: HistoryLog,
    pub bus: BroadcastBus,
}

impl ChatServer {
    /// Usernames are unique, and the bus has published exactly the accepted
    /// history, in acceptance order.
    pub open spec fn wf(&self) -> bool {
        &&& self.users.wf()
        &&& self.messages@ == self.bus.log()
        &&& self.bus.capacity() >= 1
    }

    /// A fresh server: no users, no history, nothing published.
    pub fn new() -> (s: Self)
        ensures
            s.wf(),
            s.users.spec_map() == Map::<Seq<char>, Seq<char>>::empty(),
            s.messages@ == Seq::<MessageView>::empty(),
            s.bus.log() == Seq::<MessageView>::empty(),
            s.bus.capacity() == BUS_CAPACITY as nat,
    {
        ChatServer {
            users: CredentialStore::new(),
            messages: HistoryLog::new(),
            bus: BroadcastBus::new(BUS_CAPACITY),
        }
    }

    /// Registers the pair iff the username is absent; otherwise fails with
    /// `AuthConflict` and changes nothing. History and bus are untouched.
    pub fn register_user(&mut self, username: String, password: String) -> (r: Result<
        (),
        ChatError,
    >)
        requires
            old(self).wf(),
        ensures
            final(self).wf(),
            final(self).users.spec_map() == register_step(
                old(self).users.spec_map(),
                username@,
                password@,
            ),
            r is Ok <==> !old(self).users.spec_map().contains_key(username@),
            r is Err ==> r == Err::<(), ChatError>(ChatError::AuthConflict),
            final(self).messages@ == old(self).messages@,
            final(self).bus.log() == old(self).bus.log(),
    {
        self.users.register(username, password)
    }

    /// True iff the username is registered with exactly this password.
    pub fn authenticate_user(&self, username: &String, password: &String) -> (r: bool)
        requires
            self.wf(),
        ensures
            r == auth_ok(self.users.spec_map(), username@, password@),
    {
        self.users.authenticate(username, password)
    }

    /// Accepts a message: appends it to the history log and publishes it on
    /// the bus, as one step. The credential store is untouched.
    pub fn broadcast_message(&mut self, message: Message)
        requires
            old(self).wf(),
        ensures
            final(self).wf(),
            final(self).messages@ == old(self).messages@.push(message@),
            final(self).bus.log() == old(self).bus.log().push(message@),
            final(self).users == old(self).users,
            final(self).bus.capacity() == old(self).bus.capacity(),
    {
        let _ = handle_client_payload(&mut self.messages, &mut self.bus, Some(message));
    }

    /// On entering the authenticated state: the full history to replay to
    /// the client, in order, together with a subscription that will observe
    /// exactly the messages accepted after this call.
    pub fn join_session(&self) -> (r: (Vec<Message>, Subscription))
        requires
            self.wf(),
        ensures
            views_of(r.0@) == self.messages@,
            r.1@ == self.bus.log().len(),
            crate::bus::pending(&self.bus, &r.1) == Seq::<MessageView>::empty(),
    {
        let replay = self.messages.snapshot();
        let sub = self.bus.subscribe();
        (replay, sub)
    }
}

} // verus!
