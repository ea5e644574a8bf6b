//! The per-connection session state machine: one control message decides
//! authentication (fatal on failure), then the steady state appends each
//! well-formed inbound message to the history log and publishes it on the
//! bus, while malformed payloads are discarded and the session stays open.
//!
//! The transport itself (reads, writes, disconnects) is an external
//! collaborator: it feeds these functions plain values and carries their
//! replies back to the client.

use vstd::prelude::*;

use crate::bus::BroadcastBus;
use crate::credentials::{auth_ok, register_step, CredentialStore};
use crate::errors::ChatError;
use crate::history::HistoryLog;
use crate::message::Message;

verus! {

/// The connection lifecycle. Error paths during authentication jump
/// straight to `Closed`; `Closed` is terminal.
#[derive(Clone, Copy, Debug, PartialEq, Eq, Structural)]
pub enum SessionState {
    AwaitingAuth,
    Authenticated,
    Closed,
}

/// The first (control) message of a connection, already stripped of its
/// wire encoding: a registration, a login, or anything else (an unknown
/// type or a malformed envelope).
pub enum ControlMessage {
    Register { username: String, password: String },
    Login { username: String, password: String },
    Invalid,
}

/// How the fields of a decoded control envelope classify: a `register` or
/// `login` type with both credentials present makes the matching control
/// message; a missing field or any other type is invalid.
pub open spec fn spec_classify(
    kind: Option<String>,
    username: Option<String>,
    password: Option<String>,
) -> ControlMessage {
    match (kind, username, password) {
        (Some(k), Some(u), Some(p)) => if k@ == "register"@ {
            ControlMessage::Register { username: u, password: p }
        } else if k@ == "login"@ {
            ControlMessage::Login { username: u, password: p }
        } else {
            ControlMessage::Invalid
        },
        _ => ControlMessage::Invalid,
    }
}

/// Classifies the fields a decoded control envelope carried. The envelope's
/// wire decoding is the transport's business; the decision of what counts
/// as a registration, a login or an invalid request is made here.
pub fn classify_control(
    kind: Option<String>,
    username: Option<String>,
    password: Option<String>,
) -> (c: ControlMessage)
    ensures
        c == spec_classify(kind, username, password),
{
    match (kind, username, password) {
        (Some(k), Some(u), Some(p)) => {
            let register_kind: String = "register".to_owned();
            let login_kind: String = "login".to_owned();
            if k == register_kind {
                ControlMessage::Register { username: u, password: p }
            } else if k == login_kind {
                ControlMessage::Login { username: u, password: p }
            } else {
                ControlMessage::Invalid
            }
        },
        _ => ControlMessage::Invalid,
    }
}

/// What the authentication step decided: the text to send back, the state
/// the session moves to, and the error, if any, that closed it.
pub struct AuthOutcome {
    pub reply: String,
    pub state: SessionState,
    pub error: Option<ChatError>,
}

/// Drives the `AwaitingAuth` transition: registration inserts the pair iff
/// the username is fresh, login compares the stored password exactly, and
/// anything else is rejected; only a successful registration or login moves
/// the session to `Authenticated`, every failure closes it.
pub fn handle_auth(store: &mut CredentialStore, ctl: ControlMessage) -> (out: AuthOutcome)
    requires
        old(store).wf(),
    ensures
        final(store).wf(),
        ctl matches ControlMessage::Register { username, password } ==> {
            &&& final(store).spec_map() == register_step(
                old(store).spec_map(),
                username@,
                password@,
            )
            &&& !old(store).spec_map().contains_key(username@) ==> out.state
                is Authenticated && out.error is None && out.reply@
                == "Registration successful"@
            &&& old(store).spec_map().contains_key(username@) ==> out.state is Closed
                && out.error == Some(ChatError::AuthConflict) && out.reply@
                == "Registration failed: Username already exists"@
        },
        ctl matches ControlMessage::Login { username, password } ==> {
            &&& final(store).spec_map() == old(store).spec_map()
            &&& auth_ok(old(store).spec_map(), username@, password@) ==> out.state
                is Authenticated && out.error is None && out.reply@
                == "Authentication successful"@
            &&& !auth_ok(old(store).spec_map(), username@, password@) ==> out.state
                is Closed && out.error == Some(ChatError::AuthRejected) && out.reply@
                == "Authentication failed"@
        },
        ctl is Invalid ==> final(store).spec_map() == old(store).spec_map() && out.state
            is Closed && out.error == Some(ChatError::MalformedControl) && out.reply@
            == "Invalid authentication type"@,
{
    match ctl {
        ControlMessage::Register { username, password } => {
            match store.register(username, password) {
                Ok(()) => AuthOutcome {
                    reply: "Registration successful".to_owned(),
                    state: SessionState::Authenticated,
                    error: None,
                },
                Err(e) => AuthOutcome {
                    reply: e.auth_reply(),
                    state: SessionState::Closed,
                    error: Some(e),
                },
            }
        },
        ControlMessage::Login { username, password } => {
            if store.authenticate(&username, &password) {
                AuthOutcome {
                    reply: "Authentication successful".to_owned(),
                    state: SessionState::Authenticated,
                    error: None,
                }
            } else {
                AuthOutcome {
                    reply: ChatError::AuthRejected.auth_reply(),
                    state: SessionState::Closed,
                    error: Some(ChatError::AuthRejected),
                }
            }
        },
        ControlMessage::Invalid => AuthOutcome {
            reply: ChatError::MalformedControl.auth_reply(),
            state: SessionState::Closed,
            error: Some(ChatError::MalformedControl),
        },
    }
}

/// One steady-state inbound step. A well-formed message (`Some`) is appended
/// to the history log and published on the bus, in that order, as one
/// accepted message. A malformed payload (`None`) is discarded: it leaves
/// the history log, the bus — and with them every other session's pending
/// deliveries — untouched, and the session stays open; the caller merely
/// logs the returned error.
pub fn handle_client_payload(
    history: &mut HistoryLog,
    bus: &mut BroadcastBus,
    parsed: Option<Message>,
) -> (r: Result<(), ChatError>)
    ensures
        final(bus).capacity() == old(bus).capacity(),
        parsed matches Some(m) ==> final(history)@ == old(history)@.push(m@) && final(bus).log()
            == old(bus).log().push(m@) && r is Ok,
        parsed is None ==> final(history)@ == old(history)@ && final(bus).log() == old(
            bus,
        ).log() && r == Err::<(), ChatError>(ChatError::MalformedMessage),
{
    match parsed {
        Some(m) => {
            let copy = m.duplicate();
            history.append(m);
            bus.publish(copy);
            Ok(())
        },
        None => Err(ChatError::MalformedMessage),
    }
}

} // verus!
