//! The relay's error taxonomy. Authentication-phase errors are fatal to the
//! session; a malformed post-auth payload is discarded and the session
//! continues; a transport failure releases the subscription silently.

use vstd::prelude::*;

verus! {

#[derive(Clone, Copy, Debug, PartialEq, Eq, Structural)]
pub enum ChatError {
    /// Registration of an already-registered username.
    AuthConflict,
    /// Login with a username/password pair that does not match the store.
    AuthRejected,
    /// Unparseable or unexpected first (control) message.
    MalformedControl,
    /// Unparseable post-auth payload; non-fatal, the session continues.
    MalformedMessage,
    /// Read/write error or disconnect on the transport.
    TransportFailure,
}

impl ChatError {
    /// The text reported for this error during the authentication phase.
    pub fn auth_reply(&self) -> (r: String)
        ensures
            *self is AuthConflict ==> r@ == "Registration failed: Username already exists"@,
            *self is AuthRejected ==> r@ == "Authentication failed"@,
            !(*self is AuthConflict) && !(*self is AuthRejected) ==> r@
                == "Invalid authentication type"@,
    {
        match self {
            ChatError::AuthConflict => "Registration failed: Username already exists".to_owned(),
            ChatError::AuthRejected => "Authentication failed".to_owned(),
            _ => "Invalid authentication type".to_owned(),
        }
    }
}

} // verus!
