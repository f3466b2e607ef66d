//! Status flags shared between callers and the session actor.

use vstd::prelude::*;

verus! {

/// The two flags every caller may read and only the session actor writes.
#[derive(Clone, Copy, Debug, PartialEq, Eq, Structural)]
pub struct SharedStatus {
    pub authenticated: bool,
    pub ready: bool,
}

impl SharedStatus {
    /// The status of a session that is not, or no longer, connected.
    pub open spec fn cleared() -> SharedStatus {
        SharedStatus { authenticated: false, ready: false }
    }
}

/// Process-wide state: whether a command sender has been published, and the
/// shared status flags.
#[derive(Clone, Copy, Debug, PartialEq, Eq, Structural)]
pub struct WhatsAppState {
    pub sender_published: bool,
    pub status: SharedStatus,
}

impl WhatsAppState {
    /// The state before any session was started.
    pub open spec fn initial() -> WhatsAppState {
        WhatsAppState { sender_published: false, status: SharedStatus::cleared() }
    }

    /// A fresh state: no sender published, not authenticated, not ready.
    pub fn new() -> (state: Self)
        ensures
            state == WhatsAppState::initial(),
    {
        WhatsAppState {
            sender_published: false,
            status: SharedStatus { authenticated: false, ready: false },
        }
    }
}

/// Reads the readiness flag. Never fails and never waits on the actor.
pub fn is_bot_ready(state: &WhatsAppState) -> (result: Result<bool, String>)
    ensures
        result matches Ok(ready) && ready == state.status.ready,
{
    Ok(state.status.ready)
}

} // verus!
