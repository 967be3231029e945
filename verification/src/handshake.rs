//! The initialize handshake in front of the request dispatcher: nothing
//! is dispatched before the handshake, and the handshake happens once.

use vstd::prelude::*;
use vstd::string::StringExecFns;

verus! {

/// A client request as the handshake guard sees it: the initialize
/// request with the client's identity, or anything else.
pub enum HandshakeRequest {
    Initialize { name: String, version: String },
    Other,
}

/// What the handshake guard decides for one request.
#[derive(Debug, PartialEq, Eq)]
pub enum HandshakeAction {
    /// A second initialize: refuse it, the session is already up.
    RejectAlreadyInitialized,
    /// The first initialize: accept it and answer with the user agent,
    /// whose suffix records the client's identity.
    AcceptInitialize { user_agent_suffix: String },
    /// Anything else before the handshake: refuse it.
    RejectNotInitialized,
    /// Anything else after the handshake: hand it to the dispatcher.
    Dispatch,
}

/// The one-bit state machine guarding a session's request stream.
pub struct HandshakeGuard {
    pub initialized: bool,
}

impl HandshakeGuard {
    pub fn new() -> (g: Self)
        ensures
            !g.initialized,
    {
        HandshakeGuard { initialized: false }
    }

    /// Decide one request: initialize exactly once, dispatch only after.
    pub fn on_request(&mut self, req: HandshakeRequest) -> (a: HandshakeAction)
        ensures
            old(self).initialized && req is Initialize ==> a
                == HandshakeAction::RejectAlreadyInitialized && *final(self) == *old(self),
            req matches HandshakeRequest::Initialize { name, version } ==> (!old(self).initialized
                ==> final(self).initialized && (a matches HandshakeAction::AcceptInitialize {
                user_agent_suffix,
            } && user_agent_suffix@ == name@ + "; "@ + version@)),
            old(self).initialized && req is Other ==> a == HandshakeAction::Dispatch && *final(self)
                == *old(self),
            !old(self).initialized && req is Other ==> a == HandshakeAction::RejectNotInitialized
                && *final(self) == *old(self),
    {
        match req {
            HandshakeRequest::Initialize { name, version } => {
                if self.initialized {
                    HandshakeAction::RejectAlreadyInitialized
                } else {
                    self.initialized = true;
                    let suffix = name.concat("; ");
                    let suffix = suffix.concat(version.as_str());
                    HandshakeAction::AcceptInitialize { user_agent_suffix: suffix }
                }
            },
            HandshakeRequest::Other => {
                if self.initialized {
                    HandshakeAction::Dispatch
                } else {
                    HandshakeAction::RejectNotInitialized
                }
            },
        }
    }
}

} // verus!
