//! What a sender does about a destination that is not connected.
use crate::failure::RequestFailure;
use vstd::prelude::*;

verus! {

/// When sending a request, what to do on a disconnected recipient.
#[derive(Debug, Copy, Clone, PartialEq, Eq, Hash, Structural)]
pub enum IfDisconnected {
    /// Try to connect to the peer.
    TryConnect,
    /// Just fail if the destination is not yet connected.
    ImmediateError,
}

/// The next step of the sending path for one request.
#[derive(Debug, Copy, Clone, PartialEq, Eq, Hash, Structural)]
pub enum SendStep {
    /// Hand the request to the connection that is there.
    Send,
    /// Connect to the destination first.
    Connect,
}

/// Convenience functions for `IfDisconnected`.
impl IfDisconnected {
    /// Whether the policy asks for a connection attempt.
    pub open spec fn connects(self) -> bool {
        self is TryConnect
    }

    /// Shall we connect to a disconnected peer?
    pub fn should_connect(self) -> (connect: bool)
        ensures
            connect == self.connects(),
    {
        match self {
            Self::TryConnect => true,
            Self::ImmediateError => false,
        }
    }

    /// The step that the sending path takes under this policy: it sends to a
    /// connected destination; to one that is not connected it connects first
    /// under `TryConnect`, and fails with `NotConnected`, attempting nothing,
    /// under `ImmediateError`.
    pub fn send_step(self, connected: bool) -> (step: Result<SendStep, RequestFailure>)
        ensures
            connected ==> step matches Ok(SendStep::Send),
            !connected && self.connects() ==> step matches Ok(SendStep::Connect),
            !connected && !self.connects() ==> step matches Err(RequestFailure::NotConnected),
    {
        if connected {
            Ok(SendStep::Send)
        } else if self.should_connect() {
            Ok(SendStep::Connect)
        } else {
            Err(RequestFailure::NotConnected)
        }
    }
}

/// A policy is one of the two values, and asks for a connection attempt
/// exactly when it is `TryConnect`.
pub proof fn lemma_policy_is_two_valued(policy: IfDisconnected)
    ensures
        policy == IfDisconnected::TryConnect || policy == IfDisconnected::ImmediateError,
        policy.connects() <==> policy == IfDisconnected::TryConnect,
        !policy.connects() <==> policy == IfDisconnected::ImmediateError,
{
}

} // verus!
