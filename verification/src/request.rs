//! What one request carries to its handler, and what the handler sends back.
use libp2p::futures::channel::oneshot;
use libp2p::PeerId;
use sc_peerset::ReputationChange;
use std::borrow::Cow;
use vstd::prelude::*;

verus! {

/// `sc_peerset::ReputationChange`, an adjustment of a peer's reputation.
#[verifier::external_type_specification]
#[verifier::external_body]
pub struct ExReputationChange(ReputationChange);

/// `futures::channel::oneshot::Sender`, the sending half of a channel that
/// carries one value.
#[verifier::external_type_specification]
#[verifier::external_body]
#[verifier::reject_recursive_types(T)]
pub struct ExSender<T>(oneshot::Sender<T>);

/// We don't accept nodes whose reputation is under this value.
pub const BANNED_THRESHOLD: i32 = -1_760_936_552;

/// Response for an incoming request to be send by a request protocol handler.
#[derive(Debug)]
pub struct OutgoingResponse {
    /// The payload of the response.
    ///
    /// `Err(())` if none is available e.g. due an error while handling the request.
    pub result: Result<Vec<u8>, ()>,
    /// Reputation changes accrued while handling the request. To be applied to the reputation of
    /// the peer sending the request.
    pub reputation_changes: Vec<ReputationChange>,
}

/// A single request received by a peer on a request-response protocol.
#[derive(Debug)]
pub struct IncomingRequest {
    /// Who sent the request.
    pub peer: PeerId,
    /// Request sent by the remote. Will always be smaller than the maximum
    /// request size that the protocol is configured with.
    pub payload: Vec<u8>,
    /// Channel to send back the response.
    ///
    /// There are two ways to indicate that handling the request failed:
    ///
    /// 1. Drop `pending_response` and thus not changing the reputation of the peer.
    ///
    /// 2. Sending an `Err(())` via `pending_response`, optionally including reputation changes for
    /// the given peer.
    pub pending_response: oneshot::Sender<OutgoingResponse>,
}

/// A request together with the name of the protocol that it came in on.
#[derive(Debug)]
pub struct ProtocolRequest {
    pub protocol: Cow<'static, str>,
    pub request: IncomingRequest,
}

} // verus!
