//! The reasons for which a request, or the answer to one, can fail.
use libp2p::request_response::{InboundFailure, OutboundFailure};
use vstd::prelude::*;
use vstd::string::StringExecFns;

verus! {

/// `libp2p::request_response::OutboundFailure`, what the transport reports
/// of a request that it could not carry through.
#[verifier::external_type_specification]
#[verifier::external_body]
pub struct ExOutboundFailure(OutboundFailure);

/// `libp2p::request_response::InboundFailure`, what the transport reports
/// of a response that it could not deliver.
#[verifier::external_type_specification]
#[verifier::external_body]
pub struct ExInboundFailure(InboundFailure);

/// The text that `Debug` gives for an outbound failure.
pub uninterp spec fn outbound_failure_debug(failure: OutboundFailure) -> Seq<char>;

/// The text that `Debug` gives for an inbound failure.
pub uninterp spec fn inbound_failure_debug(failure: InboundFailure) -> Seq<char>;

/// `Debug::fmt` of an `OutboundFailure`, through `format!`: the name of its
/// variant.
#[verifier::external_body]
fn outbound_failure_to_debug(failure: &OutboundFailure) -> (text: String)
    ensures
        text@ == outbound_failure_debug(*failure),
{
    format!("{:?}", failure)
}

/// `Debug::fmt` of an `InboundFailure`, through `format!`: the name of its
/// variant.
#[verifier::external_body]
fn inbound_failure_to_debug(failure: &InboundFailure) -> (text: String)
    ensures
        text@ == inbound_failure_debug(*failure),
{
    format!("{:?}", failure)
}

/// Error in a request.
#[derive(Debug)]
pub enum RequestFailure {
    /// We are not currently connected to the requested peer.
    NotConnected,
    /// Given protocol hasn't been registered.
    UnknownProtocol,
    /// Remote has closed the substream before answering, thereby signaling that it considers the
    /// request as valid, but refused to answer it.
    Refused,
    /// The remote replied, but the local node is no longer interested in the response.
    Obsolete,
    /// Problem on the network.
    Network(OutboundFailure),
}

impl RequestFailure {
    /// The text that the failure renders as.
    pub open spec fn message(self) -> Seq<char> {
        match self {
            RequestFailure::NotConnected => "NotConnected"@,
            RequestFailure::UnknownProtocol => "UnknownProtocol"@,
            RequestFailure::Refused => "Refused"@,
            RequestFailure::Obsolete => "Obsolete"@,
            RequestFailure::Network(failure) => "Problem on the network: "@
                + outbound_failure_debug(failure),
        }
    }

    /// The human-readable message of the failure.
    pub fn to_string(&self) -> (text: String)
        ensures
            text@ == self.message(),
    {
        match self {
            RequestFailure::NotConnected => "NotConnected".to_owned(),
            RequestFailure::UnknownProtocol => "UnknownProtocol".to_owned(),
            RequestFailure::Refused => "Refused".to_owned(),
            RequestFailure::Obsolete => "Obsolete".to_owned(),
            RequestFailure::Network(failure) => {
                let debug = outbound_failure_to_debug(failure);
                "Problem on the network: ".to_owned().concat(debug.as_str())
            },
        }
    }
}

/// Error when processing a request sent by a remote.
#[derive(Debug)]
pub enum ResponseFailure {
    /// Problem on the network.
    Network(InboundFailure),
}

impl ResponseFailure {
    /// The text that the failure renders as.
    pub open spec fn message(self) -> Seq<char> {
        match self {
            ResponseFailure::Network(failure) => "Problem on the network: "@
                + inbound_failure_debug(failure),
        }
    }

    /// The human-readable message of the failure.
    pub fn to_string(&self) -> (text: String)
        ensures
            text@ == self.message(),
    {
        match self {
            ResponseFailure::Network(failure) => {
                let debug = inbound_failure_to_debug(failure);
                "Problem on the network: ".to_owned().concat(debug.as_str())
            },
        }
    }
}

} // verus!
