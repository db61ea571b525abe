//! The error of parsing an address that ends in a peer identity.
use vstd::prelude::*;

verus! {

/// `libp2p::multiaddr::Error`, the error of reading a multiaddress.
#[verifier::external_type_specification]
#[verifier::external_body]
pub struct ExMultiaddrError(libp2p::multiaddr::Error);

/// The message that a multiaddress error displays.
pub uninterp spec fn multiaddr_error_text(error: libp2p::multiaddr::Error) -> Seq<char>;

/// `ToString::to_string` on a `multiaddr::Error`: the message of its `Display`.
#[verifier::external_body]
fn multiaddr_error_to_string(error: &libp2p::multiaddr::Error) -> (text: String)
    ensures
        text@ == multiaddr_error_text(*error),
{
    error.to_string()
}

/// Error that can be generated by `parse_str_addr`.
#[derive(Debug)]
pub enum ParseErr {
    /// Error while parsing the multiaddress.
    MultiaddrParse(libp2p::multiaddr::Error),
    /// Multihash of the peer ID is invalid.
    InvalidPeerId,
    /// The peer ID is missing from the address.
    PeerIdMissing,
}

/// A `ParseErr` with the multiaddress error given by its message.
pub enum ParseErrView {
    MultiaddrParse(Seq<char>),
    InvalidPeerId,
    PeerIdMissing,
}

impl ParseErrView {
    /// The text that the error renders as.
    pub open spec fn message(self) -> Seq<char> {
        match self {
            ParseErrView::MultiaddrParse(text) => text,
            ParseErrView::InvalidPeerId => "Peer id at the end of the address is invalid"@,
            ParseErrView::PeerIdMissing => "Peer id is missing from the address"@,
        }
    }
}

impl View for ParseErr {
    type V = ParseErrView;

    open spec fn view(&self) -> ParseErrView {
        match *self {
            ParseErr::MultiaddrParse(error) => ParseErrView::MultiaddrParse(
                multiaddr_error_text(error),
            ),
            ParseErr::InvalidPeerId => ParseErrView::InvalidPeerId,
            ParseErr::PeerIdMissing => ParseErrView::PeerIdMissing,
        }
    }
}

impl ParseErr {
    /// The human-readable message of the error: that of the multiaddress
    /// error where there is one.
    pub fn to_string(&self) -> (text: String)
        ensures
            text@ == self@.message(),
    {
        match self {
            ParseErr::MultiaddrParse(err) => multiaddr_error_to_string(err),
            ParseErr::InvalidPeerId => "Peer id at the end of the address is invalid".to_owned(),
            ParseErr::PeerIdMissing => "Peer id is missing from the address".to_owned(),
        }
    }

    /// The underlying cause: the multiaddress error where there is one.
    pub fn source(&self) -> (cause: Option<&libp2p::multiaddr::Error>)
        ensures
            match *self {
                ParseErr::MultiaddrParse(error) => cause == Some(&error),
                ParseErr::InvalidPeerId => cause is None,
                ParseErr::PeerIdMissing => cause is None,
            },
    {
        match self {
            ParseErr::MultiaddrParse(err) => Some(err),
            ParseErr::InvalidPeerId => None,
            ParseErr::PeerIdMissing => None,
        }
    }
}

impl From<libp2p::multiaddr::Error> for ParseErr {
    fn from(err: libp2p::multiaddr::Error) -> (wrapped: ParseErr) {
        ParseErr::MultiaddrParse(err)
    }
}

impl vstd::std_specs::convert::FromSpecImpl<libp2p::multiaddr::Error> for ParseErr {
    open spec fn obeys_from_spec() -> bool {
        true
    }

    open spec fn from_spec(err: libp2p::multiaddr::Error) -> ParseErr {
        ParseErr::MultiaddrParse(err)
    }
}

} // verus!
