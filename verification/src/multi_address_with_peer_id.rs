//! Addresses that end in the identity of the peer they lead to.
use crate::address::{
    multiaddr_pop, multiaddr_segments, multiaddr_with_peer, peer_id_from_hash, peer_id_hash,
    PeerHash, Segment, SegmentView,
};
use crate::parse_err::{multiaddr_error_text, ParseErr, ParseErrView};
use libp2p::{Multiaddr, PeerId};
use vstd::prelude::*;

verus! {

/// What the text of an address parses to: its segments, or the message of
/// the multiaddress error.
pub uninterp spec fn parsed_multiaddr(text: Seq<char>) -> Result<Seq<SegmentView>, Seq<char>>;

/// `<Multiaddr as FromStr>::from_str`: the address that the text denotes, or
/// the error that the parser gives for a text that is not well formed. Both
/// depend on the text alone.
#[verifier::external_body]
fn multiaddr_from_str(text: &str) -> (parsed: Result<Multiaddr, libp2p::multiaddr::Error>)
    ensures
        match parsed {
            Ok(addr) => parsed_multiaddr(text@) == Ok::<Seq<SegmentView>, Seq<char>>(
                multiaddr_segments(addr),
            ),
            Err(error) => parsed_multiaddr(text@) == Err::<Seq<SegmentView>, Seq<char>>(
                multiaddr_error_text(error),
            ),
        },
{
    text.parse()
}

/// What parsing a text as a plain address gives.
pub open spec fn parse_multiaddr_spec(text: Seq<char>) -> Result<Seq<SegmentView>, ParseErrView> {
    match parsed_multiaddr(text) {
        Ok(segments) => Ok(segments),
        Err(message) => Err(ParseErrView::MultiaddrParse(message)),
    }
}

/// Splits the segments of an address into the peer identity at its end and
/// the segments before it.
pub open spec fn split_peer(segments: Seq<SegmentView>) -> Result<
    (PeerHash, Seq<SegmentView>),
    ParseErrView,
> {
    if segments.len() == 0 {
        Err(ParseErrView::PeerIdMissing)
    } else {
        match segments.last() {
            SegmentView::P2p(hash) => if hash.names_peer() {
                Ok((hash, segments.drop_last()))
            } else {
                Err(ParseErrView::InvalidPeerId)
            },
            _ => Err(ParseErrView::PeerIdMissing),
        }
    }
}

/// What parsing a text as an address with a peer identity gives.
pub open spec fn parse_str_addr_spec(text: Seq<char>) -> Result<
    (PeerHash, Seq<SegmentView>),
    ParseErrView,
> {
    match parsed_multiaddr(text) {
        Ok(segments) => split_peer(segments),
        Err(message) => Err(ParseErrView::MultiaddrParse(message)),
    }
}

/// The model of a parsed plain address.
pub open spec fn multiaddr_result_view(parsed: Result<Multiaddr, ParseErr>) -> Result<
    Seq<SegmentView>,
    ParseErrView,
> {
    match parsed {
        Ok(addr) => Ok(multiaddr_segments(addr)),
        Err(error) => Err(error@),
    }
}

/// The model of a parsed address with its peer identity.
pub open spec fn peer_addr_result_view(parsed: Result<(PeerId, Multiaddr), ParseErr>) -> Result<
    (PeerHash, Seq<SegmentView>),
    ParseErrView,
> {
    match parsed {
        Ok((peer, addr)) => Ok((peer_id_hash(peer), multiaddr_segments(addr))),
        Err(error) => Err(error@),
    }
}

/// The model of a parsed address that is held together with its peer
/// identity.
pub open spec fn with_peer_result_view(parsed: Result<MultiaddrWithPeerId, ParseErr>) -> Result<
    (PeerHash, Seq<SegmentView>),
    ParseErrView,
> {
    match parsed {
        Ok(both) => Ok((peer_id_hash(both.peer_id), multiaddr_segments(both.multiaddr))),
        Err(error) => Err(error@),
    }
}

/// Parses a string address into a `Multiaddr`; the multiaddress error of a
/// text that is not well formed is kept in the `ParseErr`.
pub fn parse_multiaddr(addr_str: &str) -> (parsed: Result<Multiaddr, ParseErr>)
    ensures
        multiaddr_result_view(parsed) == parse_multiaddr_spec(addr_str@),
{
    match multiaddr_from_str(addr_str) {
        Ok(addr) => Ok(addr),
        Err(err) => Err(ParseErr::from(err)),
    }
}

/// Splits a Multiaddress into a Multiaddress and PeerId.
pub fn parse_addr(addr: Multiaddr) -> (parsed: Result<(PeerId, Multiaddr), ParseErr>)
    ensures
        peer_addr_result_view(parsed) == split_peer(multiaddr_segments(addr)),
{
    let mut addr = addr;
    let who = match multiaddr_pop(&mut addr) {
        Some(Segment::P2p(code, digest)) => match peer_id_from_hash(code, &digest) {
            Some(peer) => peer,
            None => {
                return Err(ParseErr::InvalidPeerId);
            },
        },
        _ => {
            return Err(ParseErr::PeerIdMissing);
        },
    };
    Ok((who, addr))
}

/// Parses a string address and splits it into Multiaddress and PeerId, if
/// valid.
pub fn parse_str_addr(addr_str: &str) -> (parsed: Result<(PeerId, Multiaddr), ParseErr>)
    ensures
        peer_addr_result_view(parsed) == parse_str_addr_spec(addr_str@),
{
    match parse_multiaddr(addr_str) {
        Ok(addr) => parse_addr(addr),
        Err(err) => Err(err),
    }
}

/// Address of a node, including its identity.
#[derive(Debug, PartialEq, Eq)]
pub struct MultiaddrWithPeerId {
    /// Address of the node.
    pub multiaddr: Multiaddr,
    /// Its identity.
    pub peer_id: PeerId,
}

impl Clone for MultiaddrWithPeerId {
    fn clone(&self) -> (copy: Self)
        ensures
            copy == *self,
    {
        MultiaddrWithPeerId { multiaddr: self.multiaddr.clone(), peer_id: self.peer_id.clone() }
    }
}

impl std::str::FromStr for MultiaddrWithPeerId {
    type Err = ParseErr;

    fn from_str(s: &str) -> (parsed: Result<Self, ParseErr>)
        ensures
            with_peer_result_view(parsed) == parse_str_addr_spec(s@),
    {
        Self::parse(s)
    }
}

impl MultiaddrWithPeerId {
    /// Reads an address that ends in a peer identity from its text.
    pub fn parse(addr_str: &str) -> (parsed: Result<Self, ParseErr>)
        ensures
            with_peer_result_view(parsed) == parse_str_addr_spec(addr_str@),
    {
        match parse_str_addr(addr_str) {
            Ok((peer_id, multiaddr)) => Ok(MultiaddrWithPeerId { multiaddr, peer_id }),
            Err(err) => Err(err),
        }
    }

    /// Concatenates the multiaddress and peer ID into one multiaddress
    /// containing both; `parse_addr` splits it again into the two.
    pub fn concat(&self) -> (joined: Multiaddr)
        ensures
            multiaddr_segments(joined) == multiaddr_segments(self.multiaddr).push(
                SegmentView::P2p(peer_id_hash(self.peer_id)),
            ),
            split_peer(multiaddr_segments(joined)) == Ok::<
                (PeerHash, Seq<SegmentView>),
                ParseErrView,
            >((peer_id_hash(self.peer_id), multiaddr_segments(self.multiaddr))),
    {
        let joined = multiaddr_with_peer(self.multiaddr.clone(), &self.peer_id);
        proof {
            lemma_split_of_joined(multiaddr_segments(self.multiaddr), peer_id_hash(self.peer_id));
        }
        joined
    }
}

/// An address to which a valid peer identity was appended splits into that
/// identity and the address as it was before.
pub proof fn lemma_split_of_joined(segments: Seq<SegmentView>, hash: PeerHash)
    requires
        hash.names_peer(),
    ensures
        split_peer(segments.push(SegmentView::P2p(hash))) == Ok::<
            (PeerHash, Seq<SegmentView>),
            ParseErrView,
        >((hash, segments)),
{
    assert(segments.push(SegmentView::P2p(hash)).drop_last() =~= segments);
}

/// A text whose address ends in a peer identity that no peer can be made of
/// is refused for the invalid identity, not as a text that does not parse.
pub proof fn lemma_malformed_peer_is_invalid(
    text: Seq<char>,
    segments: Seq<SegmentView>,
    hash: PeerHash,
)
    requires
        parsed_multiaddr(text) == Ok::<Seq<SegmentView>, Seq<char>>(
            segments.push(SegmentView::P2p(hash)),
        ),
        !hash.names_peer(),
    ensures
        parse_str_addr_spec(text) == Err::<(PeerHash, Seq<SegmentView>), ParseErrView>(
            ParseErrView::InvalidPeerId,
        ),
{
}

/// A text whose address is empty, or ends in a segment that is no peer
/// identity, is refused for the missing identity.
pub proof fn lemma_absent_peer_is_missing(text: Seq<char>, segments: Seq<SegmentView>)
    requires
        parsed_multiaddr(text) == Ok::<Seq<SegmentView>, Seq<char>>(segments),
        segments.len() == 0 || !(segments.last() is P2p),
    ensures
        parse_str_addr_spec(text) == Err::<(PeerHash, Seq<SegmentView>), ParseErrView>(
            ParseErrView::PeerIdMissing,
        ),
{
}

} // verus!
