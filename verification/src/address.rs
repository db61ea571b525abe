//! Peer addresses: the segments this library reads in a `Multiaddr`, and the
//! in-memory address family.
use libp2p::multiaddr::Protocol;
use libp2p::multihash::Multihash;
use libp2p::{Multiaddr, PeerId};
use vstd::prelude::*;

verus! {

/// `libp2p::Multiaddr`, an address made of protocol segments.
#[verifier::external_type_specification]
#[verifier::external_body]
pub struct ExMultiaddr(Multiaddr);

/// `libp2p::PeerId`, the identity of a peer.
#[verifier::external_type_specification]
#[verifier::external_body]
pub struct ExPeerId(PeerId);

/// `Clone::clone` of a `Multiaddr`: an equal address.
pub assume_specification[ <Multiaddr as Clone>::clone ](addr: &Multiaddr) -> (copy: Multiaddr)
    ensures
        copy == *addr,
;

/// `Clone::clone` of a `PeerId`: an equal peer identity.
pub assume_specification[ <PeerId as Clone>::clone ](peer: &PeerId) -> (copy: PeerId)
    ensures
        copy == *peer,
;

/// Code of the SHA2-256 hash function in a multihash.
pub const SHA2_256: u64 = 0x12;

/// Code of the identity hash function in a multihash.
pub const IDENTITY: u64 = 0x00;

/// The most bytes a multihash digest can hold.
pub const MAX_DIGEST_LENGTH: usize = 64;

/// The most bytes of an identity digest that a peer identity accepts.
pub const MAX_INLINE_KEY_LENGTH: usize = 42;

/// The multihash of a peer identity: the code of the hash function and the digest.
pub struct PeerHash {
    pub code: u64,
    pub digest: Seq<u8>,
}

impl PeerHash {
    /// Whether a peer identity can be made of this hash: a SHA2-256 hash, or an
    /// identity hash of at most `MAX_INLINE_KEY_LENGTH` bytes.
    pub open spec fn names_peer(self) -> bool {
        &&& self.digest.len() <= MAX_DIGEST_LENGTH
        &&& (self.code == SHA2_256 || (self.code == IDENTITY && self.digest.len()
            <= MAX_INLINE_KEY_LENGTH))
    }
}

/// One segment of an address: the two protocols that this library reads,
/// each with its value, and every other protocol by its text.
pub enum SegmentView {
    /// The in-memory transport, with its port.
    Memory(u64),
    /// A peer identity, given by its multihash.
    P2p(PeerHash),
    /// Any other protocol, as the text that it renders as.
    Other(Seq<char>),
}

/// A segment taken out of an address.
pub(crate) enum Segment {
    /// The in-memory transport, with its port.
    Memory(u64),
    /// A peer identity: the code and the digest of its multihash.
    P2p(u64, Vec<u8>),
    /// Any other protocol, as the text that it renders as.
    Other(String),
}

impl Segment {
    /// The segment with its bytes and text as sequences.
    pub(crate) open spec fn view(&self) -> SegmentView {
        match *self {
            Segment::Memory(port) => SegmentView::Memory(port),
            Segment::P2p(code, digest) => SegmentView::P2p(PeerHash { code, digest: digest@ }),
            Segment::Other(text) => SegmentView::Other(text@),
        }
    }
}

/// The segments of an address, first to last.
pub uninterp spec fn multiaddr_segments(addr: Multiaddr) -> Seq<SegmentView>;

/// The multihash that a peer identity holds.
pub uninterp spec fn peer_id_hash(peer: PeerId) -> PeerHash;

/// Whether some segment of the address is of the in-memory family.
pub open spec fn has_memory(segments: Seq<SegmentView>) -> bool {
    exists|i: int| 0 <= i < segments.len() && segments[i] is Memory
}

/// Whether the last segment is a peer identity whose hash a peer identity can
/// be made of.
pub open spec fn ends_in_peer(segments: Seq<SegmentView>) -> bool {
    segments.len() > 0 && (segments.last() matches SegmentView::P2p(hash) && hash.names_peer())
}

/// `Multiaddr::empty`: an address without segments.
#[verifier::external_body]
fn multiaddr_empty() -> (addr: Multiaddr)
    ensures
        multiaddr_segments(addr) == Seq::<SegmentView>::empty(),
{
    Multiaddr::empty()
}

/// `Multiaddr::with` on a `Protocol::Memory`: the address with one more
/// segment at its end, the in-memory transport on the given port.
#[verifier::external_body]
fn multiaddr_with_memory(addr: Multiaddr, port: u64) -> (extended: Multiaddr)
    ensures
        multiaddr_segments(extended) == multiaddr_segments(addr).push(SegmentView::Memory(port)),
{
    addr.with(Protocol::Memory(port))
}

/// `Multiaddr::iter`: the segments of the address in order, each `Protocol`
/// turned into a `Segment`.
#[verifier::external_body]
fn multiaddr_to_segments(addr: &Multiaddr) -> (segments: Vec<Segment>)
    ensures
        segments@.map_values(|s: Segment| s@) == multiaddr_segments(*addr),
{
    let mut segments = Vec::new();
    for protocol in addr.iter() {
        segments.push(match protocol {
            Protocol::Memory(port) => Segment::Memory(port),
            Protocol::P2p(hash) => Segment::P2p(hash.code(), hash.digest().to_vec()),
            other => Segment::Other(other.to_string()),
        });
    }
    segments
}

/// `Multiaddr::with` on a `Protocol::P2p`: the address with one more segment
/// at its end, the identity of the given peer. A `PeerId` only ever holds a
/// multihash that `PeerId::from_multihash` accepts, so the new last segment
/// is one that a peer identity can be made of.
#[verifier::external_body]
pub(crate) fn multiaddr_with_peer(addr: Multiaddr, peer: &PeerId) -> (extended: Multiaddr)
    ensures
        multiaddr_segments(extended) == multiaddr_segments(addr).push(
            SegmentView::P2p(peer_id_hash(*peer)),
        ),
        ends_in_peer(multiaddr_segments(extended)),
{
    addr.with(Protocol::P2p(peer.clone().into()))
}

/// `Multiaddr::pop`: takes the last segment off the address and hands it
/// out as a `Segment`; an empty address stays as it is and gives `None`.
#[verifier::external_body]
pub(crate) fn multiaddr_pop(addr: &mut Multiaddr) -> (last: Option<Segment>)
    ensures
        match last {
            Some(segment) => {
                &&& multiaddr_segments(*old(addr)).len() > 0
                &&& segment@ == multiaddr_segments(*old(addr)).last()
                &&& multiaddr_segments(*final(addr)) == multiaddr_segments(*old(addr)).drop_last()
            },
            None => {
                &&& multiaddr_segments(*old(addr)).len() == 0
                &&& multiaddr_segments(*final(addr)) == multiaddr_segments(*old(addr))
            },
        },
{
    match addr.pop() {
        Some(Protocol::Memory(port)) => Some(Segment::Memory(port)),
        Some(Protocol::P2p(hash)) => Some(Segment::P2p(hash.code(), hash.digest().to_vec())),
        Some(other) => Some(Segment::Other(other.to_string())),
        None => None,
    }
}

/// `PeerId::from_multihash` on the multihash that `Multihash::wrap` makes of
/// a code and a digest: a peer identity exactly for a SHA2-256 hash, or an
/// identity hash of at most 42 bytes, with a digest that fits a multihash;
/// the peer identity holds that hash.
#[verifier::external_body]
pub(crate) fn peer_id_from_hash(code: u64, digest: &Vec<u8>) -> (peer: Option<PeerId>)
    ensures
        peer is Some <==> (PeerHash { code, digest: digest@ }).names_peer(),
        peer matches Some(id) ==> peer_id_hash(id) == (PeerHash { code, digest: digest@ }),
{
    match Multihash::wrap(code, digest) {
        Ok(hash) => PeerId::from_multihash(hash).ok(),
        Err(_) => None,
    }
}

/// `rand::random::<u64>`: a number drawn from the thread's generator.
#[verifier::external_body]
fn random_port() -> u64 {
    rand::random::<u64>()
}

/// Build memory protocol Multiaddr by port
pub fn memory_addr(port: u64) -> (addr: Multiaddr)
    ensures
        multiaddr_segments(addr) == seq![SegmentView::Memory(port)],
{
    multiaddr_with_memory(multiaddr_empty(), port)
}

/// Generate a random memory protocol Multiaddr
pub fn random_memory_addr() -> (addr: Multiaddr)
    ensures
        exists|port: u64| multiaddr_segments(addr) == seq![SegmentView::Memory(port)],
        has_memory(multiaddr_segments(addr)),
{
    let port = random_port();
    let addr = memory_addr(port);
    proof {
        lemma_memory_addr_is_memory(port);
    }
    addr
}

/// Check the address is a memory protocol Multiaddr.
pub fn is_memory_addr(addr: &Multiaddr) -> (found: bool)
    ensures
        found == has_memory(multiaddr_segments(*addr)),
{
    let segments = multiaddr_to_segments(addr);
    let ghost views = multiaddr_segments(*addr);
    let mut i: usize = 0;
    while i < segments.len()
        invariant
            i <= segments.len(),
            views == multiaddr_segments(*addr),
            views == segments@.map_values(|s: Segment| s@),
            forall|j: int| 0 <= j < i ==> !(views[j] is Memory),
        decreases segments.len() - i,
    {
        if let Segment::Memory(_) = segments[i] {
            assert(views[i as int] is Memory);
            return true;
        }
        i += 1;
    }
    false
}

/// The address that `memory_addr` builds for a port is of the in-memory
/// family, whatever the port.
pub proof fn lemma_memory_addr_is_memory(port: u64)
    ensures
        has_memory(seq![SegmentView::Memory(port)]),
{
    let segments = seq![SegmentView::Memory(port)];
    assert(segments[0] is Memory);
}

} // verus!
