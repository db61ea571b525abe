//! Shared types of a peer-to-peer request/response layer: peer addresses
//! and how they are parsed, the request and response that one exchange
//! carries, the failures of an exchange, and the policy for a destination
//! that is not connected.
//!
//! Addresses, peer identities and transport failures are those of `libp2p`.
//! They are opaque to the verifier: the contracts speak of an address through
//! its segments (`address::multiaddr_segments`) and of a peer identity
//! through its multihash (`address::peer_id_hash`).

pub mod address;
pub mod failure;
pub mod if_disconnected;
pub mod multi_address_with_peer_id;
pub mod parse_err;
pub mod request;

pub use crate::address::{is_memory_addr, memory_addr, random_memory_addr};
pub use crate::failure::{RequestFailure, ResponseFailure};
pub use crate::if_disconnected::{IfDisconnected, SendStep};
pub use crate::multi_address_with_peer_id::{
    parse_addr, parse_multiaddr, parse_str_addr, MultiaddrWithPeerId,
};
pub use crate::parse_err::ParseErr;
pub use crate::request::{IncomingRequest, OutgoingResponse, ProtocolRequest, BANNED_THRESHOLD};
pub use libp2p::request_response::{InboundFailure, OutboundFailure};
pub use libp2p::{Multiaddr, PeerId};
pub use sc_peerset::ReputationChange;
