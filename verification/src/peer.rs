//! Peer identities, parsed by the Malachite peer crate.

use vstd::prelude::*;

verus! {

/// The bytes of the peer identity that `PeerId::from_bytes` of the Malachite peer crate
/// parses from `bytes`, written back by its `to_bytes`; `None` where it refuses them.
pub uninterp spec fn peer_id_from_bytes(bytes: Seq<u8>) -> Option<Seq<u8>>;

/// Parses `bytes` with `informalsystems_malachitebft_peer::PeerId::from_bytes` and writes
/// the identity back with its `to_bytes`.
///
/// Trusted: the result is the one named by [`peer_id_from_bytes`], and bytes that were
/// written by `to_bytes` parse back to the same identity, so they come back unchanged.
/// That `PeerId::from_bytes` accepts a multihash of code SHA2-256, or the identity code
/// with a digest of at most 42 bytes, and nothing else, is not stated.
#[verifier::external_body]
fn parse_peer_id(bytes: &[u8]) -> (r: Option<Vec<u8>>)
    ensures
        match r {
            Some(c) => peer_id_from_bytes(bytes@) == Some(c@) && peer_id_from_bytes(c@) == Some(c@),
            None => peer_id_from_bytes(bytes@) is None,
        },
{
    match informalsystems_malachitebft_peer::PeerId::from_bytes(bytes) {
        Ok(peer_id) => Some(peer_id.to_bytes()),
        Err(_) => None,
    }
}

/// The identity of a peer, kept in the encoded form that its crate writes.
#[derive(Debug, PartialEq, Eq)]
pub struct PeerId {
    bytes: Vec<u8>,
}

impl PeerId {
    /// A peer identity holds bytes that parse back to themselves.
    #[verifier::type_invariant]
    spec fn well_formed(self) -> bool {
        peer_id_from_bytes(self.bytes@) == Some(self.bytes@)
    }
}

impl View for PeerId {
    type V = Seq<u8>;

    closed spec fn view(&self) -> Seq<u8> {
        self.bytes@
    }
}

impl PeerId {
    /// Parses a peer identity from its bytes; `None` where they are not one.
    pub fn from_bytes(bytes: &[u8]) -> (r: Option<PeerId>)
        ensures
            match r {
                Some(p) => peer_id_from_bytes(bytes@) == Some(p@),
                None => peer_id_from_bytes(bytes@) is None,
            },
    {
        match parse_peer_id(bytes) {
            Some(c) => Some(PeerId { bytes: c }),
            None => None,
        }
    }

    /// The bytes of this peer identity; they parse back to it.
    pub fn to_bytes(&self) -> (b: Vec<u8>)
        ensures
            b@ == self@,
            peer_id_from_bytes(b@) == Some(b@),
    {
        proof {
            use_type_invariant(self);
        }
        vstd::slice::slice_to_vec(self.bytes.as_slice())
    }
}

} // verus!
