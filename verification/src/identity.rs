//! Peer identities: the stable handle by which a network participant is known.

use libp2p::identity::Keypair;
use libp2p::PeerId;
use vstd::prelude::*;

verus! {

/// The base-58 text of the peer identifier that the byte string `bytes`
/// encodes, or `None` where `bytes` encodes no peer identifier.
pub uninterp spec fn peer_base58(bytes: Seq<u8>) -> Option<Seq<char>>;

/// The base-58 text by which the peer with the encoded bytes `bytes` is shown.
pub open spec fn peer_name(bytes: Seq<u8>) -> Seq<char>
    recommends
        peer_base58(bytes) is Some,
{
    peer_base58(bytes).unwrap()
}

/// Calls `PeerId::from_bytes` and, on success, `PeerId::to_base58`.
///
/// Trusted: the result is the base-58 text of the identifier that `bytes`
/// encodes, and `None` exactly where `from_bytes` rejects `bytes`.
#[verifier::external_body]
fn base58_of_peer_bytes(bytes: &[u8]) -> (text: Option<String>)
    ensures
        text is Some <==> peer_base58(bytes@) is Some,
        text matches Some(t) ==> peer_base58(bytes@) == Some(t@),
{
    match PeerId::from_bytes(bytes) {
        Ok(peer) => Some(peer.to_base58()),
        Err(_) => None,
    }
}

/// Whether two byte strings hold the same bytes.
fn same_bytes(left: &Vec<u8>, right: &Vec<u8>) -> (same: bool)
    ensures
        same == (left@ == right@),
{
    if left.len() != right.len() {
        return false;
    }
    let mut at: usize = 0;
    while at < left.len()
        invariant
            left@.len() == right@.len(),
            at <= left@.len(),
            forall|k: int| 0 <= k < at ==> left@[k] == right@[k],
        decreases left@.len() - at,
    {
        if left[at] != right[at] {
            return false;
        }
        at += 1;
    }
    assert(left@ =~= right@);
    true
}

/// The identifier of one peer of the network.
///
/// It is held as the bytes of its encoded form; two identities are the same
/// peer exactly when these bytes agree.  Every value of this type encodes a
/// peer identifier: `peer_base58` of its bytes is `Some`.
#[derive(Debug)]
pub struct PeerIdentity {
    bytes: Vec<u8>,
}

impl View for PeerIdentity {
    type V = Seq<u8>;

    closed spec fn view(&self) -> Seq<u8> {
        self.bytes@
    }
}

impl PeerIdentity {
    #[verifier::type_invariant]
    spec fn encodes_a_peer(&self) -> bool {
        peer_base58(self.bytes@) is Some
    }

    /// Reads a peer identity from its encoded bytes; `None` where the bytes
    /// encode no peer identifier.
    pub fn from_bytes(bytes: Vec<u8>) -> (peer: Option<PeerIdentity>)
        ensures
            peer is Some <==> peer_base58(bytes@) is Some,
            peer matches Some(p) ==> p@ == bytes@,
    {
        match base58_of_peer_bytes(bytes.as_slice()) {
            Some(_) => Some(PeerIdentity { bytes }),
            None => None,
        }
    }

    /// The encoded bytes of this identity.
    pub fn to_bytes(&self) -> (bytes: Vec<u8>)
        ensures
            bytes@ == self@,
    {
        self.bytes.clone()
    }

    /// The base-58 text by which this peer is shown.
    pub fn to_base58(&self) -> (text: String)
        ensures
            peer_base58(self@) == Some(text@),
    {
        proof {
            use_type_invariant(self);
        }
        match base58_of_peer_bytes(self.bytes.as_slice()) {
            Some(text) => text,
            // Never taken: the bytes of an identity encode a peer.
            None => String::new(),
        }
    }

    /// Whether `self` and `other` name the same peer.
    pub fn same_peer(&self, other: &PeerIdentity) -> (same: bool)
        ensures
            same == (self@ == other@),
    {
        same_bytes(&self.bytes, &other.bytes)
    }
}

impl Clone for PeerIdentity {
    fn clone(&self) -> (copy: PeerIdentity)
        ensures
            copy@ == self@,
    {
        proof {
            use_type_invariant(self);
        }
        PeerIdentity { bytes: self.bytes.clone() }
    }
}

/// `libp2p::identity::Keypair`: a key pair, carried through unopened.
#[verifier::external_type_specification]
#[verifier::external_body]
pub struct ExKeypair(Keypair);

/// Calls `Keypair::generate_ed25519`.
///
/// Trusted: nothing is claimed of the key pair, which is drawn at random.
#[verifier::external_body]
fn fresh_keypair() -> (keypair: Keypair) {
    Keypair::generate_ed25519()
}

/// The encoded bytes of the peer identifier that is derived from the public
/// key of `keypair`.
pub uninterp spec fn peer_bytes_of_key(keypair: Keypair) -> Seq<u8>;

/// Calls `Keypair::public`, `PublicKey::to_peer_id` and `PeerId::to_bytes`.
///
/// Trusted: the bytes returned are the encoded form of the peer identifier
/// derived from the public key of `keypair`, and `PeerId::from_bytes` reads
/// them back.
#[verifier::external_body]
fn peer_bytes_of_keypair(keypair: &Keypair) -> (bytes: Vec<u8>)
    ensures
        bytes@ == peer_bytes_of_key(*keypair),
        peer_base58(bytes@) is Some,
{
    keypair.public().to_peer_id().to_bytes()
}

/// The identity of a node: its key pair, and the peer identifier that is
/// derived from the public key.  Every value of this type holds the
/// identifier of its own key pair.
#[derive(Debug)]
pub struct Identity {
    keypair: Keypair,
    peer: PeerIdentity,
}

impl Identity {
    #[verifier::type_invariant]
    spec fn peer_is_derived(&self) -> bool {
        self.peer@ == peer_bytes_of_key(self.keypair)
    }

    /// The key pair of this identity.
    pub closed spec fn key_pair(&self) -> Keypair {
        self.keypair
    }

    /// The encoded bytes of this identity's peer identifier.
    pub closed spec fn peer_view(&self) -> Seq<u8> {
        self.peer@
    }

    /// The identity of the node that holds `keypair`: the key pair itself,
    /// and the peer identifier derived from its public key.
    pub fn from_keypair(keypair: Keypair) -> (identity: Identity)
        ensures
            identity.key_pair() == keypair,
            identity.peer_view() == peer_bytes_of_key(keypair),
            peer_base58(identity.peer_view()) is Some,
    {
        let bytes = peer_bytes_of_keypair(&keypair);
        Identity { keypair, peer: PeerIdentity { bytes } }
    }

    /// The key pair of this identity, which the transport needs.
    pub fn keypair(&self) -> (keypair: &Keypair)
        ensures
            *keypair == self.key_pair(),
    {
        &self.keypair
    }

    /// The peer identifier, which is the one derived from the public key of
    /// this identity's key pair.
    pub fn peer(&self) -> (peer: &PeerIdentity)
        ensures
            peer@ == self.peer_view(),
            peer@ == peer_bytes_of_key(self.key_pair()),
    {
        proof {
            use_type_invariant(self);
        }
        &self.peer
    }
}

/// Makes a fresh identity: a new key pair, and the peer identifier derived
/// from its public key.  Nothing of it is kept between runs, so a node has
/// another identity each time it starts.
pub fn generate_identity() -> (identity: Identity)
    ensures
        identity.peer_view() == peer_bytes_of_key(identity.key_pair()),
        peer_base58(identity.peer_view()) is Some,
{
    Identity::from_keypair(fresh_keypair())
}

} // verus!
