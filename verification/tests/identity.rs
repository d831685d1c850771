use chakra::identity::{generate_identity, Identity, PeerIdentity};
use libp2p::identity::Keypair;
use libp2p::PeerId;

#[test]
fn peer_identity_keeps_its_bytes() {
    let peer = PeerIdentity::from_bytes(vec![0, 4, 1, 2, 3, 4]).unwrap();
    assert_eq!(peer.to_bytes(), vec![0, 4, 1, 2, 3, 4]);
}

#[test]
fn peer_identity_is_shown_in_base58() {
    let peer = PeerIdentity::from_bytes(vec![0, 4, 1, 2, 3, 4]).unwrap();
    assert_eq!(peer.to_base58(), "1TCcz3d");
    let other = PeerIdentity::from_bytes(vec![0, 4, 5, 6, 7, 8]).unwrap();
    assert_eq!(other.to_base58(), "1TJaHQT");
}

#[test]
fn peer_identity_of_an_ed25519_key_is_shown_as_the_network_shows_it() {
    let mut bytes: Vec<u8> = vec![0x00, 0x24, 0x08, 0x01, 0x12, 0x20];
    for value in 1..=32u8 {
        bytes.push(value);
    }
    let peer = PeerIdentity::from_bytes(bytes.clone()).unwrap();
    assert_eq!(peer.to_base58(), "12D3KooW9tJMax94Lrqw7Y5Qw36viGQAS2gTEPQ5Wg1vTk7xPfQs");
    assert_eq!(peer.to_base58(), PeerId::from_bytes(&bytes).unwrap().to_string());
}

#[test]
fn peer_identity_rejects_bytes_that_encode_no_peer() {
    assert!(PeerIdentity::from_bytes(vec![]).is_none());
    assert!(PeerIdentity::from_bytes(vec![0, 4, 1, 2]).is_none());
    assert!(PeerIdentity::from_bytes(vec![0x11, 2, 1, 2]).is_none());
    assert!(PeerIdentity::from_bytes(vec![0, 4, 1, 2, 3, 4, 5]).is_none());
}

#[test]
fn same_peer_compares_the_bytes() {
    let peer = PeerIdentity::from_bytes(vec![0, 4, 1, 2, 3, 4]).unwrap();
    let again = PeerIdentity::from_bytes(vec![0, 4, 1, 2, 3, 4]).unwrap();
    let other = PeerIdentity::from_bytes(vec![0, 4, 5, 6, 7, 8]).unwrap();
    let shorter = PeerIdentity::from_bytes(vec![0, 3, 1, 2, 3]).unwrap();
    assert!(peer.same_peer(&again));
    assert!(peer.same_peer(&peer.clone()));
    assert!(!peer.same_peer(&other));
    assert!(!peer.same_peer(&shorter));
    assert!(!shorter.same_peer(&peer));
}

#[test]
fn generated_identity_names_the_peer_of_its_key_pair() {
    let identity = generate_identity();
    let expected = identity.keypair().public().to_peer_id();
    assert_eq!(identity.peer().to_bytes(), expected.to_bytes());
    assert_eq!(identity.peer().to_base58(), expected.to_base58());
    assert!(PeerIdentity::from_bytes(identity.peer().to_bytes()).is_some());
}

#[test]
fn generated_identities_differ() {
    let first = generate_identity();
    let second = generate_identity();
    assert!(!first.peer().same_peer(second.peer()));
}

#[test]
fn identity_of_a_key_pair_holds_that_key_pair_and_its_peer() {
    let keypair = Keypair::generate_ed25519();
    let expected = keypair.public().to_peer_id();
    let identity = Identity::from_keypair(keypair.clone());
    assert_eq!(identity.keypair().public(), keypair.public());
    assert_eq!(identity.peer().to_bytes(), expected.to_bytes());
    assert_eq!(identity.peer().to_base58(), expected.to_base58());
}

#[test]
fn identity_depends_on_the_key_pair_alone() {
    let keypair = Keypair::generate_ed25519();
    let first = Identity::from_keypair(keypair.clone());
    let second = Identity::from_keypair(keypair);
    assert!(first.peer().same_peer(second.peer()));
    let other = Identity::from_keypair(Keypair::generate_ed25519());
    assert!(!first.peer().same_peer(other.peer()));
}

#[test]
fn generated_identity_is_the_identity_of_its_key_pair() {
    let identity = generate_identity();
    let again = Identity::from_keypair(identity.keypair().clone());
    assert!(identity.peer().same_peer(again.peer()));
    assert_eq!(again.keypair().public(), identity.keypair().public());
}
