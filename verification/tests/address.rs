use chakra::address::{Address, LISTEN_ADDRESS};
use libp2p::Multiaddr;

#[test]
fn address_is_parsed_into_its_binary_form() {
    let address = Address::parse("/ip4/127.0.0.1/tcp/4001").unwrap();
    assert_eq!(address.to_bytes(), vec![4, 127, 0, 0, 1, 6, 0x0f, 0xa1]);
}

#[test]
fn parsed_address_is_the_one_the_transport_reads() {
    let text = "/ip4/192.168.1.7/tcp/39000";
    let address = Address::parse(text).unwrap();
    let expected: Multiaddr = text.parse().unwrap();
    assert_eq!(address.to_bytes(), expected.to_vec());
    assert_eq!(Multiaddr::try_from(address.to_bytes()).unwrap(), expected);
}

#[test]
fn text_that_spells_no_address_is_rejected() {
    assert!(Address::parse("hello world").is_none());
    assert!(Address::parse("ip4/127.0.0.1/tcp/4001").is_none());
    assert!(Address::parse("/ip4/127.0.0.1/tcp").is_none());
    assert!(Address::parse("/ip4/not-a-number/tcp/1").is_none());
    assert!(Address::parse("/").is_none());
}

#[test]
fn empty_text_spells_the_empty_address() {
    let address = Address::parse("").unwrap();
    assert_eq!(address.to_bytes(), Vec::<u8>::new());
}

#[test]
fn listen_address_is_every_interface_and_any_port() {
    assert_eq!(LISTEN_ADDRESS, "/ip4/0.0.0.0/tcp/0");
    let address = Address::parse(LISTEN_ADDRESS).unwrap();
    assert_eq!(address.to_bytes(), vec![4, 0, 0, 0, 0, 6, 0, 0]);
}

#[test]
fn address_from_bytes_keeps_the_bytes() {
    let address = Address::from_bytes(vec![4, 10, 0, 0, 1, 6, 0, 80]);
    assert_eq!(address.to_bytes(), vec![4, 10, 0, 0, 1, 6, 0, 80]);
    assert_eq!(address.clone().to_bytes(), vec![4, 10, 0, 0, 1, 6, 0, 80]);
}
