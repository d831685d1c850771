//! Network addresses: parsed once from text, then only carried to the
//! transport.  The engine never looks inside one.

use libp2p::Multiaddr;
use vstd::prelude::*;

verus! {

/// The binary form of the multi-segment address that `text` spells, or `None`
/// where `text` spells no address.
pub uninterp spec fn multiaddr_bytes(text: Seq<char>) -> Option<Seq<u8>>;

/// Calls `Multiaddr::from_str` and, on success, `Multiaddr::to_vec`.
///
/// Trusted: the result is the binary form of the address that `text` spells,
/// and `None` exactly where `from_str` rejects `text`.
#[verifier::external_body]
fn parse_multiaddr(text: &str) -> (bytes: Option<Vec<u8>>)
    ensures
        bytes is Some <==> multiaddr_bytes(text@) is Some,
        bytes matches Some(b) ==> multiaddr_bytes(text@) == Some(b@),
{
    match text.parse::<Multiaddr>() {
        Ok(address) => Some(address.to_vec()),
        Err(_) => None,
    }
}

/// The address on which a node listens: every interface, a port chosen by the
/// operating system.
pub const LISTEN_ADDRESS: &'static str = "/ip4/0.0.0.0/tcp/0";

/// A network address in its binary form.
#[derive(Debug)]
pub struct Address {
    bytes: Vec<u8>,
}

impl View for Address {
    type V = Seq<u8>;

    closed spec fn view(&self) -> Seq<u8> {
        self.bytes@
    }
}

impl Address {
    /// Parses a line of text as an address; `None` where it spells none.
    pub fn parse(text: &str) -> (address: Option<Address>)
        ensures
            address is Some <==> multiaddr_bytes(text@) is Some,
            address matches Some(a) ==> multiaddr_bytes(text@) == Some(a@),
    {
        match parse_multiaddr(text) {
            Some(bytes) => Some(Address { bytes }),
            None => None,
        }
    }

    /// Takes an address that the transport reported, in its binary form.
    pub fn from_bytes(bytes: Vec<u8>) -> (address: Address)
        ensures
            address@ == bytes@,
    {
        Address { bytes }
    }

    /// The binary form of this address.
    pub fn to_bytes(&self) -> (bytes: Vec<u8>)
        ensures
            bytes@ == self@,
    {
        self.bytes.clone()
    }
}

impl Clone for Address {
    fn clone(&self) -> (copy: Address)
        ensures
            copy@ == self@,
    {
        Address { bytes: self.bytes.clone() }
    }
}

} // verus!
