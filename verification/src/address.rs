//! Network locations of peers, kept in their binary multiaddr encoding.

use multiaddr::Multiaddr;
use vstd::prelude::*;

verus! {

/// The binary encoding of the multiaddr that a text denotes, or `None` where
/// the text is no multiaddr.
pub uninterp spec fn multiaddr_encoding(text: Seq<char>) -> Option<Seq<u8>>;

/// A parsed, protocol-aware network location, held as the bytes of its
/// multiaddr encoding. Two addresses are equal exactly when those bytes are.
#[derive(Debug, PartialEq, Eq, Hash)]
pub struct NetworkAddress {
    bytes: Vec<u8>,
}

impl View for NetworkAddress {
    type V = Seq<u8>;

    closed spec fn view(&self) -> Seq<u8> {
        self.bytes@
    }
}

impl Clone for NetworkAddress {
    fn clone(&self) -> (copy: NetworkAddress)
        ensures
            copy@ == self@,
    {
        NetworkAddress { bytes: self.bytes.clone() }
    }
}

/// Parses a text with `multiaddr`'s `Multiaddr::try_from(String)` and hands
/// back the parsed address's bytes (`Multiaddr::to_vec`). The parse succeeds
/// exactly on the texts for which `multiaddr_encoding` is `Some`, and the
/// bytes are the ones it names.
#[verifier::external_body]
fn multiaddr_parse(text: &str) -> (encoded: Option<Vec<u8>>)
    ensures
        encoded.is_some() == multiaddr_encoding(text@).is_some(),
        encoded matches Some(bytes) ==> multiaddr_encoding(text@) == Some(bytes@),
{
    match Multiaddr::try_from(text.to_owned()) {
        Ok(address) => Some(address.to_vec()),
        Err(_) => None,
    }
}

impl NetworkAddress {
    /// Parses the textual form of a multiaddr, such as
    /// `/ip4/127.0.0.1/tcp/10000`.
    pub fn parse(text: &str) -> (address: Option<NetworkAddress>)
        ensures
            address.is_some() == multiaddr_encoding(text@).is_some(),
            address matches Some(a) ==> multiaddr_encoding(text@) == Some(a@),
    {
        match multiaddr_parse(text) {
            Some(bytes) => Some(NetworkAddress { bytes }),
            None => None,
        }
    }

    /// The multiaddr encoding of this address.
    pub fn as_bytes(&self) -> (bytes: &[u8])
        ensures
            bytes@ == self@,
    {
        self.bytes.as_slice()
    }
}

} // verus!
