//! Peer identities: the raw 32-byte encoding of an Ed25519 public key.

use fastcrypto::ed25519::Ed25519PublicKey;
use fastcrypto::traits::ToFromBytes;
use vstd::prelude::*;

verus! {

/// Length in bytes of an encoded public key.
pub const PUBLIC_KEY_LENGTH: usize = 32;

/// Whether 32 bytes decompress to a point of the Ed25519 curve.
pub uninterp spec fn ed25519_decompresses(bytes: Seq<u8>) -> bool;

/// Whether a byte string is accepted as the encoding of an Ed25519 public
/// key: it is 32 bytes long and decompresses to a point of the curve.
pub open spec fn ed25519_accepts(bytes: Seq<u8>) -> bool {
    bytes.len() == PUBLIC_KEY_LENGTH && ed25519_decompresses(bytes)
}

/// The identity of a peer: the raw encoding of its public key. Two keys are
/// the same peer exactly when their bytes are equal.
#[derive(Clone, Copy, Debug, PartialEq, Eq, Hash)]
pub struct PublicKey {
    bytes: [u8; 32],
}

impl View for PublicKey {
    type V = Seq<u8>;

    closed spec fn view(&self) -> Seq<u8> {
        self.bytes@
    }
}

/// Decodes a key with `fastcrypto`'s `Ed25519PublicKey::from_bytes` and hands
/// back the accepted key's own encoding. The decoder accepts a byte string
/// exactly when it is 32 bytes long and decompresses to a point of the curve,
/// and an accepted key encodes to the bytes it was decoded from.
#[verifier::external_body]
fn ed25519_decode(bytes: &[u8]) -> (key: Option<[u8; 32]>)
    ensures
        key.is_some() == (bytes@.len() == 32 && ed25519_decompresses(bytes@)),
        key matches Some(k) ==> k@ == bytes@,
{
    match Ed25519PublicKey::from_bytes(bytes) {
        Ok(key) => Some(key.0.to_bytes()),
        Err(_) => None,
    }
}

impl PublicKey {
    /// Wraps 32 raw bytes as an identity, without checking that they encode
    /// a point of the curve.
    pub fn new(bytes: [u8; 32]) -> (key: PublicKey)
        ensures
            key@ == bytes@,
    {
        PublicKey { bytes }
    }

    /// Decodes a public key from untrusted bytes.
    pub fn from_bytes(bytes: &[u8]) -> (key: Option<PublicKey>)
        ensures
            key.is_some() == ed25519_accepts(bytes@),
            key matches Some(k) ==> k@ == bytes@,
    {
        match ed25519_decode(bytes) {
            Some(raw) => Some(PublicKey { bytes: raw }),
            None => None,
        }
    }

    /// The raw encoding.
    pub fn as_bytes(&self) -> (bytes: &[u8; 32])
        ensures
            bytes@ == self@,
    {
        &self.bytes
    }

    /// Whether two identities are the same peer.
    pub fn same_as(&self, other: &PublicKey) -> (same: bool)
        ensures
            same == (self@ == other@),
    {
        let mut i: usize = 0;
        while i < PUBLIC_KEY_LENGTH
            invariant
                i <= PUBLIC_KEY_LENGTH,
                forall|j: int| 0 <= j < i ==> self.bytes@[j] == other.bytes@[j],
            decreases PUBLIC_KEY_LENGTH - i,
        {
            if self.bytes[i] != other.bytes[i] {
                return false;
            }
            i = i + 1;
        }
        assert(self.bytes@ =~= other.bytes@);
        true
    }
}

} // verus!
