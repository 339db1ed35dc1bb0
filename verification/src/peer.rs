//! What is known about one trusted peer.

use crate::address::NetworkAddress;
use crate::key::PublicKey;
use vstd::prelude::*;

verus! {

/// A validator as the trust set records it: its name, where it can be
/// reached, and the key that identifies it.
#[derive(Debug, PartialEq, Eq, Hash)]
pub struct SuiPeer {
    pub name: String,
    pub p2p_address: NetworkAddress,
    pub public_key: PublicKey,
}

/// The mathematical content of a [`SuiPeer`].
pub struct SuiPeerView {
    pub name: Seq<char>,
    pub p2p_address: Seq<u8>,
    pub public_key: Seq<u8>,
}

impl View for SuiPeer {
    type V = SuiPeerView;

    open spec fn view(&self) -> SuiPeerView {
        SuiPeerView {
            name: self.name@,
            p2p_address: self.p2p_address@,
            public_key: self.public_key@,
        }
    }
}

impl Clone for SuiPeer {
    fn clone(&self) -> (copy: SuiPeer)
        ensures
            copy@ == self@,
    {
        SuiPeer {
            name: self.name.clone(),
            p2p_address: self.p2p_address.clone(),
            public_key: self.public_key,
        }
    }
}

} // verus!
