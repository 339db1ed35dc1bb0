//! The trust set: a finite map from peer identities to peer records.

use crate::assoc::{
    as_map, distinct_keys, has_key_at, lemma_as_many_bindings_as_pairs,
    lemma_empty_list_is_empty_map, lemma_missing_key_is_unbound, lemma_pair_is_bound,
    lemma_push_binds_new_key, lemma_update_rebinds_key,
};
use crate::key::PublicKey;
use crate::peer::{SuiPeer, SuiPeerView};
use vstd::prelude::*;

verus! {

/// A complete snapshot of the trusted peers, keyed by public key. Each key
/// is bound once; the order in which peers were added is not observable.
#[derive(Debug)]
pub struct SuiPeers {
    entries: Vec<(PublicKey, SuiPeer)>,
}

/// The content of a list of entries: each key's bytes with its record.
spec fn bindings(entries: Seq<(PublicKey, SuiPeer)>) -> Seq<(Seq<u8>, SuiPeerView)> {
    entries.map_values(|entry: (PublicKey, SuiPeer)| (entry.0@, entry.1@))
}

impl View for SuiPeers {
    type V = Map<Seq<u8>, SuiPeerView>;

    closed spec fn view(&self) -> Map<Seq<u8>, SuiPeerView> {
        as_map(bindings(self.entries@))
    }
}

impl SuiPeers {
    #[verifier::type_invariant]
    spec fn well_formed(self) -> bool {
        distinct_keys(bindings(self.entries@))
    }

    /// The empty trust set.
    pub fn new() -> (peers: SuiPeers)
        ensures
            peers@ == Map::<Seq<u8>, SuiPeerView>::empty(),
    {
        let entries: Vec<(PublicKey, SuiPeer)> = Vec::new();
        proof {
            lemma_empty_list_is_empty_map::<Seq<u8>, SuiPeerView>();
        }
        SuiPeers { entries }
    }

    /// Where `key` stands among the entries, if it is bound.
    fn position(&self, key: &PublicKey) -> (found: Option<usize>)
        ensures
            match found {
                Some(i) => has_key_at(bindings(self.entries@), key@, i as int),
                None => !self@.contains_key(key@),
            },
    {
        let mut i: usize = 0;
        while i < self.entries.len()
            invariant
                i <= self.entries.len(),
                forall|j: int| 0 <= j < i ==> !has_key_at(bindings(self.entries@), key@, j),
            decreases self.entries.len() - i,
        {
            if self.entries[i].0.same_as(key) {
                return Some(i);
            }
            i = i + 1;
        }
        proof {
            lemma_missing_key_is_unbound(bindings(self.entries@), key@);
        }
        None
    }

    /// The number of trusted peers.
    pub fn len(&self) -> (count: usize)
        ensures
            self@.dom().finite(),
            count == self@.len(),
    {
        proof {
            use_type_invariant(self);
            lemma_as_many_bindings_as_pairs(bindings(self.entries@));
        }
        self.entries.len()
    }

    /// Whether `key` identifies a trusted peer.
    pub fn contains_key(&self, key: &PublicKey) -> (present: bool)
        ensures
            present == self@.contains_key(key@),
    {
        self.position(key).is_some()
    }

    /// The record kept under `key`.
    pub fn get(&self, key: &PublicKey) -> (found: Option<&SuiPeer>)
        ensures
            found.is_some() == self@.contains_key(key@),
            found matches Some(peer) ==> peer@ == self@[key@],
    {
        match self.position(key) {
            Some(i) => {
                proof {
                    use_type_invariant(self);
                    lemma_pair_is_bound(bindings(self.entries@), i as int);
                }
                Some(&self.entries[i].1)
            },
            None => None,
        }
    }

    /// Binds `key` to `peer`, replacing the record that `key` had.
    pub fn insert(&mut self, key: PublicKey, peer: SuiPeer)
        ensures
            final(self)@ == old(self)@.insert(key@, peer@),
    {
        proof {
            use_type_invariant(&*self);
        }
        let found = self.position(&key);
        // The list is taken out, changed and put back whole: the set is
        // never left with a list that is only partly updated.
        let mut entries: Vec<(PublicKey, SuiPeer)> = Vec::new();
        core::mem::swap(&mut self.entries, &mut entries);
        let ghost before = entries@;
        match found {
            Some(i) => {
                entries.set(i, (key, peer));
                proof {
                    lemma_update_rebinds_key(bindings(before), i as int, (key@, peer@));
                    assert(bindings(entries@) == bindings(before).update(i as int, (key@, peer@)));
                }
            },
            None => {
                entries.push((key, peer));
                proof {
                    lemma_push_binds_new_key(bindings(before), (key@, peer@));
                    assert(bindings(entries@) == bindings(before).push((key@, peer@)));
                }
            },
        }
        self.entries = entries;
    }
}

impl Clone for SuiPeers {
    fn clone(&self) -> (copy: SuiPeers)
        ensures
            copy@ == self@,
    {
        let mut entries: Vec<(PublicKey, SuiPeer)> = Vec::new();
        let mut i: usize = 0;
        while i < self.entries.len()
            invariant
                i <= self.entries.len(),
                entries@.len() == i,
                forall|j: int|
                    0 <= j < i ==> entries@[j].0@ == self.entries@[j].0@ && entries@[j].1@
                        == self.entries@[j].1@,
            decreases self.entries.len() - i,
        {
            entries.push((self.entries[i].0, self.entries[i].1.clone()));
            i = i + 1;
        }
        proof {
            use_type_invariant(self);
            assert(bindings(entries@) == bindings(self.entries@));
        }
        SuiPeers { entries }
    }
}

} // verus!
