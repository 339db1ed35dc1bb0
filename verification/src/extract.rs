//! Extraction: from untrusted validator records to trusted peer records.
//!
//! Each record is decoded on its own. A record whose key or address does not
//! decode is dropped and reported; the others are unaffected.

use crate::address::{multiaddr_encoding, NetworkAddress};
use crate::key::{ed25519_accepts, PublicKey};
use crate::peer::{SuiPeer, SuiPeerView};
use crate::summary::{SystemStateSummary, ValidatorSummary, ValidatorSummaryView};
use crate::trust_set::SuiPeers;
use vstd::prelude::*;

verus! {

/// Why a validator record was dropped.
#[derive(Debug, Clone, Copy, PartialEq, Eq, Structural)]
pub enum EntryError {
    /// The key bytes are not the encoding of a public key.
    UndecodableKey,
    /// The key decoded, but the address text is no network address.
    InvalidAddress,
}

/// A record that extraction dropped, for diagnostics.
#[derive(Debug, PartialEq, Eq)]
pub struct DroppedEntry {
    pub name: String,
    pub reason: EntryError,
}

/// The mathematical content of a [`DroppedEntry`].
pub struct DroppedEntryView {
    pub name: Seq<char>,
    pub reason: EntryError,
}

impl View for DroppedEntry {
    type V = DroppedEntryView;

    open spec fn view(&self) -> DroppedEntryView {
        DroppedEntryView { name: self.name@, reason: self.reason }
    }
}

impl Clone for DroppedEntry {
    fn clone(&self) -> (copy: DroppedEntry)
        ensures
            copy@ == self@,
    {
        DroppedEntry { name: self.name.clone(), reason: self.reason }
    }
}

/// The content of a list of dropped records.
pub open spec fn dropped_views(entries: Seq<DroppedEntry>) -> Seq<DroppedEntryView> {
    entries.map_values(|entry: DroppedEntry| entry@)
}

/// What extraction makes of a summary: the peers and the dropped records.
#[derive(Debug)]
pub struct Extraction {
    pub peers: SuiPeers,
    pub dropped: Vec<DroppedEntry>,
}

/// A decoded record or the reason for dropping it, as mathematical values.
pub type Outcome = Result<(Seq<u8>, SuiPeerView), EntryError>;

/// The content of what decoding one record returned.
pub open spec fn outcome_view(outcome: Result<(PublicKey, SuiPeer), EntryError>) -> Outcome {
    match outcome {
        Ok((key, peer)) => Ok((key@, peer@)),
        Err(reason) => Err(reason),
    }
}

/// The key that a decoder hands back for `bytes`: the bytes themselves where
/// they are accepted.
pub open spec fn decoded_key(bytes: Seq<u8>) -> Option<Seq<u8>> {
    if ed25519_accepts(bytes) {
        Some(bytes)
    } else {
        None
    }
}

/// The peer made of a name and of what the two decoders returned. A missing
/// key is reported before a missing address.
pub open spec fn assembled(
    name: Seq<char>,
    key: Option<Seq<u8>>,
    address: Option<Seq<u8>>,
) -> Outcome {
    match (key, address) {
        (None, _) => Err(EntryError::UndecodableKey),
        (Some(_), None) => Err(EntryError::InvalidAddress),
        (Some(k), Some(a)) => Ok((k, SuiPeerView { name, p2p_address: a, public_key: k })),
    }
}

/// What one record decodes to.
pub open spec fn entry_outcome(record: ValidatorSummaryView) -> Outcome {
    assembled(
        record.name,
        decoded_key(record.network_pubkey_bytes),
        multiaddr_encoding(record.p2p_address),
    )
}

/// Whether a record decodes.
pub open spec fn decodes(record: ValidatorSummaryView) -> bool {
    entry_outcome(record) is Ok
}

/// The peer that a record decodes to, where it decodes.
pub open spec fn decoded_peer(record: ValidatorSummaryView) -> Option<SuiPeerView> {
    match entry_outcome(record) {
        Ok((_, peer)) => Some(peer),
        Err(_) => None,
    }
}

/// Whether the records that decode have pairwise different keys.
pub open spec fn decoded_keys_distinct(records: Seq<ValidatorSummaryView>) -> bool {
    forall|i: int, j: int|
        0 <= i < j < records.len() && decodes(#[trigger] records[i]) && decodes(
            #[trigger] records[j],
        ) ==> records[i].network_pubkey_bytes != records[j].network_pubkey_bytes
}

/// The trust set that a list of records yields: every record that decodes
/// binds its key to its peer, a later record replacing an earlier one of the
/// same key.
pub open spec fn extracted(records: Seq<ValidatorSummaryView>) -> Map<Seq<u8>, SuiPeerView>
    decreases records.len(),
{
    if records.len() == 0 {
        Map::empty()
    } else {
        let before = extracted(records.drop_last());
        match entry_outcome(records.last()) {
            Ok((key, peer)) => before.insert(key, peer),
            Err(_) => before,
        }
    }
}

/// The records that do not decode, in order, each with its reason.
pub open spec fn rejected(records: Seq<ValidatorSummaryView>) -> Seq<DroppedEntryView>
    decreases records.len(),
{
    if records.len() == 0 {
        Seq::empty()
    } else {
        let before = rejected(records.drop_last());
        match entry_outcome(records.last()) {
            Ok(_) => before,
            Err(reason) => before.push(DroppedEntryView { name: records.last().name, reason }),
        }
    }
}

/// Builds a peer from a name and from what the key and address decoders
/// returned for its record.
pub fn assemble(name: String, key: Option<PublicKey>, address: Option<NetworkAddress>) -> (outcome:
    Result<(PublicKey, SuiPeer), EntryError>)
    ensures
        outcome_view(outcome) == assembled(
            name@,
            match key {
                Some(k) => Some(k@),
                None => None,
            },
            match address {
                Some(a) => Some(a@),
                None => None,
            },
        ),
{
    match key {
        None => Err(EntryError::UndecodableKey),
        Some(public_key) => match address {
            None => Err(EntryError::InvalidAddress),
            Some(p2p_address) => Ok((public_key, SuiPeer { name, p2p_address, public_key })),
        },
    }
}

/// Decodes one validator record: first its key, then its address.
pub fn decode_entry(record: &ValidatorSummary) -> (outcome: Result<
    (PublicKey, SuiPeer),
    EntryError,
>)
    ensures
        outcome_view(outcome) == entry_outcome(record@),
{
    let key = PublicKey::from_bytes(record.network_pubkey_bytes.as_slice());
    let address = match key {
        Some(_) => NetworkAddress::parse(record.p2p_address.as_str()),
        None => None,
    };
    assemble(record.name.clone(), key, address)
}

/// Extracts the trusted peers of a summary and lists the records it dropped.
pub fn extract_reporting(summary: SystemStateSummary) -> (extraction: Extraction)
    ensures
        extraction.peers@ == extracted(summary@),
        dropped_views(extraction.dropped@) == rejected(summary@),
{
    let mut peers = SuiPeers::new();
    let mut dropped: Vec<DroppedEntry> = Vec::new();
    let mut i: usize = 0;
    while i < summary.active_validators.len()
        invariant
            i <= summary.active_validators.len(),
            peers@ == extracted(summary@.take(i as int)),
            dropped_views(dropped@) == rejected(summary@.take(i as int)),
        decreases summary.active_validators.len() - i,
    {
        let record = &summary.active_validators[i];
        proof {
            assert(summary@.take(i + 1).drop_last() == summary@.take(i as int));
        }
        match decode_entry(record) {
            Ok((key, peer)) => {
                peers.insert(key, peer);
            },
            Err(reason) => {
                dropped.push(DroppedEntry { name: record.name.clone(), reason });
            },
        }
        i = i + 1;
    }
    assert(summary@.take(i as int) == summary@);
    Extraction { peers, dropped }
}

/// Extracts the trusted peers of a summary.
pub fn extract(summary: SystemStateSummary) -> (peers: SuiPeers)
    ensures
        peers@ == extracted(summary@),
{
    extract_reporting(summary).peers
}

} // verus!
