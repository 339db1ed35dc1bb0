//! The node provider: the current trust set, the membership queries on it,
//! and the decisions of the periodic refresh.
//!
//! The provider performs no I/O. A caller ticks it, sends the request it
//! hands out, and reports what came back; the provider decides what that
//! does to the trust set. A failed cycle leaves the snapshot as it was, and a
//! successful one replaces it as a whole.

use crate::extract::{
    dropped_views, extract_reporting, extracted, rejected, DroppedEntry, DroppedEntryView,
};
use crate::fetch::{
    validators_request, validators_request_for, FetchError, RpcRequest, RpcRequestView,
};
use crate::key::PublicKey;
use crate::peer::{SuiPeer, SuiPeerView};
use crate::summary::{SystemStateSummary, ValidatorSummaryView};
use crate::trust_set::SuiPeers;
use std::time::Duration;
use vstd::prelude::*;

verus! {

/// Where the refresh stands between two events.
#[derive(Debug, Clone, Copy, PartialEq, Eq, Structural)]
pub enum RefreshPhase {
    /// No cycle is under way; the next tick starts one.
    Idle,
    /// A request was handed out and its result is awaited.
    Fetching,
}

/// What a caller reports to the provider.
#[derive(Debug)]
pub enum RefreshEvent {
    /// The poll interval has elapsed.
    Tick,
    /// The registry answered with this summary.
    Fetched(SystemStateSummary),
    /// The fetch failed.
    Failed(FetchError),
}

/// The mathematical content of a [`RefreshEvent`].
pub enum RefreshEventView {
    Tick,
    Fetched(Seq<ValidatorSummaryView>),
    Failed(FetchError),
}

impl View for RefreshEvent {
    type V = RefreshEventView;

    open spec fn view(&self) -> RefreshEventView {
        match *self {
            RefreshEvent::Tick => RefreshEventView::Tick,
            RefreshEvent::Fetched(summary) => RefreshEventView::Fetched(summary@),
            RefreshEvent::Failed(error) => RefreshEventView::Failed(error),
        }
    }
}

/// What the provider did with an event, and what the caller is to do next.
#[derive(Debug, PartialEq, Eq)]
pub enum RefreshAction {
    /// A cycle has begun: send this request and report its result.
    Fetch(RpcRequest),
    /// A new snapshot is in place. `peers` is its size; `dropped` lists the
    /// records of the summary that did not decode.
    Installed { peers: usize, dropped: Vec<DroppedEntry> },
    /// The cycle failed for this reason; the snapshot in place was kept.
    Kept(FetchError),
    /// The event does not belong to the current phase: a tick while a fetch
    /// is awaited, or a result that no request preceded. Nothing changed.
    Ignored,
}

/// The mathematical content of a [`RefreshAction`].
pub enum RefreshActionView {
    Fetch(RpcRequestView),
    Installed { peers: nat, dropped: Seq<DroppedEntryView> },
    Kept(FetchError),
    Ignored,
}

impl View for RefreshAction {
    type V = RefreshActionView;

    open spec fn view(&self) -> RefreshActionView {
        match *self {
            RefreshAction::Fetch(request) => RefreshActionView::Fetch(request@),
            RefreshAction::Installed { peers, dropped } => RefreshActionView::Installed {
                peers: peers as nat,
                dropped: dropped_views(dropped@),
            },
            RefreshAction::Kept(error) => RefreshActionView::Kept(error),
            RefreshAction::Ignored => RefreshActionView::Ignored,
        }
    }
}

/// Keeps the record of the known validators and decides what each refresh
/// does to it. The TLS layer asks [`SuiNodeProvider::allowed`]; request
/// handlers ask [`SuiNodeProvider::get`].
#[derive(Debug)]
pub struct SuiNodeProvider {
    nodes: SuiPeers,
    rpc_url: String,
    rpc_poll_interval: Duration,
    phase: RefreshPhase,
}

/// The mathematical content of a [`SuiNodeProvider`].
pub struct ProviderView {
    pub nodes: Map<Seq<u8>, SuiPeerView>,
    pub rpc_url: Seq<char>,
    pub rpc_poll_interval: Duration,
    pub phase: RefreshPhase,
}

impl View for SuiNodeProvider {
    type V = ProviderView;

    closed spec fn view(&self) -> ProviderView {
        ProviderView {
            nodes: self.nodes@,
            rpc_url: self.rpc_url@,
            rpc_poll_interval: self.rpc_poll_interval,
            phase: self.phase,
        }
    }
}

/// Whether a provider in `state` trusts `key`.
pub open spec fn permits(state: ProviderView, key: Seq<u8>) -> bool {
    state.nodes.contains_key(key)
}

/// The record that a provider in `state` holds for `key`.
pub open spec fn lookup(state: ProviderView, key: Seq<u8>) -> Option<SuiPeerView> {
    if state.nodes.contains_key(key) {
        Some(state.nodes[key])
    } else {
        None
    }
}

/// The state that follows `event`.
///
/// A tick starts a cycle when none is under way. A summary that arrives
/// while one is under way replaces the whole trust set by what extraction
/// makes of it; a failure ends the cycle and changes nothing else. An event
/// outside its phase changes nothing.
pub open spec fn next_state(state: ProviderView, event: RefreshEventView) -> ProviderView {
    match (state.phase, event) {
        (RefreshPhase::Idle, RefreshEventView::Tick) => ProviderView {
            phase: RefreshPhase::Fetching,
            ..state
        },
        (RefreshPhase::Fetching, RefreshEventView::Fetched(summary)) => ProviderView {
            nodes: extracted(summary),
            phase: RefreshPhase::Idle,
            ..state
        },
        (RefreshPhase::Fetching, RefreshEventView::Failed(_)) => ProviderView {
            phase: RefreshPhase::Idle,
            ..state
        },
        _ => state,
    }
}

/// The action that answers `event` in `state`.
pub open spec fn action_for(state: ProviderView, event: RefreshEventView) -> RefreshActionView {
    match (state.phase, event) {
        (RefreshPhase::Idle, RefreshEventView::Tick) => RefreshActionView::Fetch(
            validators_request_for(state.rpc_url),
        ),
        (RefreshPhase::Fetching, RefreshEventView::Fetched(summary)) => {
            RefreshActionView::Installed {
                peers: extracted(summary).len(),
                dropped: rejected(summary),
            }
        },
        (RefreshPhase::Fetching, RefreshEventView::Failed(error)) => RefreshActionView::Kept(error),
        _ => RefreshActionView::Ignored,
    }
}

impl SuiNodeProvider {
    /// A provider that trusts nobody yet and polls `rpc_url` every
    /// `rpc_poll_interval`.
    pub fn new(rpc_url: String, rpc_poll_interval: Duration) -> (provider: SuiNodeProvider)
        ensures
            provider@ == (ProviderView {
                nodes: Map::empty(),
                rpc_url: rpc_url@,
                rpc_poll_interval,
                phase: RefreshPhase::Idle,
            }),
    {
        SuiNodeProvider {
            nodes: SuiPeers::new(),
            rpc_url,
            rpc_poll_interval,
            phase: RefreshPhase::Idle,
        }
    }

    /// Whether `key` belongs to a trusted peer of the current snapshot.
    pub fn allowed(&self, key: &PublicKey) -> (trusted: bool)
        ensures
            trusted == permits(self@, key@),
    {
        self.nodes.contains_key(key)
    }

    /// A copy of the record that the current snapshot holds for `key`.
    pub fn get(&self, key: &PublicKey) -> (found: Option<SuiPeer>)
        ensures
            (match found {
                Some(peer) => Some(peer@),
                None => None,
            }) == lookup(self@, key@),
    {
        match self.nodes.get(key) {
            Some(peer) => Some(peer.clone()),
            None => None,
        }
    }

    /// The current snapshot.
    pub fn get_ref(&self) -> (nodes: &SuiPeers)
        ensures
            nodes@ == self@.nodes,
    {
        &self.nodes
    }

    /// The current snapshot, for changing it in place.
    pub fn get_mut(&mut self) -> (nodes: &mut SuiPeers)
        ensures
            nodes@ == old(self)@.nodes,
            final(self)@ == (ProviderView { nodes: final(nodes)@, ..old(self)@ }),
    {
        &mut self.nodes
    }

    /// The endpoint of the registry.
    pub fn rpc_url(&self) -> (url: &str)
        ensures
            url@ == self@.rpc_url,
    {
        self.rpc_url.as_str()
    }

    /// The time between two refresh cycles.
    pub fn rpc_poll_interval(&self) -> (interval: Duration)
        ensures
            interval == self@.rpc_poll_interval,
    {
        self.rpc_poll_interval
    }

    /// Where the refresh stands.
    pub fn phase(&self) -> (phase: RefreshPhase)
        ensures
            phase == self@.phase,
    {
        self.phase
    }

    /// Installs `snapshot` as the current trust set, discarding the one in
    /// place. Nothing of the old set remains and nothing else changes.
    pub fn replace(&mut self, snapshot: SuiPeers)
        ensures
            final(self)@ == (ProviderView { nodes: snapshot@, ..old(self)@ }),
    {
        self.nodes = snapshot;
    }

    /// Takes one event of the refresh loop and decides what it does to the
    /// trust set and what the caller does next.
    pub fn poll_peer_list(&mut self, event: RefreshEvent) -> (action: RefreshAction)
        ensures
            final(self)@ == next_state(old(self)@, event@),
            action@ == action_for(old(self)@, event@),
    {
        match self.phase {
            RefreshPhase::Idle => match event {
                RefreshEvent::Tick => {
                    self.phase = RefreshPhase::Fetching;
                    RefreshAction::Fetch(validators_request(self.rpc_url.as_str()))
                },
                _ => RefreshAction::Ignored,
            },
            RefreshPhase::Fetching => match event {
                RefreshEvent::Tick => RefreshAction::Ignored,
                RefreshEvent::Fetched(summary) => {
                    let extraction = extract_reporting(summary);
                    let peers = extraction.peers.len();
                    self.nodes = extraction.peers;
                    self.phase = RefreshPhase::Idle;
                    RefreshAction::Installed { peers, dropped: extraction.dropped }
                },
                RefreshEvent::Failed(error) => {
                    self.phase = RefreshPhase::Idle;
                    RefreshAction::Kept(error)
                },
            },
        }
    }
}

impl Clone for SuiNodeProvider {
    fn clone(&self) -> (copy: SuiNodeProvider)
        ensures
            copy@ == self@,
    {
        SuiNodeProvider {
            nodes: self.nodes.clone(),
            rpc_url: self.rpc_url.clone(),
            rpc_poll_interval: self.rpc_poll_interval,
            phase: self.phase,
        }
    }
}

} // verus!
