use std::time::Duration;
use sui_proxy::address::NetworkAddress;
use sui_proxy::extract::{DroppedEntry, EntryError};
use sui_proxy::fetch::{
    check_status, classify_decode_failure, validators_request, DecodeFailure, FetchError,
    RpcRequest, CONTENT_TYPE, FETCH_TIMEOUT_SECS, REQUEST_BODY, RPC_METHOD,
};
use sui_proxy::key::PublicKey;
use sui_proxy::peer::SuiPeer;
use sui_proxy::provider::{RefreshAction, RefreshEvent, RefreshPhase, SuiNodeProvider};
use sui_proxy::summary::{SystemStateSummary, ValidatorSummary};
use sui_proxy::trust_set::SuiPeers;

const URL: &str = "http://127.0.0.1:9000";

const BODY: &str = "{\"jsonrpc\":\"2.0\",\"method\":\"sui_getLatestSuiSystemState\",\"id\":1}";

const KEY_A: [u8; 32] = [
    0xd7, 0x5a, 0x98, 0x01, 0x82, 0xb1, 0x0a, 0xb7, 0xd5, 0x4b, 0xfe, 0xd3, 0xc9, 0x64, 0x07, 0x3a,
    0x0e, 0xe1, 0x72, 0xf3, 0xda, 0xa6, 0x23, 0x25, 0xaf, 0x02, 0x1a, 0x68, 0xf7, 0x07, 0x51, 0x1a,
];

const KEY_B: [u8; 32] = [
    0x3d, 0x40, 0x17, 0xc3, 0xe8, 0x43, 0x89, 0x5a, 0x92, 0xb7, 0x0a, 0xa7, 0x4d, 0x1b, 0x7e, 0xbc,
    0x9c, 0x98, 0x2c, 0xcf, 0x2e, 0xc4, 0x96, 0x8c, 0xc0, 0xcd, 0x55, 0xf1, 0x2a, 0xf4, 0x66, 0x0c,
];

const KEY_C: [u8; 32] = [
    0xfc, 0x51, 0xcd, 0x8e, 0x62, 0x18, 0xa1, 0xa3, 0x8d, 0xa4, 0x7e, 0xd0, 0x02, 0x30, 0xf0, 0x58,
    0x08, 0x16, 0xed, 0x13, 0xba, 0x33, 0x03, 0xac, 0x5d, 0xeb, 0x91, 0x15, 0x48, 0x90, 0x80, 0x25,
];

fn record(name: &str, key: &[u8], address: &str) -> ValidatorSummary {
    ValidatorSummary {
        name: name.to_string(),
        network_pubkey_bytes: key.to_vec(),
        p2p_address: address.to_string(),
    }
}

fn peer(name: &str, key: [u8; 32], address: &str) -> SuiPeer {
    SuiPeer {
        name: name.to_string(),
        p2p_address: NetworkAddress::parse(address).expect("a multiaddr parses"),
        public_key: PublicKey::new(key),
    }
}

fn summary(records: Vec<ValidatorSummary>) -> SystemStateSummary {
    SystemStateSummary { active_validators: records }
}

fn provider() -> SuiNodeProvider {
    SuiNodeProvider::new(URL.to_string(), Duration::from_secs(30))
}

fn expected_request() -> RpcRequest {
    RpcRequest {
        url: URL.to_string(),
        content_type: "application/json".to_string(),
        body: BODY.to_string(),
    }
}

/// One whole cycle that fetches `records`.
fn refresh_with(provider: &mut SuiNodeProvider, records: Vec<ValidatorSummary>) -> RefreshAction {
    let started = provider.poll_peer_list(RefreshEvent::Tick);
    assert_eq!(started, RefreshAction::Fetch(expected_request()));
    provider.poll_peer_list(RefreshEvent::Fetched(summary(records)))
}

/// One whole cycle whose fetch fails with `error`.
fn refresh_failing(provider: &mut SuiNodeProvider, error: FetchError) -> RefreshAction {
    let started = provider.poll_peer_list(RefreshEvent::Tick);
    assert_eq!(started, RefreshAction::Fetch(expected_request()));
    provider.poll_peer_list(RefreshEvent::Failed(error))
}

#[test]
fn request_is_one_json_rpc_call() {
    assert_eq!(RPC_METHOD, "sui_getLatestSuiSystemState");
    assert_eq!(CONTENT_TYPE, "application/json");
    assert_eq!(REQUEST_BODY, BODY);
    assert_eq!(validators_request(URL), expected_request());
    let body: serde_json::Value = serde_json::from_str(REQUEST_BODY).expect("the body is JSON");
    assert_eq!(body["jsonrpc"], "2.0");
    assert_eq!(body["method"], RPC_METHOD);
    assert_eq!(body["id"], 1);
    assert_eq!(body.as_object().expect("an object").len(), 3);
}

#[test]
fn check_status_accepts_exactly_the_success_range() {
    assert_eq!(check_status(200), Ok(()));
    assert_eq!(check_status(204), Ok(()));
    assert_eq!(check_status(299), Ok(()));
    assert_eq!(check_status(199), Err(FetchError::Status(199)));
    assert_eq!(check_status(300), Err(FetchError::Status(300)));
    assert_eq!(check_status(404), Err(FetchError::Status(404)));
    assert_eq!(check_status(500), Err(FetchError::Status(500)));
    assert_eq!(check_status(0), Err(FetchError::Status(0)));
    assert_eq!(check_status(u16::MAX), Err(FetchError::Status(u16::MAX)));
}

#[test]
fn body_that_does_not_decode_is_malformed_unless_its_shape_is_wrong() {
    assert_eq!(classify_decode_failure(DecodeFailure::Syntax), FetchError::MalformedJson);
    assert_eq!(classify_decode_failure(DecodeFailure::UnexpectedEnd), FetchError::MalformedJson);
    assert_eq!(classify_decode_failure(DecodeFailure::Io), FetchError::MalformedJson);
    assert_eq!(classify_decode_failure(DecodeFailure::Data), FetchError::SchemaMismatch);
}

#[test]
fn fetch_timeout_is_bounded() {
    assert_eq!(FETCH_TIMEOUT_SECS, 10);
}

#[test]
fn new_provider_is_idle_and_trusts_nobody() {
    let provider = provider();
    assert_eq!(provider.phase(), RefreshPhase::Idle);
    assert_eq!(provider.rpc_url(), URL);
    assert_eq!(provider.rpc_poll_interval(), Duration::from_secs(30));
    assert_eq!(provider.get_ref().len(), 0);
    assert!(!provider.allowed(&PublicKey::new(KEY_A)));
    assert_eq!(provider.get(&PublicKey::new(KEY_A)), None);
}

#[test]
fn tick_starts_a_cycle_and_hands_out_the_request() {
    let mut provider = provider();
    let action = provider.poll_peer_list(RefreshEvent::Tick);
    assert_eq!(action, RefreshAction::Fetch(expected_request()));
    assert_eq!(provider.phase(), RefreshPhase::Fetching);
    assert_eq!(provider.get_ref().len(), 0);
}

#[test]
fn successful_refresh_trusts_exactly_the_extracted_keys() {
    let mut provider = provider();
    let action = refresh_with(
        &mut provider,
        vec![
            record("alpha", &KEY_A, "/ip4/10.0.0.1/tcp/8080"),
            record("beta", &KEY_B, "/ip4/10.0.0.2/tcp/8080"),
        ],
    );
    assert_eq!(action, RefreshAction::Installed { peers: 2, dropped: vec![] });
    assert_eq!(provider.phase(), RefreshPhase::Idle);
    assert!(provider.allowed(&PublicKey::new(KEY_A)));
    assert!(provider.allowed(&PublicKey::new(KEY_B)));
    assert!(!provider.allowed(&PublicKey::new(KEY_C)));
    assert!(!provider.allowed(&PublicKey::new([0; 32])));
}

#[test]
fn successful_refresh_discards_what_was_trusted_before() {
    let mut provider = provider();
    refresh_with(&mut provider, vec![record("alpha", &KEY_A, "/ip4/10.0.0.1/tcp/8080")]);
    let action =
        refresh_with(&mut provider, vec![record("gamma", &KEY_C, "/ip4/10.0.0.3/tcp/8080")]);
    assert_eq!(action, RefreshAction::Installed { peers: 1, dropped: vec![] });
    assert!(!provider.allowed(&PublicKey::new(KEY_A)));
    assert!(provider.allowed(&PublicKey::new(KEY_C)));
    assert_eq!(provider.get_ref().len(), 1);
}

#[test]
fn refresh_with_no_validators_empties_the_trust_set() {
    let mut provider = provider();
    refresh_with(&mut provider, vec![record("alpha", &KEY_A, "/ip4/10.0.0.1/tcp/8080")]);
    let action = refresh_with(&mut provider, vec![]);
    assert_eq!(action, RefreshAction::Installed { peers: 0, dropped: vec![] });
    assert!(!provider.allowed(&PublicKey::new(KEY_A)));
}

#[test]
fn failed_refresh_changes_no_answer() {
    for error in [
        FetchError::Transport,
        FetchError::Status(503),
        FetchError::MalformedJson,
        FetchError::SchemaMismatch,
    ] {
        let mut provider = provider();
        refresh_with(
            &mut provider,
            vec![
                record("alpha", &KEY_A, "/ip4/10.0.0.1/tcp/8080"),
                record("beta", &KEY_B, "/ip4/10.0.0.2/tcp/8080"),
            ],
        );
        let action = refresh_failing(&mut provider, error);
        assert_eq!(action, RefreshAction::Kept(error));
        assert_eq!(provider.phase(), RefreshPhase::Idle);
        assert_eq!(provider.get_ref().len(), 2);
        assert!(provider.allowed(&PublicKey::new(KEY_A)));
        assert!(provider.allowed(&PublicKey::new(KEY_B)));
        assert!(!provider.allowed(&PublicKey::new(KEY_C)));
        assert_eq!(
            provider.get(&PublicKey::new(KEY_A)),
            Some(peer("alpha", KEY_A, "/ip4/10.0.0.1/tcp/8080"))
        );
    }
}

#[test]
fn failed_first_refresh_leaves_the_trust_set_empty() {
    let mut provider = provider();
    let action = refresh_failing(&mut provider, FetchError::Transport);
    assert_eq!(action, RefreshAction::Kept(FetchError::Transport));
    assert_eq!(provider.get_ref().len(), 0);
    assert!(!provider.allowed(&PublicKey::new(KEY_A)));
}

#[test]
fn lookup_returns_the_record_that_extraction_produced() {
    let mut provider = provider();
    refresh_with(
        &mut provider,
        vec![
            record("alpha", &KEY_A, "/ip4/127.0.0.1/tcp/10000"),
            record("beta", &KEY_B, "/dns/beta.example/udp/8084"),
        ],
    );
    let found = provider.get(&PublicKey::new(KEY_A)).expect("alpha is trusted");
    assert_eq!(found.name, "alpha");
    assert_eq!(found.public_key.as_bytes(), &KEY_A);
    assert_eq!(found.p2p_address.as_bytes(), &[4u8, 127, 0, 0, 1, 6, 0x27, 0x10][..]);
    assert_eq!(
        provider.get(&PublicKey::new(KEY_B)),
        Some(peer("beta", KEY_B, "/dns/beta.example/udp/8084"))
    );
    assert_eq!(provider.get(&PublicKey::new(KEY_C)), None);
}

#[test]
fn three_validators_of_which_the_second_has_a_short_key() {
    let mut provider = provider();
    let action = refresh_with(
        &mut provider,
        vec![
            record("one", &KEY_A, "/ip4/10.0.0.1/tcp/8080"),
            record("two", &KEY_B[..31], "/ip4/10.0.0.2/tcp/8080"),
            record("three", &KEY_C, "/ip4/10.0.0.3/tcp/8080"),
        ],
    );
    assert_eq!(
        action,
        RefreshAction::Installed {
            peers: 2,
            dropped: vec![DroppedEntry {
                name: "two".to_string(),
                reason: EntryError::UndecodableKey
            }],
        }
    );
    assert_eq!(provider.get_ref().len(), 2);
    assert!(provider.allowed(&PublicKey::new(KEY_A)));
    assert!(!provider.allowed(&PublicKey::new(KEY_B)));
    assert!(provider.allowed(&PublicKey::new(KEY_C)));
}

#[test]
fn unreachable_registry_keeps_the_set_until_the_next_success() {
    let mut provider = provider();
    let a = PublicKey::new(KEY_A);
    let b = PublicKey::new(KEY_B);

    let first = refresh_with(
        &mut provider,
        vec![
            record("a", &KEY_A, "/ip4/10.0.0.1/tcp/8080"),
            record("b", &KEY_B, "/ip4/10.0.0.2/tcp/8080"),
        ],
    );
    assert_eq!(first, RefreshAction::Installed { peers: 2, dropped: vec![] });
    assert!(provider.allowed(&a));
    assert!(provider.allowed(&b));

    let second = refresh_failing(&mut provider, FetchError::Transport);
    assert_eq!(second, RefreshAction::Kept(FetchError::Transport));
    assert!(provider.allowed(&a));
    assert!(provider.allowed(&b));

    let third = refresh_with(&mut provider, vec![record("b", &KEY_B, "/ip4/10.0.0.2/tcp/8080")]);
    assert_eq!(third, RefreshAction::Installed { peers: 1, dropped: vec![] });
    assert!(!provider.allowed(&a));
    assert!(provider.allowed(&b));
}

#[test]
fn tick_while_a_fetch_is_awaited_is_ignored() {
    let mut provider = provider();
    provider.poll_peer_list(RefreshEvent::Tick);
    assert_eq!(provider.poll_peer_list(RefreshEvent::Tick), RefreshAction::Ignored);
    assert_eq!(provider.phase(), RefreshPhase::Fetching);
    let fetched = summary(vec![record("a", &KEY_A, "/ip4/10.0.0.1/tcp/1")]);
    let action = provider.poll_peer_list(RefreshEvent::Fetched(fetched));
    assert_eq!(action, RefreshAction::Installed { peers: 1, dropped: vec![] });
    assert_eq!(provider.phase(), RefreshPhase::Idle);
}

#[test]
fn result_that_no_request_preceded_is_ignored() {
    let mut provider = provider();
    let fetched = summary(vec![record("a", &KEY_A, "/ip4/10.0.0.1/tcp/1")]);
    let action = provider.poll_peer_list(RefreshEvent::Fetched(fetched));
    assert_eq!(action, RefreshAction::Ignored);
    assert!(!provider.allowed(&PublicKey::new(KEY_A)));
    let action = provider.poll_peer_list(RefreshEvent::Failed(FetchError::Transport));
    assert_eq!(action, RefreshAction::Ignored);
    assert_eq!(provider.phase(), RefreshPhase::Idle);
}

#[test]
fn replace_installs_the_given_snapshot_whole() {
    let mut provider = provider();
    refresh_with(&mut provider, vec![record("alpha", &KEY_A, "/ip4/10.0.0.1/tcp/8080")]);
    let mut snapshot = SuiPeers::new();
    snapshot.insert(PublicKey::new(KEY_B), peer("beta", KEY_B, "/ip4/10.0.0.2/tcp/8080"));
    provider.replace(snapshot);
    assert!(!provider.allowed(&PublicKey::new(KEY_A)));
    assert!(provider.allowed(&PublicKey::new(KEY_B)));
    assert_eq!(provider.get_ref().len(), 1);
    assert_eq!(provider.rpc_url(), URL);
    assert_eq!(provider.phase(), RefreshPhase::Idle);
}

#[test]
fn get_mut_changes_the_snapshot_in_place() {
    let mut provider = provider();
    let alpha = peer("alpha", KEY_A, "/ip4/10.0.0.1/tcp/8080");
    provider.get_mut().insert(PublicKey::new(KEY_A), alpha);
    assert!(provider.allowed(&PublicKey::new(KEY_A)));
    let renamed = peer("renamed", KEY_A, "/ip4/10.0.0.1/tcp/8080");
    provider.get_mut().insert(PublicKey::new(KEY_A), renamed);
    assert_eq!(provider.get_ref().len(), 1);
    assert_eq!(
        provider.get(&PublicKey::new(KEY_A)),
        Some(peer("renamed", KEY_A, "/ip4/10.0.0.1/tcp/8080"))
    );
}

#[test]
fn snapshot_taken_before_a_refresh_is_not_changed_by_it() {
    let mut provider = provider();
    refresh_with(&mut provider, vec![record("alpha", &KEY_A, "/ip4/10.0.0.1/tcp/8080")]);
    let before = provider.get_ref().clone();
    let copy = provider.clone();
    refresh_with(&mut provider, vec![record("beta", &KEY_B, "/ip4/10.0.0.2/tcp/8080")]);
    assert!(before.contains_key(&PublicKey::new(KEY_A)));
    assert!(!before.contains_key(&PublicKey::new(KEY_B)));
    assert_eq!(before.len(), 1);
    assert!(copy.allowed(&PublicKey::new(KEY_A)));
    assert!(!copy.allowed(&PublicKey::new(KEY_B)));
    assert!(provider.allowed(&PublicKey::new(KEY_B)));
}

#[test]
fn trust_set_binds_each_key_once() {
    let mut peers = SuiPeers::new();
    assert_eq!(peers.len(), 0);
    peers.insert(PublicKey::new(KEY_A), peer("a", KEY_A, "/ip4/10.0.0.1/tcp/1"));
    peers.insert(PublicKey::new(KEY_B), peer("b", KEY_B, "/ip4/10.0.0.2/tcp/2"));
    peers.insert(PublicKey::new(KEY_A), peer("a2", KEY_A, "/ip4/10.0.0.3/tcp/3"));
    assert_eq!(peers.len(), 2);
    assert_eq!(peers.get(&PublicKey::new(KEY_A)), Some(&peer("a2", KEY_A, "/ip4/10.0.0.3/tcp/3")));
    assert_eq!(peers.get(&PublicKey::new(KEY_B)), Some(&peer("b", KEY_B, "/ip4/10.0.0.2/tcp/2")));
    assert_eq!(peers.get(&PublicKey::new(KEY_C)), None);
    assert!(peers.contains_key(&PublicKey::new(KEY_B)));
    assert!(!peers.contains_key(&PublicKey::new(KEY_C)));
}
