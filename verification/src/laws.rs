//! Laws of extraction and refresh, proved from the definitions in which the
//! contracts of this library are stated.

use crate::address::multiaddr_encoding;
use crate::extract::{decoded_key, decoded_keys_distinct, decoded_peer, decodes, extracted};
use crate::fetch::FetchError;
use crate::peer::SuiPeerView;
use crate::provider::{lookup, next_state, permits, ProviderView, RefreshEventView};
use crate::summary::ValidatorSummaryView;
use vstd::prelude::*;

verus! {

/// Whether `record` decodes to a peer under `key`.
pub open spec fn yields_key(record: ValidatorSummaryView, key: Seq<u8>) -> bool {
    decodes(record) && record.network_pubkey_bytes == key
}

/// Whether the extracted set binds the key of `record` to the peer that
/// `record` decodes to.
pub open spec fn extracted_as_decoded(
    records: Seq<ValidatorSummaryView>,
    record: ValidatorSummaryView,
) -> bool {
    extracted(records).contains_key(record.network_pubkey_bytes) && Some(
        extracted(records)[record.network_pubkey_bytes],
    ) == decoded_peer(record)
}

/// A key is bound in the extracted set exactly when some record decodes to
/// a peer under it.
pub proof fn law_extracted_keys_are_decoded_keys(records: Seq<ValidatorSummaryView>, key: Seq<u8>)
    ensures
        extracted(records).contains_key(key) <==> exists|i: int|
            0 <= i < records.len() && yields_key(#[trigger] records[i], key),
    decreases records.len(),
{
    if records.len() > 0 {
        let init = records.drop_last();
        law_extracted_keys_are_decoded_keys(init, key);
        if extracted(records).contains_key(key) && !yields_key(records.last(), key) {
            // The key was bound before the last record: an earlier record yields it.
            let i = choose|i: int| 0 <= i < init.len() && yields_key(#[trigger] init[i], key);
            assert(yields_key(records[i], key));
        }
        if exists|i: int| 0 <= i < records.len() && yields_key(#[trigger] records[i], key) {
            let i = choose|i: int| 0 <= i < records.len() && yields_key(#[trigger] records[i], key);
            if i < init.len() {
                assert(yields_key(init[i], key));
            }
        }
    }
}

/// Extraction yields a finite set of at most as many peers as the summary
/// has records.
pub proof fn law_extraction_never_grows(records: Seq<ValidatorSummaryView>)
    ensures
        extracted(records).dom().finite(),
        extracted(records).len() <= records.len(),
    decreases records.len(),
{
    if records.len() > 0 {
        law_extraction_never_grows(records.drop_last());
    }
}

/// A record that does not decode leaves no trace: the extracted set is the
/// one of the summary without that record.
pub proof fn law_failing_record_is_skipped(records: Seq<ValidatorSummaryView>, bad: int)
    requires
        0 <= bad < records.len(),
        !decodes(records[bad]),
    ensures
        extracted(records) == extracted(records.remove(bad)),
    decreases records.len(),
{
    if bad < records.len() - 1 {
        let init = records.drop_last();
        assert(records.remove(bad).drop_last() == init.remove(bad));
        law_failing_record_is_skipped(init, bad);
    }
}

/// For every summary of n records that all decode, with pairwise different
/// keys, extraction yields exactly n peers: each record's key is bound to
/// the peer decoded from that record.
pub proof fn law_valid_records_all_extracted(records: Seq<ValidatorSummaryView>)
    requires
        forall|i: int| 0 <= i < records.len() ==> decodes(#[trigger] records[i]),
        decoded_keys_distinct(records),
    ensures
        extracted(records).dom().finite(),
        extracted(records).len() == records.len(),
        forall|i: int|
            0 <= i < records.len() ==> extracted_as_decoded(records, #[trigger] records[i]),
    decreases records.len(),
{
    if records.len() > 0 {
        let init = records.drop_last();
        let last = records.last();
        assert forall|i: int| 0 <= i < init.len() implies decodes(#[trigger] init[i]) by {
            assert(init[i] == records[i]);
        }
        assert(decoded_keys_distinct(init)) by {
            assert forall|i: int, j: int|
                0 <= i < j < init.len() && decodes(#[trigger] init[i]) && decodes(
                    #[trigger] init[j],
                ) implies init[i].network_pubkey_bytes != init[j].network_pubkey_bytes by {
                assert(init[i] == records[i] && init[j] == records[j]);
            }
        }
        law_valid_records_all_extracted(init);
        // No earlier record has the key of the last one, so the last one adds a peer.
        assert(!extracted(init).contains_key(last.network_pubkey_bytes)) by {
            law_extracted_keys_are_decoded_keys(init, last.network_pubkey_bytes);
            assert forall|i: int| 0 <= i < init.len() implies !yields_key(
                #[trigger] init[i],
                last.network_pubkey_bytes,
            ) by {
                assert(init[i] == records[i]);
                assert(records[records.len() - 1] == last);
            }
        }
        assert forall|i: int| 0 <= i < records.len() implies extracted_as_decoded(
            records,
            #[trigger] records[i],
        ) by {
            if i < init.len() {
                assert(extracted_as_decoded(init, init[i]));
            }
        }
    }
}

/// Given n records of which one does not decode, while the others decode
/// with pairwise different keys: extraction yields n - 1 peers, every other
/// record's key is bound to the peer decoded from it, and the result is the
/// one that the summary without the failing record yields.
pub proof fn law_failing_record_drops_only_itself(records: Seq<ValidatorSummaryView>, bad: int)
    requires
        0 <= bad < records.len(),
        !decodes(records[bad]),
        forall|i: int| 0 <= i < records.len() && i != bad ==> decodes(#[trigger] records[i]),
        decoded_keys_distinct(records),
    ensures
        extracted(records).dom().finite(),
        extracted(records).len() == records.len() - 1,
        extracted(records) == extracted(records.remove(bad)),
        forall|i: int|
            0 <= i < records.len() && i != bad ==> extracted_as_decoded(
                records,
                #[trigger] records[i],
            ),
{
    let others = records.remove(bad);
    law_failing_record_is_skipped(records, bad);
    assert forall|i: int| 0 <= i < others.len() implies decodes(#[trigger] others[i]) by {
        let at = if i < bad { i } else { i + 1 };
        assert(others[i] == records[at]);
    }
    assert(decoded_keys_distinct(others)) by {
        assert forall|i: int, j: int|
            0 <= i < j < others.len() && decodes(#[trigger] others[i]) && decodes(
                #[trigger] others[j],
            ) implies others[i].network_pubkey_bytes != others[j].network_pubkey_bytes by {
            let a = if i < bad { i } else { i + 1 };
            let b = if j < bad { j } else { j + 1 };
            assert(others[i] == records[a] && others[j] == records[b]);
        }
    }
    law_valid_records_all_extracted(others);
    assert forall|i: int| 0 <= i < records.len() && i != bad implies extracted_as_decoded(
        records,
        #[trigger] records[i],
    ) by {
        let at = if i < bad { i } else { i - 1 };
        assert(others[at] == records[i]);
        assert(extracted_as_decoded(others, others[at]));
    }
}

/// Given n records of which exactly one has corrupt key bytes, while the
/// others decode with pairwise different keys: extraction yields n - 1
/// peers, none of the others is affected, and the corrupt key is not
/// trusted.
pub proof fn law_corrupt_key_drops_only_its_record(records: Seq<ValidatorSummaryView>, bad: int)
    requires
        0 <= bad < records.len(),
        decoded_key(records[bad].network_pubkey_bytes) is None,
        forall|i: int| 0 <= i < records.len() && i != bad ==> decodes(#[trigger] records[i]),
        decoded_keys_distinct(records),
    ensures
        extracted(records).dom().finite(),
        extracted(records).len() == records.len() - 1,
        extracted(records) == extracted(records.remove(bad)),
        !extracted(records).contains_key(records[bad].network_pubkey_bytes),
        forall|i: int|
            0 <= i < records.len() && i != bad ==> extracted_as_decoded(
                records,
                #[trigger] records[i],
            ),
{
    law_failing_record_drops_only_itself(records, bad);
    law_extracted_keys_are_decoded_keys(records, records[bad].network_pubkey_bytes);
}

/// Given n records of which exactly one has an address that is no network
/// address, whatever its key, while the others decode with pairwise
/// different keys: extraction yields n - 1 peers and none of the others is
/// affected.
pub proof fn law_invalid_address_drops_only_its_record(records: Seq<ValidatorSummaryView>, bad: int)
    requires
        0 <= bad < records.len(),
        multiaddr_encoding(records[bad].p2p_address) is None,
        forall|i: int| 0 <= i < records.len() && i != bad ==> decodes(#[trigger] records[i]),
        decoded_keys_distinct(records),
    ensures
        extracted(records).dom().finite(),
        extracted(records).len() == records.len() - 1,
        extracted(records) == extracted(records.remove(bad)),
        forall|i: int|
            0 <= i < records.len() && i != bad ==> extracted_as_decoded(
                records,
                #[trigger] records[i],
            ),
{
    law_failing_record_drops_only_itself(records, bad);
}

/// The state after one whole refresh cycle: a tick, then the report of what
/// the fetch returned.
pub open spec fn refreshed(
    state: ProviderView,
    fetched: Result<Seq<ValidatorSummaryView>, FetchError>,
) -> ProviderView {
    let started = next_state(state, RefreshEventView::Tick);
    match fetched {
        Ok(summary) => next_state(started, RefreshEventView::Fetched(summary)),
        Err(error) => next_state(started, RefreshEventView::Failed(error)),
    }
}

/// After a successful refresh, a key is trusted exactly when it is bound in
/// the set extracted from the fetched summary, whatever was trusted before.
pub proof fn law_successful_refresh_installs_snapshot(
    state: ProviderView,
    summary: Seq<ValidatorSummaryView>,
    key: Seq<u8>,
)
    ensures
        refreshed(state, Ok(summary)).nodes == extracted(summary),
        permits(refreshed(state, Ok(summary)), key) == extracted(summary).contains_key(key),
{
}

/// A refresh cycle that fails, for whatever reason, leaves every answer of
/// the trust set as it was.
pub proof fn law_failed_refresh_changes_no_answer(
    state: ProviderView,
    error: FetchError,
    key: Seq<u8>,
)
    ensures
        refreshed(state, Err(error)).nodes == state.nodes,
        permits(refreshed(state, Err(error)), key) == permits(state, key),
        lookup(refreshed(state, Err(error)), key) == lookup(state, key),
{
}

/// Round trip: once a summary is installed, looking up a key of the
/// extracted set returns the very record that extraction produced for it.
pub proof fn law_lookup_returns_extracted_record(
    state: ProviderView,
    summary: Seq<ValidatorSummaryView>,
    key: Seq<u8>,
)
    requires
        extracted(summary).contains_key(key),
    ensures
        lookup(refreshed(state, Ok(summary)), key) == Some(extracted(summary)[key]),
{
}

/// The state after a run of events, taken in order.
pub open spec fn run(state: ProviderView, events: Seq<RefreshEventView>) -> ProviderView
    decreases events.len(),
{
    if events.len() == 0 {
        state
    } else {
        next_state(run(state, events.drop_last()), events.last())
    }
}

/// Whether `nodes` is the whole set extracted from the summary that
/// `event` delivered.
pub open spec fn installed_by(nodes: Map<Seq<u8>, SuiPeerView>, event: RefreshEventView) -> bool {
    event matches RefreshEventView::Fetched(summary) && nodes == extracted(summary)
}

/// Whatever events arrive, in whatever order, the trust set is at every
/// moment a whole snapshot: the one the run began with, or the one extracted
/// from one of the summaries that arrived. The endpoint and the poll
/// interval never change.
pub proof fn law_trust_set_is_always_a_whole_snapshot(
    state: ProviderView,
    events: Seq<RefreshEventView>,
)
    ensures
        run(state, events).nodes == state.nodes || exists|i: int|
            0 <= i < events.len() && installed_by(run(state, events).nodes, #[trigger] events[i]),
        run(state, events).rpc_url == state.rpc_url,
        run(state, events).rpc_poll_interval == state.rpc_poll_interval,
    decreases events.len(),
{
    if events.len() > 0 {
        let before = events.drop_last();
        let after = run(state, events);
        law_trust_set_is_always_a_whole_snapshot(state, before);
        if after.nodes != run(state, before).nodes {
            // Only a summary that arrives changes the set, and then to its whole extraction.
            assert(installed_by(after.nodes, events[events.len() - 1]));
        } else if after.nodes != state.nodes {
            // The set is the one that an earlier event of the run installed.
            let i = choose|i: int|
                0 <= i < before.len() && installed_by(after.nodes, #[trigger] before[i]);
            assert(installed_by(after.nodes, events[i]));
        }
    }
}

} // verus!
