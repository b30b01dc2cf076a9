//! Blame-vector reconstruction against concrete store snapshots.

use snapshot_sync::BlockHeader;
use snapshot_sync::ExecutionRecord;
use snapshot_sync::Hash256;
use snapshot_sync::RecordStore;
use snapshot_sync::SnapshotManifestRequest;

fn h(n: u64) -> Hash256 {
    Hash256 { w0: n, w1: 0, w2: 0, w3: 0 }
}

fn rec(n: u64) -> ExecutionRecord {
    ExecutionRecord {
        state_commitment: h(1000 + n),
        receipt_commitment: h(2000 + n),
        bloom_commitment: h(3000 + n),
    }
}

fn empty_store() -> RecordStore {
    RecordStore {
        headers: vec![],
        records: vec![],
        results: vec![],
        epoch_sets: vec![],
        manifests: vec![],
    }
}

/// A parent-linked chain of `len` blocks whose newest block sits at
/// `top_height` and has hash `h(top_height)`; block heights descend by one.
fn chain_store(top_height: u64, len: u64, top_blame: u32) -> RecordStore {
    let mut store = empty_store();
    for i in 0..len {
        let height = top_height - i;
        let blame = if i == 0 { top_blame } else { 0 };
        store.headers.push((
            h(height),
            BlockHeader { height, parent_hash: h(height.wrapping_sub(1)), blame_count: blame },
        ));
        store.records.push((h(height), rec(height)));
    }
    store
}

#[test]
fn genesis_checkpoint_genesis_anchor() {
    // Checkpoint at height 0, anchor is genesis itself: d = 0, length
    // max(0 + 1, 0 + 1) = 1, holding genesis's own commitment triplet.
    let mut store = empty_store();
    store.headers.push((h(0), BlockHeader { height: 0, parent_hash: h(999), blame_count: 0 }));
    store.records.push((h(0), rec(0)));
    let req = SnapshotManifestRequest::new(h(0), h(0));
    let (states, receipts, blooms) = req.get_blame_states(&store).expect("blame vector");
    assert_eq!(states.len(), 1);
    assert_eq!(receipts.len(), 1);
    assert_eq!(blooms.len(), 1);
    assert_eq!(states[0], h(1000));
    assert_eq!(receipts[0], h(2000));
    assert_eq!(blooms[0], h(3000));
}

#[test]
fn reward_window_slack_length() {
    // Checkpoint height 100, anchor height 105, anchor blame 2:
    // length = max(5 + 12, 2 + 1) = 17.
    let store = chain_store(105, 17, 2);
    let req = SnapshotManifestRequest::new(h(100), h(105));
    let (states, receipts, blooms) = req.get_blame_states(&store).expect("blame vector");
    assert_eq!(states.len(), 17);
    assert_eq!(receipts.len(), 17);
    assert_eq!(blooms.len(), 17);
    // Newest first: the anchor's own commitments lead the vectors.
    assert_eq!(states[0], h(1000 + 105));
    assert_eq!(states[16], h(1000 + 89));
    assert_eq!(receipts[16], h(2000 + 89));
    assert_eq!(blooms[16], h(3000 + 89));
}

#[test]
fn blame_span_dominates_length() {
    // Checkpoint at height 0, anchor at height 3 with blame 10: the blame
    // span (10 + 1) outweighs the height difference (3 + 1), so the walk
    // collects 11 commitments.
    let mut store = empty_store();
    store.headers.push((h(0), BlockHeader { height: 0, parent_hash: h(999), blame_count: 0 }));
    store.headers.push((h(3), BlockHeader { height: 3, parent_hash: h(601), blame_count: 10 }));
    store.records.push((h(3), rec(3)));
    for i in 1..11 {
        store.headers.push((
            h(600 + i),
            BlockHeader { height: 1, parent_hash: h(600 + i + 1), blame_count: 0 },
        ));
        store.records.push((h(600 + i), rec(600 + i)));
    }
    let req = SnapshotManifestRequest::new(h(0), h(3));
    let (states, _receipts, _blooms) = req.get_blame_states(&store).expect("blame vector");
    assert_eq!(states.len(), 11);
    assert_eq!(states[0], h(1000 + 3));
    assert_eq!(states[10], h(1000 + 610));
}

#[test]
fn missing_record_aborts_walk() {
    // Drop one execution record in the middle of the walk: the whole
    // reconstruction reports incompleteness, never a shorter vector.
    let mut store = chain_store(105, 17, 2);
    store.records.retain(|(k, _)| *k != h(95));
    let req = SnapshotManifestRequest::new(h(100), h(105));
    assert!(req.get_blame_states(&store).is_none());
}

#[test]
fn missing_parent_header_aborts_walk() {
    // All records present but one parent link missing before the target
    // length is reached.
    let mut store = chain_store(105, 17, 2);
    store.headers.retain(|(k, _)| *k != h(95));
    let req = SnapshotManifestRequest::new(h(100), h(105));
    assert!(req.get_blame_states(&store).is_none());
}

#[test]
fn last_block_needs_no_header() {
    // The walk stops as soon as the target length is reached: the oldest
    // collected block's header is never consulted.
    let mut store = chain_store(105, 17, 2);
    store.headers.retain(|(k, _)| *k != h(89));
    let req = SnapshotManifestRequest::new(h(100), h(105));
    let (states, _, _) = req.get_blame_states(&store).expect("blame vector");
    assert_eq!(states.len(), 17);
}

#[test]
fn anchor_below_checkpoint_rejected() {
    // Anchor height 90 < checkpoint height 100: invalid request, no blame
    // vector, and the handler answers with empty vectors, without panic.
    let mut store = chain_store(105, 17, 0);
    store.headers.push((h(90), BlockHeader { height: 90, parent_hash: h(89), blame_count: 0 }));
    let req = SnapshotManifestRequest::new(h(100), h(90));
    assert!(req.get_blame_states(&store).is_none());
    let resp = req.handle(&store);
    assert!(resp.state_blame_vec.is_empty());
    assert!(resp.receipt_blame_vec.is_empty());
    assert!(resp.bloom_blame_vec.is_empty());
    assert_eq!(resp.request_id, req.request_id);
    assert_eq!(resp.checkpoint, h(100));
}

#[test]
fn missing_anchor_header_rejected() {
    let store = chain_store(105, 17, 0);
    let req = SnapshotManifestRequest::new(h(100), h(500));
    assert!(req.get_blame_states(&store).is_none());
}

#[test]
fn missing_checkpoint_header_rejected() {
    let store = chain_store(105, 17, 0);
    let req = SnapshotManifestRequest::new(h(500), h(105));
    assert!(req.get_blame_states(&store).is_none());
}

#[test]
fn no_anchor_no_blame_vector() {
    // A continuation request carries no trusted anchor: no blame vector is
    // even attempted.
    let store = chain_store(105, 17, 0);
    let req = SnapshotManifestRequest::new_with_start_chunk(
        h(100),
        snapshot_sync::ChunkKey { cursor: 7 },
    );
    assert!(req.get_blame_states(&store).is_none());
}
