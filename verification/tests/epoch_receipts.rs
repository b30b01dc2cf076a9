//! Epoch-receipt collection against concrete store snapshots.

use snapshot_sync::BlockHeader;
use snapshot_sync::ExecutionResult;
use snapshot_sync::Hash256;
use snapshot_sync::RecordStore;
use snapshot_sync::SnapshotManifestRequest;
use snapshot_sync::REWARD_EPOCH_COUNT;

fn h(n: u64) -> Hash256 {
    Hash256 { w0: n, w1: 0, w2: 0, w3: 0 }
}

fn res(block: u64, epoch: u64) -> ExecutionResult {
    ExecutionResult { block_hash: h(block), receipts_digest: h(7000 + 100 * epoch + block) }
}

fn empty_store() -> RecordStore {
    RecordStore {
        headers: vec![],
        records: vec![],
        results: vec![],
        epoch_sets: vec![],
        manifests: vec![],
    }
}

/// A chain whose epoch at height `height` is anchored at `h(height)`, has
/// executable blocks `h(height)` and `h(height + 500)`, and parent
/// `h(height - 1)`.
fn receipt_store(top_height: u64, len: u64) -> RecordStore {
    let mut store = empty_store();
    for i in 0..len {
        let height = top_height - i;
        store.headers.push((
            h(height),
            BlockHeader { height, parent_hash: h(height.wrapping_sub(1)), blame_count: 0 },
        ));
        store.epoch_sets.push((height, vec![h(height), h(height + 500)]));
        store.results.push(((h(height), h(height)), res(height, height)));
        store.results.push(((h(height + 500), h(height)), res(height + 500, height)));
    }
    store
}

#[test]
fn full_window_collected() {
    // A chain deeper than the reward window: exactly REWARD_EPOCH_COUNT
    // epochs contribute, newest first, block order kept within each epoch.
    let store = receipt_store(100, 40);
    let req = SnapshotManifestRequest::new(h(100), h(100));
    let receipts = req.get_block_receipts(&store).expect("receipts");
    assert_eq!(receipts.len() as u64, 2 * REWARD_EPOCH_COUNT);
    assert_eq!(receipts[0], res(100, 100));
    assert_eq!(receipts[1], res(600, 100));
    assert_eq!(receipts[2], res(99, 99));
    let last_epoch = 100 - REWARD_EPOCH_COUNT + 1;
    assert_eq!(receipts[receipts.len() - 1], res(last_epoch + 500, last_epoch));
}

#[test]
fn genesis_stops_the_walk_early() {
    // The checkpoint sits three epochs above genesis: only four epochs
    // contribute, the walk stopping after the genesis epoch.
    let store = receipt_store(3, 4);
    let req = SnapshotManifestRequest::new(h(3), h(3));
    let receipts = req.get_block_receipts(&store).expect("receipts");
    assert_eq!(receipts.len(), 8);
    assert_eq!(receipts[0], res(3, 3));
    assert_eq!(receipts[7], res(500, 0));
}

#[test]
fn missing_epoch_header_aborts() {
    let mut store = receipt_store(100, 40);
    store.headers.retain(|(k, _)| *k != h(95));
    let req = SnapshotManifestRequest::new(h(100), h(100));
    assert!(req.get_block_receipts(&store).is_none());
}

#[test]
fn missing_epoch_ordering_aborts() {
    // The consensus ordering query fails for one height in the window.
    let mut store = receipt_store(100, 40);
    store.epoch_sets.retain(|(k, _)| *k != 95);
    let req = SnapshotManifestRequest::new(h(100), h(100));
    assert!(req.get_block_receipts(&store).is_none());
}

#[test]
fn missing_one_result_aborts() {
    // One executable block of one epoch lacks its execution result: the
    // whole collection reports incompleteness.
    let mut store = receipt_store(100, 40);
    store.results.retain(|(k, _)| *k != (h(595), h(95)));
    let req = SnapshotManifestRequest::new(h(100), h(100));
    assert!(req.get_block_receipts(&store).is_none());
}

#[test]
fn epoch_below_window_may_be_missing() {
    // Epochs below the reward window are never consulted.
    let top = 100;
    let window_floor = top - REWARD_EPOCH_COUNT + 1;
    let mut store = receipt_store(top, 40);
    store.results.retain(|(k, _)| k.1 != h(window_floor - 1));
    let req = SnapshotManifestRequest::new(h(top), h(top));
    assert!(req.get_block_receipts(&store).is_some());
}
