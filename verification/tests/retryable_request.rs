//! The shared retryable-request behaviour as the manifest request
//! implements it.

use snapshot_sync::ChunkKey;
use snapshot_sync::DynamicCapability;
use snapshot_sync::Hash256;
use snapshot_sync::KeyContainer;
use snapshot_sync::ProtocolConfiguration;
use snapshot_sync::RetryableRequest;
use snapshot_sync::SnapshotManifestRequest;

fn h(n: u64) -> Hash256 {
    Hash256 { w0: n, w1: 0, w2: 0, w3: 0 }
}

#[test]
fn resend_preserves_all_fields() {
    let mut req = SnapshotManifestRequest::new(h(1), h(2));
    req.request_id = 9;
    req.start_chunk = Some(ChunkKey { cursor: 3 });
    let copy = req.resend().expect("a manifest request is always resendable");
    assert_eq!(copy.checkpoint, req.checkpoint);
    assert_eq!(copy.start_chunk, req.start_chunk);
    assert_eq!(copy.trusted_blame_block, req.trusted_blame_block);
}

#[test]
fn timeout_is_the_header_request_timeout() {
    let conf = ProtocolConfiguration { headers_request_timeout_ms: 2500 };
    let req = SnapshotManifestRequest::new(h(1), h(2));
    assert_eq!(req.timeout_ms(&conf), 2500);
}

#[test]
fn required_capability_names_the_checkpoint() {
    let req = SnapshotManifestRequest::new(h(5), h(6));
    match req.required_capability() {
        Some(DynamicCapability::ServeCheckpoint(Some(cp))) => assert_eq!(cp, h(5)),
        other => panic!("unexpected capability: {:?}", other),
    }
}

#[test]
fn never_trivially_satisfied() {
    let req = SnapshotManifestRequest::new(h(1), h(2));
    assert!(!req.is_empty());
}

#[test]
fn inflight_hooks_are_no_ops() {
    let mut req = SnapshotManifestRequest::new(h(1), h(2));
    let mut keys = KeyContainer { keys: vec![4, 5] };
    req.on_removed(&mut keys);
    assert_eq!(keys.keys, vec![4, 5]);
    let before = req;
    req.with_inflight(&mut keys);
    assert_eq!(keys.keys, vec![4, 5]);
    assert_eq!(req, before);
}
