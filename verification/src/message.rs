//! The snapshot-manifest request/response pair and the serving-side
//! handler: load the manifest, reconstruct the blame vector and collect the
//! epoch receipts, substituting empty fields for whatever is unavailable —
//! a response is always produced.

use vstd::prelude::*;

use crate::blame;
use crate::blame::spec_blame_states;
use crate::receipts;
use crate::receipts::spec_block_receipts;
use crate::store::RecordStore;
use crate::types::ChunkKey;
use crate::types::ExecutionResult;
use crate::types::Hash256;
use crate::types::Manifest;

verus! {

/// A request for the snapshot manifest of `checkpoint`, carrying a trusted
/// anchor to seed blame-vector reconstruction, a cursor to resume a
/// multi-part manifest transfer, or — tolerated, though no constructor
/// builds one — both at once: the manifest is then resolved under the
/// cursor and the blame vector under the anchor, independently.
#[derive(Clone, Copy, PartialEq, Eq, Structural, Debug)]
pub struct SnapshotManifestRequest {
    pub request_id: u64,
    pub checkpoint: Hash256,
    pub start_chunk: Option<ChunkKey>,
    pub trusted_blame_block: Option<Hash256>,
}

/// The answer to a [`SnapshotManifestRequest`]: the manifest (possibly
/// empty), the three parallel blame vectors (possibly empty), and the
/// reward-window receipts (possibly empty).
pub struct SnapshotManifestResponse {
    pub request_id: u64,
    pub checkpoint: Hash256,
    pub manifest: Manifest,
    pub state_blame_vec: Vec<Hash256>,
    pub receipt_blame_vec: Vec<Hash256>,
    pub bloom_blame_vec: Vec<Hash256>,
    pub block_receipts: Vec<ExecutionResult>,
}

impl SnapshotManifestRequest {
    /// A fresh request seeded with a trusted anchor.
    pub fn new(checkpoint: Hash256, trusted_blame_block: Hash256) -> (req: SnapshotManifestRequest)
        ensures
            req.request_id == 0,
            req.checkpoint == checkpoint,
            req.start_chunk is None,
            req.trusted_blame_block == Some(trusted_blame_block),
    {
        SnapshotManifestRequest {
            request_id: 0,
            checkpoint,
            start_chunk: None,
            trusted_blame_block: Some(trusted_blame_block),
        }
    }

    /// A fresh request resuming a multi-part manifest transfer.
    pub fn new_with_start_chunk(checkpoint: Hash256, start_chunk: ChunkKey) -> (req:
        SnapshotManifestRequest)
        ensures
            req.request_id == 0,
            req.checkpoint == checkpoint,
            req.start_chunk == Some(start_chunk),
            req.trusted_blame_block is None,
    {
        SnapshotManifestRequest {
            request_id: 0,
            checkpoint,
            start_chunk: Some(start_chunk),
            trusted_blame_block: None,
        }
    }

    /// The blame vectors for this request, or `None` when no trusted anchor
    /// was supplied, the request is invalid, or a lookup misses.
    pub fn get_blame_states(&self, store: &RecordStore) -> (r: Option<
        (Vec<Hash256>, Vec<Hash256>, Vec<Hash256>),
    >)
        ensures
            match r {
                Some(t) => self.trusted_blame_block is Some && spec_blame_states(
                    *store,
                    self.checkpoint,
                    self.trusted_blame_block->0,
                ) == Some((t.0@, t.1@, t.2@)),
                None => match self.trusted_blame_block {
                    Some(anchor) => spec_blame_states(*store, self.checkpoint, anchor) is None,
                    None => true,
                },
            },
    {
        let anchor = match &self.trusted_blame_block {
            Some(anchor) => *anchor,
            None => {
                return None;
            },
        };
        blame::get_blame_states(store, &self.checkpoint, &anchor)
    }

    /// The reward-window receipts ending at this request's checkpoint, or
    /// `None` on any gap.
    pub fn get_block_receipts(&self, store: &RecordStore) -> (r: Option<Vec<ExecutionResult>>)
        ensures
            match r {
                Some(v) => spec_block_receipts(*store, self.checkpoint) == Some(v@),
                None => spec_block_receipts(*store, self.checkpoint) is None,
            },
    {
        receipts::get_block_receipts(store, &self.checkpoint)
    }

    /// Serve this request against one read snapshot of the store. The
    /// response always echoes the request id and the checkpoint; each field
    /// that cannot be produced is substituted by its empty form, never
    /// failing the response as a whole.
    pub fn handle(&self, store: &RecordStore) -> (resp: SnapshotManifestResponse)
        ensures
            resp.request_id == self.request_id,
            resp.checkpoint == self.checkpoint,
            resp.manifest@ == (match store.spec_manifest(self.checkpoint, self.start_chunk) {
                Some(m) => m,
                None => Seq::<ChunkKey>::empty(),
            }),
            (match self.trusted_blame_block {
                Some(anchor) => match spec_blame_states(*store, self.checkpoint, anchor) {
                    Some(t) => resp.state_blame_vec@ == t.0 && resp.receipt_blame_vec@ == t.1
                        && resp.bloom_blame_vec@ == t.2,
                    None => resp.state_blame_vec@.len() == 0 && resp.receipt_blame_vec@.len() == 0
                        && resp.bloom_blame_vec@.len() == 0,
                },
                None => resp.state_blame_vec@.len() == 0 && resp.receipt_blame_vec@.len() == 0
                    && resp.bloom_blame_vec@.len() == 0,
            }),
            resp.block_receipts@ == (match spec_block_receipts(*store, self.checkpoint) {
                Some(v) => v,
                None => Seq::<ExecutionResult>::empty(),
            }),
    {
        let manifest = match store.manifest_for(&self.checkpoint, &self.start_chunk) {
            Some(m) => m,
            None => Manifest::default(),
        };
        let (state_blame_vec, receipt_blame_vec, bloom_blame_vec) = match self.get_blame_states(
            store,
        ) {
            Some(t) => t,
            None => (Vec::new(), Vec::new(), Vec::new()),
        };
        let block_receipts = match self.get_block_receipts(store) {
            Some(v) => v,
            None => Vec::new(),
        };
        SnapshotManifestResponse {
            request_id: self.request_id,
            checkpoint: self.checkpoint,
            manifest,
            state_blame_vec,
            receipt_blame_vec,
            bloom_blame_vec,
            block_receipts,
        }
    }
}

} // verus!
