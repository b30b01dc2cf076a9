//! Plain data carried by the snapshot-sync protocol: hashes, headers,
//! execution commitments and the chunked state manifest.

use vstd::prelude::*;

verus! {

/// Number of reward epochs whose receipts are collected alongside a
/// snapshot manifest, and the slack added to the blame-vector length for a
/// non-genesis checkpoint.
pub const REWARD_EPOCH_COUNT: u64 = 12;

/// A 256-bit block hash or digest, held as four 64-bit limbs.
#[derive(Clone, Copy, PartialEq, Eq, Structural, Debug, Hash)]
pub struct Hash256 {
    pub w0: u64,
    pub w1: u64,
    pub w2: u64,
    pub w3: u64,
}

/// An opaque cursor into a multi-part manifest transfer.
#[derive(Clone, Copy, PartialEq, Eq, Structural, Debug, Hash)]
pub struct ChunkKey {
    pub cursor: u64,
}

/// The part of a block header this protocol reads: its height, its parent
/// link, and how many immediately preceding blocks its stored execution
/// commitment also covers.
#[derive(Clone, Copy, PartialEq, Eq, Structural, Debug)]
pub struct BlockHeader {
    pub height: u64,
    pub parent_hash: Hash256,
    pub blame_count: u32,
}

/// A block's persisted execution commitments: deferred state root, receipt
/// root and logs-bloom digest.
#[derive(Clone, Copy, PartialEq, Eq, Structural, Debug)]
pub struct ExecutionRecord {
    pub state_commitment: Hash256,
    pub receipt_commitment: Hash256,
    pub bloom_commitment: Hash256,
}

/// The execution result of one block within one epoch, as served to a
/// syncing peer.
#[derive(Clone, Copy, PartialEq, Eq, Structural, Debug)]
pub struct ExecutionResult {
    pub block_hash: Hash256,
    pub receipts_digest: Hash256,
}

/// The (possibly partial) chunk layout of a snapshot's state.
pub struct Manifest {
    pub chunks: Vec<ChunkKey>,
}

impl View for Manifest {
    type V = Seq<ChunkKey>;

    open spec fn view(&self) -> Seq<ChunkKey> {
        self.chunks@
    }
}

impl Default for Manifest {
    /// The empty manifest, substituted whenever no stored manifest is
    /// available for a request.
    fn default() -> (m: Manifest)
        ensures
            m@ == Seq::<ChunkKey>::empty(),
    {
        Manifest { chunks: Vec::new() }
    }
}

} // verus!
