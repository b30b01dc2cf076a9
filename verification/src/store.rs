//! A snapshot of the read-only record store this protocol queries: block
//! headers, persisted execution commitments, per-epoch execution results,
//! the consensus ordering of executable blocks per height, and stored
//! manifests. Lookups resolve to the first matching entry.

use vstd::prelude::*;

use crate::types::BlockHeader;
use crate::types::ChunkKey;
use crate::types::ExecutionRecord;
use crate::types::ExecutionResult;
use crate::types::Hash256;
use crate::types::Manifest;

verus! {

/// The value bound to `k` in an association list, first match winning.
pub open spec fn assoc_lookup<K, V>(s: Seq<(K, V)>, k: K) -> Option<V>
    decreases s.len(),
{
    if s.len() == 0 {
        None
    } else if s[0].0 == k {
        Some(s[0].1)
    } else {
        assoc_lookup(s.drop_first(), k)
    }
}

/// Skipping past a non-matching entry leaves an association lookup unchanged.
proof fn lemma_assoc_lookup_skip<K, V>(s: Seq<(K, V)>, k: K, i: int)
    requires
        0 <= i < s.len(),
        s[i].0 != k,
    ensures
        assoc_lookup(s.skip(i), k) == assoc_lookup(s.skip(i + 1), k),
{
    assert(s.skip(i)[0] == s[i]);
    assert(s.skip(i).drop_first() =~= s.skip(i + 1));
}

/// One query snapshot of the stores behind the consensus graph.
pub struct RecordStore {
    /// Block header by block hash.
    pub headers: Vec<(Hash256, BlockHeader)>,
    /// Persisted execution commitments by block hash.
    pub records: Vec<(Hash256, ExecutionRecord)>,
    /// Execution result by (block hash, epoch hash).
    pub results: Vec<((Hash256, Hash256), ExecutionResult)>,
    /// Ordered executable blocks by epoch height.
    pub epoch_sets: Vec<(u64, Vec<Hash256>)>,
    /// Stored manifest by (checkpoint, optional continuation cursor).
    pub manifests: Vec<((Hash256, Option<ChunkKey>), Manifest)>,
}

impl RecordStore {
    pub open spec fn spec_header(&self, h: Hash256) -> Option<BlockHeader> {
        assoc_lookup(self.headers@, h)
    }

    pub open spec fn spec_record(&self, h: Hash256) -> Option<ExecutionRecord> {
        assoc_lookup(self.records@, h)
    }

    pub open spec fn spec_result(&self, block: Hash256, epoch: Hash256) -> Option<ExecutionResult> {
        assoc_lookup(self.results@, (block, epoch))
    }

    pub open spec fn spec_epoch_set(&self, height: u64) -> Option<Seq<Hash256>> {
        match assoc_lookup(self.epoch_sets@, height) {
            Some(v) => Some(v@),
            None => None,
        }
    }

    pub open spec fn spec_manifest(&self, checkpoint: Hash256, start_chunk: Option<ChunkKey>) -> Option<
        Seq<ChunkKey>,
    > {
        match assoc_lookup(self.manifests@, (checkpoint, start_chunk)) {
            Some(m) => Some(m@),
            None => None,
        }
    }

    /// An empty store: every lookup misses.
    pub fn new() -> (s: RecordStore)
        ensures
            s.headers@.len() == 0,
            s.records@.len() == 0,
            s.results@.len() == 0,
            s.epoch_sets@.len() == 0,
            s.manifests@.len() == 0,
    {
        RecordStore {
            headers: Vec::new(),
            records: Vec::new(),
            results: Vec::new(),
            epoch_sets: Vec::new(),
            manifests: Vec::new(),
        }
    }

    /// `header_by_hash(hash) -> optional {height, parent_hash, blame_count}`.
    pub fn header_by_hash(&self, h: &Hash256) -> (r: Option<BlockHeader>)
        ensures
            r == self.spec_header(*h),
    {
        let s = &self.headers;
        let mut i: usize = 0;
        proof {
            assert(s@.skip(0) =~= s@);
        }
        while i < s.len()
            invariant
                s@ == self.headers@,
                0 <= i <= s@.len(),
                assoc_lookup(s@, *h) == assoc_lookup(s@.skip(i as int), *h),
            decreases s@.len() - i,
        {
            if s[i].0 == *h {
                proof {
                    assert(s@.skip(i as int).len() > 0);
                    assert(s@.skip(i as int)[0] == s@[i as int]);
                    assert(assoc_lookup(s@.skip(i as int), *h) == Some(s@[i as int].1));
                }
                return Some(s[i].1);
            }
            proof {
                lemma_assoc_lookup_skip(s@, *h, i as int);
            }
            i = i + 1;
        }
        None
    }

    /// `execution_record_by_hash(hash) -> optional ExecutionRecord`.
    pub fn execution_record_by_hash(&self, h: &Hash256) -> (r: Option<ExecutionRecord>)
        ensures
            r == self.spec_record(*h),
    {
        let s = &self.records;
        let mut i: usize = 0;
        proof {
            assert(s@.skip(0) =~= s@);
        }
        while i < s.len()
            invariant
                s@ == self.records@,
                0 <= i <= s@.len(),
                assoc_lookup(s@, *h) == assoc_lookup(s@.skip(i as int), *h),
            decreases s@.len() - i,
        {
            if s[i].0 == *h {
                proof {
                    assert(s@.skip(i as int).len() > 0);
                    assert(s@.skip(i as int)[0] == s@[i as int]);
                    assert(assoc_lookup(s@.skip(i as int), *h) == Some(s@[i as int].1));
                }
                return Some(s[i].1);
            }
            proof {
                lemma_assoc_lookup_skip(s@, *h, i as int);
            }
            i = i + 1;
        }
        None
    }

    /// `execution_result_by_hash_in_epoch(block, epoch) -> optional ExecutionResult`.
    pub fn execution_result_by_hash_in_epoch(&self, block: &Hash256, epoch: &Hash256) -> (r: Option<
        ExecutionResult,
    >)
        ensures
            r == self.spec_result(*block, *epoch),
    {
        let s = &self.results;
        let mut i: usize = 0;
        proof {
            assert(s@.skip(0) =~= s@);
        }
        while i < s.len()
            invariant
                s@ == self.results@,
                0 <= i <= s@.len(),
                assoc_lookup(s@, (*block, *epoch)) == assoc_lookup(
                    s@.skip(i as int),
                    (*block, *epoch),
                ),
            decreases s@.len() - i,
        {
            if s[i].0.0 == *block && s[i].0.1 == *epoch {
                proof {
                    assert(s@.skip(i as int).len() > 0);
                    assert(s@.skip(i as int)[0] == s@[i as int]);
                    assert(s@[i as int].0 == (*block, *epoch));
                    assert(assoc_lookup(s@.skip(i as int), (*block, *epoch)) == Some(
                        s@[i as int].1,
                    ));
                }
                return Some(s[i].1);
            }
            proof {
                assert(s@[i as int].0 != (*block, *epoch));
                lemma_assoc_lookup_skip(s@, (*block, *epoch), i as int);
            }
            i = i + 1;
        }
        None
    }

    /// `executable_blocks_at_height(height) -> optional ordered block hashes`;
    /// a miss stands for the resolver's error outcome.
    pub fn executable_blocks_at_height(&self, height: u64) -> (r: Option<Vec<Hash256>>)
        ensures
            match r {
                Some(v) => self.spec_epoch_set(height) == Some(v@),
                None => self.spec_epoch_set(height) is None,
            },
    {
        let s = &self.epoch_sets;
        let mut i: usize = 0;
        proof {
            assert(s@.skip(0) =~= s@);
        }
        while i < s.len()
            invariant
                s@ == self.epoch_sets@,
                0 <= i <= s@.len(),
                assoc_lookup(s@, height) == assoc_lookup(s@.skip(i as int), height),
            decreases s@.len() - i,
        {
            if s[i].0 == height {
                proof {
                    assert(s@.skip(i as int).len() > 0);
                    assert(s@.skip(i as int)[0] == s@[i as int]);
                    assert(assoc_lookup(s@.skip(i as int), height) == Some(s@[i as int].1));
                }
                return Some(copy_items(&s[i].1));
            }
            proof {
                lemma_assoc_lookup_skip(s@, height, i as int);
            }
            i = i + 1;
        }
        None
    }

    /// `manifest_for(checkpoint, optional cursor) -> optional Manifest`.
    pub fn manifest_for(&self, checkpoint: &Hash256, start_chunk: &Option<ChunkKey>) -> (r: Option<
        Manifest,
    >)
        ensures
            match r {
                Some(m) => self.spec_manifest(*checkpoint, *start_chunk) == Some(m@),
                None => self.spec_manifest(*checkpoint, *start_chunk) is None,
            },
    {
        let s = &self.manifests;
        let mut i: usize = 0;
        proof {
            assert(s@.skip(0) =~= s@);
        }
        while i < s.len()
            invariant
                s@ == self.manifests@,
                0 <= i <= s@.len(),
                assoc_lookup(s@, (*checkpoint, *start_chunk)) == assoc_lookup(
                    s@.skip(i as int),
                    (*checkpoint, *start_chunk),
                ),
            decreases s@.len() - i,
        {
            if s[i].0.0 == *checkpoint && chunk_opt_eq(&s[i].0.1, start_chunk) {
                proof {
                    assert(s@.skip(i as int).len() > 0);
                    assert(s@.skip(i as int)[0] == s@[i as int]);
                    assert(s@[i as int].0 == (*checkpoint, *start_chunk));
                    assert(assoc_lookup(s@.skip(i as int), (*checkpoint, *start_chunk)) == Some(
                        s@[i as int].1,
                    ));
                }
                return Some(Manifest { chunks: copy_items(&s[i].1.chunks) });
            }
            proof {
                assert(s@[i as int].0 != (*checkpoint, *start_chunk));
                lemma_assoc_lookup_skip(s@, (*checkpoint, *start_chunk), i as int);
            }
            i = i + 1;
        }
        None
    }
}

/// Whether two optional chunk cursors are the same.
pub fn chunk_opt_eq(a: &Option<ChunkKey>, b: &Option<ChunkKey>) -> (r: bool)
    ensures
        r == (*a == *b),
{
    match (a, b) {
        (None, None) => true,
        (Some(x), Some(y)) => x.cursor == y.cursor,
        _ => false,
    }
}

/// A fresh vector holding the same items.
pub fn copy_items<T: Copy>(v: &Vec<T>) -> (r: Vec<T>)
    ensures
        r@ == v@,
{
    let mut r: Vec<T> = Vec::new();
    let mut i: usize = 0;
    while i < v.len()
        invariant
            0 <= i <= v@.len(),
            r@ == v@.take(i as int),
        decreases v@.len() - i,
    {
        r.push(v[i]);
        proof {
            assert(v@.take(i as int).push(v@[i as int]) =~= v@.take(i as int + 1));
        }
        i = i + 1;
    }
    proof {
        assert(v@.take(v@.len() as int) =~= v@);
    }
    r
}

} // verus!
