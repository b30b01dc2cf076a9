//! Blame-vector reconstruction: walking backward from a trusted anchor
//! block, collect a parent-linked run of execution commitments exactly long
//! enough that the anchor's own blame span is covered.

use vstd::prelude::*;

use crate::store::RecordStore;
use crate::types::BlockHeader;
use crate::types::ExecutionRecord;
use crate::types::Hash256;
use crate::types::REWARD_EPOCH_COUNT;

verus! {

/// The required blame-vector length for a checkpoint at `cp_height` and a
/// trusted anchor at `anchor_height` claiming `anchor_blame` blamed
/// predecessors: the height difference plus one for a genesis checkpoint,
/// plus the reward-window slack otherwise, and never less than the span the
/// anchor's own commitment covers.
pub open spec fn blame_target_len(cp_height: u64, anchor_height: u64, anchor_blame: u32) -> int {
    let base: int = if cp_height == 0 {
        anchor_height - cp_height + 1
    } else {
        anchor_height - cp_height + REWARD_EPOCH_COUNT
    };
    if base < anchor_blame + 1 {
        anchor_blame + 1
    } else {
        base
    }
}

/// The commitment triplets of the `n` parent-linked blocks starting at
/// `hash` and walking toward genesis, newest first; `None` as soon as a
/// commitment is missing, or a parent link is needed but the header is
/// missing.
pub open spec fn blame_walk(store: RecordStore, hash: Hash256, n: nat) -> Option<
    (Seq<Hash256>, Seq<Hash256>, Seq<Hash256>),
>
    decreases n,
{
    if n == 0 {
        Some((Seq::empty(), Seq::empty(), Seq::empty()))
    } else {
        match store.spec_record(hash) {
            None => None,
            Some(rec) => {
                let head = (
                    seq![rec.state_commitment],
                    seq![rec.receipt_commitment],
                    seq![rec.bloom_commitment],
                );
                if n == 1 {
                    Some(head)
                } else {
                    match store.spec_header(hash) {
                        None => None,
                        Some(hdr) => match blame_walk(store, hdr.parent_hash, (n - 1) as nat) {
                            None => None,
                            Some(rest) => Some(
                                (head.0 + rest.0, head.1 + rest.1, head.2 + rest.2),
                            ),
                        },
                    }
                }
            },
        }
    }
}

/// What blame-vector reconstruction returns for a request naming
/// `checkpoint` and `trusted_anchor`: `None` when either header is missing,
/// when the anchor sits below the checkpoint, or when the target length does
/// not fit a machine word; otherwise the full walk of the target length.
pub open spec fn spec_blame_states(
    store: RecordStore,
    checkpoint: Hash256,
    trusted_anchor: Hash256,
) -> Option<(Seq<Hash256>, Seq<Hash256>, Seq<Hash256>)> {
    match (store.spec_header(trusted_anchor), store.spec_header(checkpoint)) {
        (Some(anchor), Some(cp)) => {
            if anchor.height < cp.height {
                None
            } else {
                let n = blame_target_len(cp.height, anchor.height, anchor.blame_count);
                if n > u64::MAX {
                    None
                } else {
                    blame_walk(store, trusted_anchor, n as nat)
                }
            }
        },
        _ => None,
    }
}

/// A successful blame walk has exactly the requested length in all three
/// sequences: partial vectors are never produced.
pub proof fn lemma_blame_walk_len(store: RecordStore, hash: Hash256, n: nat)
    ensures
        match blame_walk(store, hash, n) {
            Some(t) => t.0.len() == n && t.1.len() == n && t.2.len() == n,
            None => true,
        },
    decreases n,
{
    if n > 1 {
        match (store.spec_record(hash), store.spec_header(hash)) {
            (Some(rec), Some(hdr)) => {
                lemma_blame_walk_len(store, hdr.parent_hash, (n - 1) as nat);
            },
            _ => {},
        }
    }
}

/// The hash of the `i`-th ancestor of `hash` along parent links, when every
/// header on the way is present.
pub open spec fn chain_ancestor(store: RecordStore, hash: Hash256, i: nat) -> Option<Hash256>
    decreases i,
{
    if i == 0 {
        Some(hash)
    } else {
        match chain_ancestor(store, hash, (i - 1) as nat) {
            None => None,
            Some(prev) => match store.spec_header(prev) {
                None => None,
                Some(hdr) => Some(hdr.parent_hash),
            },
        }
    }
}

/// Walking `i` ancestors from a block is walking `i - 1` from its parent.
proof fn lemma_chain_ancestor_shift(store: RecordStore, hash: Hash256, hdr: BlockHeader, i: nat)
    requires
        i >= 1,
        store.spec_header(hash) == Some(hdr),
    ensures
        chain_ancestor(store, hash, i) == chain_ancestor(store, hdr.parent_hash, (i - 1) as nat),
    decreases i,
{
    if i == 1 {
        assert(chain_ancestor(store, hash, 0) == Some(hash));
    } else {
        lemma_chain_ancestor_shift(store, hash, hdr, (i - 1) as nat);
        assert(chain_ancestor(store, hash, (i - 1) as nat) == chain_ancestor(
            store,
            hdr.parent_hash,
            (i - 2) as nat,
        ));
    }
}

/// A successful blame walk is contiguous and parent-linked: its `i`-th
/// entry, in all three sequences, is the stored commitment triplet of the
/// `i`-th ancestor of the starting block.
pub proof fn lemma_blame_walk_entries(store: RecordStore, hash: Hash256, n: nat, i: nat)
    requires
        blame_walk(store, hash, n) is Some,
        i < n,
    ensures
        ({
            let t = blame_walk(store, hash, n)->0;
            &&& chain_ancestor(store, hash, i) is Some
            &&& store.spec_record(chain_ancestor(store, hash, i)->0) is Some
            &&& t.0[i as int] == store.spec_record(
                chain_ancestor(store, hash, i)->0,
            )->0.state_commitment
            &&& t.1[i as int] == store.spec_record(
                chain_ancestor(store, hash, i)->0,
            )->0.receipt_commitment
            &&& t.2[i as int] == store.spec_record(
                chain_ancestor(store, hash, i)->0,
            )->0.bloom_commitment
        }),
    decreases n,
{
    lemma_blame_walk_len(store, hash, n);
    if i >= 1 {
        let hdr = store.spec_header(hash)->0;
        lemma_blame_walk_len(store, hdr.parent_hash, (n - 1) as nat);
        lemma_blame_walk_entries(store, hdr.parent_hash, (n - 1) as nat, (i - 1) as nat);
        lemma_chain_ancestor_shift(store, hash, hdr, i);
    }
}

/// Whenever blame-vector reconstruction succeeds, each of the three vectors
/// has exactly the target length: the height difference plus one for a
/// genesis checkpoint, plus the reward-window slack otherwise, raised to the
/// anchor's blame span where that is larger. Never any other length.
pub proof fn lemma_blame_vector_length(
    store: RecordStore,
    checkpoint: Hash256,
    trusted_anchor: Hash256,
)
    ensures
        match spec_blame_states(store, checkpoint, trusted_anchor) {
            Some(t) => {
                &&& store.spec_header(trusted_anchor) is Some
                &&& store.spec_header(checkpoint) is Some
                &&& t.0.len() == blame_target_len(
                    store.spec_header(checkpoint)->0.height,
                    store.spec_header(trusted_anchor)->0.height,
                    store.spec_header(trusted_anchor)->0.blame_count,
                )
                &&& t.1.len() == t.0.len()
                &&& t.2.len() == t.0.len()
            },
            None => true,
        },
{
    match (store.spec_header(trusted_anchor), store.spec_header(checkpoint)) {
        (Some(anchor), Some(cp)) => {
            if anchor.height >= cp.height {
                let n = blame_target_len(cp.height, anchor.height, anchor.blame_count);
                if n <= u64::MAX {
                    lemma_blame_walk_len(store, trusted_anchor, n as nat);
                }
            }
        },
        _ => {},
    }
}

/// A request whose trusted anchor sits below its checkpoint is invalid:
/// reconstruction refuses it outright.
pub proof fn lemma_low_anchor_rejected(
    store: RecordStore,
    checkpoint: Hash256,
    trusted_anchor: Hash256,
)
    requires
        store.spec_header(trusted_anchor) is Some,
        store.spec_header(checkpoint) is Some,
        store.spec_header(trusted_anchor)->0.height < store.spec_header(checkpoint)->0.height,
    ensures
        spec_blame_states(store, checkpoint, trusted_anchor) is None,
{
}

/// Reconstruct the blame vector for `checkpoint` seeded at `trusted_anchor`:
/// three parallel sequences of deferred state-root, receipt-root and
/// logs-bloom commitments, newest first, of exactly the target length, or
/// `None` when the request is invalid or any lookup misses.
pub fn get_blame_states(store: &RecordStore, checkpoint: &Hash256, trusted_anchor: &Hash256) -> (r:
    Option<(Vec<Hash256>, Vec<Hash256>, Vec<Hash256>)>)
    ensures
        match r {
            Some(t) => spec_blame_states(*store, *checkpoint, *trusted_anchor) == Some(
                (t.0@, t.1@, t.2@),
            ),
            None => spec_blame_states(*store, *checkpoint, *trusted_anchor) is None,
        },
{
    let anchor = match store.header_by_hash(trusted_anchor) {
        Some(h) => h,
        None => {
            return None;
        },
    };
    let cp = match store.header_by_hash(checkpoint) {
        Some(h) => h,
        None => {
            return None;
        },
    };
    if anchor.height < cp.height {
        return None;
    }
    let d = anchor.height - cp.height;
    let base: u64;
    if cp.height == 0 {
        if d == u64::MAX {
            return None;
        }
        base = d + 1;
    } else {
        if d > u64::MAX - REWARD_EPOCH_COUNT {
            return None;
        }
        base = d + REWARD_EPOCH_COUNT;
    }
    let covered = anchor.blame_count as u64 + 1;
    let n: u64 = if base < covered {
        covered
    } else {
        base
    };
    proof {
        assert(n == blame_target_len(cp.height, anchor.height, anchor.blame_count));
    }

    let mut state_blame_vec: Vec<Hash256> = Vec::new();
    let mut receipt_blame_vec: Vec<Hash256> = Vec::new();
    let mut bloom_blame_vec: Vec<Hash256> = Vec::new();
    let mut block_hash: Hash256 = *trusted_anchor;
    let mut i: u64 = 0;
    proof {
        match blame_walk(*store, *trusted_anchor, n as nat) {
            Some(t) => {
                assert(Seq::<Hash256>::empty() + t.0 =~= t.0);
                assert(Seq::<Hash256>::empty() + t.1 =~= t.1);
                assert(Seq::<Hash256>::empty() + t.2 =~= t.2);
            },
            None => {},
        }
    }
    while i < n
        invariant
            0 <= i <= n,
            n >= 1,
            state_blame_vec@.len() == i,
            receipt_blame_vec@.len() == i,
            bloom_blame_vec@.len() == i,
            blame_walk(*store, *trusted_anchor, n as nat) == (match blame_walk(
                *store,
                block_hash,
                (n - i) as nat,
            ) {
                Some(rest) => Some(
                    (
                        state_blame_vec@ + rest.0,
                        receipt_blame_vec@ + rest.1,
                        bloom_blame_vec@ + rest.2,
                    ),
                ),
                None => None::<(Seq<Hash256>, Seq<Hash256>, Seq<Hash256>)>,
            }),
            spec_blame_states(*store, *checkpoint, *trusted_anchor) == blame_walk(
                *store,
                *trusted_anchor,
                n as nat,
            ),
        decreases n - i,
    {
        let rec = match store.execution_record_by_hash(&block_hash) {
            Some(rec) => rec,
            None => {
                return None;
            },
        };
        state_blame_vec.push(rec.state_commitment);
        receipt_blame_vec.push(rec.receipt_commitment);
        bloom_blame_vec.push(rec.bloom_commitment);
        i = i + 1;
        if i < n {
            let hdr = match store.header_by_hash(&block_hash) {
                Some(hdr) => hdr,
                None => {
                    return None;
                },
            };
            proof {
                lemma_walk_unfold(
                    *store,
                    block_hash,
                    (n - i + 1) as nat,
                    state_blame_vec@,
                    receipt_blame_vec@,
                    bloom_blame_vec@,
                    rec,
                    hdr,
                );
            }
            block_hash = hdr.parent_hash;
        } else {
            proof {
                let head = blame_walk(*store, block_hash, 1nat);
                assert(head == Some(
                    (
                        seq![rec.state_commitment],
                        seq![rec.receipt_commitment],
                        seq![rec.bloom_commitment],
                    ),
                ));
                assert(state_blame_vec@.drop_last() + head.unwrap().0 =~= state_blame_vec@);
                assert(receipt_blame_vec@.drop_last() + head.unwrap().1 =~= receipt_blame_vec@);
                assert(bloom_blame_vec@.drop_last() + head.unwrap().2 =~= bloom_blame_vec@);
                assert(state_blame_vec@ + Seq::<Hash256>::empty() =~= state_blame_vec@);
                assert(receipt_blame_vec@ + Seq::<Hash256>::empty() =~= receipt_blame_vec@);
                assert(bloom_blame_vec@ + Seq::<Hash256>::empty() =~= bloom_blame_vec@);
            }
        }
    }
    proof {
        assert(state_blame_vec@ + Seq::<Hash256>::empty() =~= state_blame_vec@);
        assert(receipt_blame_vec@ + Seq::<Hash256>::empty() =~= receipt_blame_vec@);
        assert(bloom_blame_vec@ + Seq::<Hash256>::empty() =~= bloom_blame_vec@);
    }
    Some((state_blame_vec, receipt_blame_vec, bloom_blame_vec))
}

/// Unrolls one step of `blame_walk` against the vectors built so far:
/// appending this block's commitments and moving to its parent keeps the
/// running decomposition of the full walk intact.
proof fn lemma_walk_unfold(
    store: RecordStore,
    hash: Hash256,
    m: nat,
    states: Seq<Hash256>,
    receipts: Seq<Hash256>,
    blooms: Seq<Hash256>,
    rec: ExecutionRecord,
    hdr: BlockHeader,
)
    requires
        m >= 2,
        states.len() >= 1,
        receipts.len() >= 1,
        blooms.len() >= 1,
        store.spec_record(hash) == Some(rec),
        store.spec_header(hash) == Some(hdr),
        states.last() == rec.state_commitment,
        receipts.last() == rec.receipt_commitment,
        blooms.last() == rec.bloom_commitment,
    ensures
        (match blame_walk(store, hash, m) {
            Some(rest) => Some(
                (
                    states.drop_last() + rest.0,
                    receipts.drop_last() + rest.1,
                    blooms.drop_last() + rest.2,
                ),
            ),
            None => None::<(Seq<Hash256>, Seq<Hash256>, Seq<Hash256>)>,
        }) == (match blame_walk(store, hdr.parent_hash, (m - 1) as nat) {
            Some(rest) => Some((states + rest.0, receipts + rest.1, blooms + rest.2)),
            None => None::<(Seq<Hash256>, Seq<Hash256>, Seq<Hash256>)>,
        }),
{
    match blame_walk(store, hdr.parent_hash, (m - 1) as nat) {
        None => {},
        Some(rest) => {
            assert(states.drop_last() + (seq![rec.state_commitment] + rest.0) =~= states + rest.0);
            assert(receipts.drop_last() + (seq![rec.receipt_commitment] + rest.1) =~= receipts
                + rest.1);
            assert(blooms.drop_last() + (seq![rec.bloom_commitment] + rest.2) =~= blooms + rest.2);
        },
    }
}

} // verus!
