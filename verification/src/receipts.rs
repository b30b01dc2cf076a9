//! Epoch-receipt collection: walking backward from the checkpoint across a
//! fixed reward window, gather the execution results of every executable
//! block of every epoch, all-or-nothing.

use vstd::prelude::*;

use crate::store::RecordStore;
use crate::types::BlockHeader;
use crate::types::ExecutionResult;
use crate::types::Hash256;
use crate::types::REWARD_EPOCH_COUNT;

verus! {

/// The execution results of `blocks` within epoch `epoch`, in block order;
/// `None` as soon as one is missing.
pub open spec fn spec_epoch_receipts(store: RecordStore, blocks: Seq<Hash256>, epoch: Hash256) -> Option<
    Seq<ExecutionResult>,
>
    decreases blocks.len(),
{
    if blocks.len() == 0 {
        Some(Seq::empty())
    } else {
        match store.spec_result(blocks[0], epoch) {
            None => None,
            Some(res) => match spec_epoch_receipts(store, blocks.drop_first(), epoch) {
                None => None,
                Some(rest) => Some(seq![res] + rest),
            },
        }
    }
}

/// The receipts of up to `iters` epochs walking parent links from
/// `epoch_hash`, newest epoch first, stopping early after a genesis epoch;
/// `None` as soon as a header, an epoch ordering or a result is missing.
pub open spec fn spec_collect_receipts(store: RecordStore, epoch_hash: Hash256, iters: nat) -> Option<
    Seq<ExecutionResult>,
>
    decreases iters,
{
    if iters == 0 {
        Some(Seq::empty())
    } else {
        match store.spec_header(epoch_hash) {
            None => None,
            Some(hdr) => match store.spec_epoch_set(hdr.height) {
                None => None,
                Some(blocks) => match spec_epoch_receipts(store, blocks, epoch_hash) {
                    None => None,
                    Some(rs) => if hdr.height == 0 {
                        Some(rs)
                    } else {
                        match spec_collect_receipts(store, hdr.parent_hash, (iters - 1) as nat) {
                            None => None,
                            Some(rest) => Some(rs + rest),
                        }
                    },
                },
            },
        }
    }
}

/// What receipt collection returns for a checkpoint: the reward window of
/// epochs ending there, or `None` on any gap.
pub open spec fn spec_block_receipts(store: RecordStore, checkpoint: Hash256) -> Option<
    Seq<ExecutionResult>,
> {
    spec_collect_receipts(store, checkpoint, REWARD_EPOCH_COUNT as nat)
}

/// Once the walk stands on a genesis epoch, any remaining iteration budget
/// changes nothing: collection stops there.
pub proof fn lemma_genesis_stops_collection(store: RecordStore, epoch_hash: Hash256, iters: nat)
    requires
        iters >= 1,
        store.spec_header(epoch_hash) is Some,
        store.spec_header(epoch_hash)->Some_0.height == 0,
    ensures
        spec_collect_receipts(store, epoch_hash, iters) == spec_collect_receipts(
            store,
            epoch_hash,
            1,
        ),
{
}

/// The execution results of every block of one epoch, in order, or `None`
/// if any is missing.
pub fn receipts_in_epoch(store: &RecordStore, blocks: &Vec<Hash256>, epoch: &Hash256) -> (r: Option<
    Vec<ExecutionResult>,
>)
    ensures
        match r {
            Some(v) => spec_epoch_receipts(*store, blocks@, *epoch) == Some(v@),
            None => spec_epoch_receipts(*store, blocks@, *epoch) is None,
        },
{
    let mut out: Vec<ExecutionResult> = Vec::new();
    let mut j: usize = 0;
    proof {
        assert(blocks@.skip(0) =~= blocks@);
        match spec_epoch_receipts(*store, blocks@, *epoch) {
            Some(t) => {
                assert(Seq::<ExecutionResult>::empty() + t =~= t);
            },
            None => {},
        }
    }
    while j < blocks.len()
        invariant
            0 <= j <= blocks@.len(),
            out@.len() == j,
            spec_epoch_receipts(*store, blocks@, *epoch) == (match spec_epoch_receipts(
                *store,
                blocks@.skip(j as int),
                *epoch,
            ) {
                Some(rest) => Some(out@ + rest),
                None => None::<Seq<ExecutionResult>>,
            }),
        decreases blocks@.len() - j,
    {
        proof {
            assert(blocks@.skip(j as int)[0] == blocks@[j as int]);
        }
        let res = match store.execution_result_by_hash_in_epoch(&blocks[j], epoch) {
            Some(res) => res,
            None => {
                return None;
            },
        };
        out.push(res);
        proof {
            lemma_epoch_receipts_step(*store, blocks@, *epoch, j as int, out@, res);
        }
        j = j + 1;
    }
    proof {
        assert(blocks@.skip(blocks@.len() as int).len() == 0);
        assert(out@ + Seq::<ExecutionResult>::empty() =~= out@);
    }
    Some(out)
}

/// Unrolls one step of `spec_epoch_receipts` against the results gathered
/// so far.
proof fn lemma_epoch_receipts_step(
    store: RecordStore,
    blocks: Seq<Hash256>,
    epoch: Hash256,
    j: int,
    out: Seq<ExecutionResult>,
    res: ExecutionResult,
)
    requires
        0 <= j < blocks.len(),
        store.spec_result(blocks[j], epoch) == Some(res),
        out.len() >= 1,
        out.last() == res,
    ensures
        (match spec_epoch_receipts(store, blocks.skip(j), epoch) {
            Some(rest) => Some(out.drop_last() + rest),
            None => None::<Seq<ExecutionResult>>,
        }) == (match spec_epoch_receipts(store, blocks.skip(j + 1), epoch) {
            Some(rest) => Some(out + rest),
            None => None::<Seq<ExecutionResult>>,
        }),
{
    assert(blocks.skip(j)[0] == blocks[j]);
    assert(blocks.skip(j).drop_first() =~= blocks.skip(j + 1));
    match spec_epoch_receipts(store, blocks.skip(j + 1), epoch) {
        None => {},
        Some(rest) => {
            assert(out.drop_last() + (seq![res] + rest) =~= out + rest);
        },
    }
}

/// Unrolls one non-genesis step of `spec_collect_receipts` against the
/// receipts gathered so far.
proof fn lemma_collect_step(
    store: RecordStore,
    cur: Hash256,
    m: nat,
    out: Seq<ExecutionResult>,
    rs: Seq<ExecutionResult>,
    hdr: BlockHeader,
    blocks: Seq<Hash256>,
)
    requires
        m >= 1,
        store.spec_header(cur) == Some(hdr),
        store.spec_epoch_set(hdr.height) == Some(blocks),
        spec_epoch_receipts(store, blocks, cur) == Some(rs),
        hdr.height != 0,
    ensures
        (match spec_collect_receipts(store, cur, m) {
            Some(rest) => Some(out + rest),
            None => None::<Seq<ExecutionResult>>,
        }) == (match spec_collect_receipts(store, hdr.parent_hash, (m - 1) as nat) {
            Some(rest) => Some((out + rs) + rest),
            None => None::<Seq<ExecutionResult>>,
        }),
{
    match spec_collect_receipts(store, hdr.parent_hash, (m - 1) as nat) {
        None => {},
        Some(rest) => {
            assert(out + (rs + rest) =~= (out + rs) + rest);
        },
    }
}

/// Collect the receipts of the reward window of epochs ending at
/// `checkpoint`, or `None` on any gap.
pub fn get_block_receipts(store: &RecordStore, checkpoint: &Hash256) -> (r: Option<
    Vec<ExecutionResult>,
>)
    ensures
        match r {
            Some(v) => spec_block_receipts(*store, *checkpoint) == Some(v@),
            None => spec_block_receipts(*store, *checkpoint) is None,
        },
{
    let mut epoch_receipts: Vec<ExecutionResult> = Vec::new();
    let mut epoch_hash: Hash256 = *checkpoint;
    let mut k: u64 = 0;
    proof {
        match spec_collect_receipts(*store, *checkpoint, REWARD_EPOCH_COUNT as nat) {
            Some(t) => {
                assert(Seq::<ExecutionResult>::empty() + t =~= t);
            },
            None => {},
        }
    }
    while k < REWARD_EPOCH_COUNT
        invariant_except_break
            spec_block_receipts(*store, *checkpoint) == (match spec_collect_receipts(
                *store,
                epoch_hash,
                (REWARD_EPOCH_COUNT - k) as nat,
            ) {
                Some(rest) => Some(epoch_receipts@ + rest),
                None => None::<Seq<ExecutionResult>>,
            }),
            k == REWARD_EPOCH_COUNT ==> spec_block_receipts(*store, *checkpoint) == Some(
                epoch_receipts@,
            ),
        invariant
            0 <= k <= REWARD_EPOCH_COUNT,
        ensures
            spec_block_receipts(*store, *checkpoint) == Some(epoch_receipts@),
        decreases REWARD_EPOCH_COUNT - k,
    {
        let hdr = match store.header_by_hash(&epoch_hash) {
            Some(hdr) => hdr,
            None => {
                return None;
            },
        };
        let blocks = match store.executable_blocks_at_height(hdr.height) {
            Some(blocks) => blocks,
            None => {
                return None;
            },
        };
        let mut rs = match receipts_in_epoch(store, &blocks, &epoch_hash) {
            Some(rs) => rs,
            None => {
                return None;
            },
        };
        let ghost old_out = epoch_receipts@;
        let ghost rs_view = rs@;
        epoch_receipts.append(&mut rs);
        if hdr.height == 0 {
            proof {
                assert(spec_collect_receipts(
                    *store,
                    epoch_hash,
                    (REWARD_EPOCH_COUNT - k) as nat,
                ) == Some(rs_view));
            }
            break ;
        }
        proof {
            lemma_collect_step(
                *store,
                epoch_hash,
                (REWARD_EPOCH_COUNT - k) as nat,
                old_out,
                rs_view,
                hdr,
                blocks@,
            );
            assert(epoch_receipts@ + Seq::<ExecutionResult>::empty() =~= epoch_receipts@);
        }
        epoch_hash = hdr.parent_hash;
        k = k + 1;
    }
    Some(epoch_receipts)
}

} // verus!
