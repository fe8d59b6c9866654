//! The block query handler: orchestrates resolver, storage read and reply
//! assembly for one request.
//!
//! The handler itself is synchronous and pure over its inputs.  The caller
//! owns the execution contexts: a request-handling layer submits the
//! persisted read (or the whole handler) to a blocking-work pool and feeds
//! the outcome through `bridge_outcome`, which turns a worker failure into
//! the internal catch-all instead of dropping it silently.

use crate::error::GetBlockError;
use crate::pending::{PendingBlock, PendingData};
use crate::reply::{Block, BlockStatus, BlockView, tx_views};
use crate::resolver::{
    resolve, spec_index_for_ref, BlockRefView, GetBlockInput, LookupKey, ResolutionPlan,
    ResolveError,
};
use crate::storage::{copy_tx_list, StorageView};
use vstd::prelude::*;

verus! {

/// Everything a query needs: the storage snapshot its read transaction
/// observes, and the optional pending overlay.
pub struct RpcContext {
    pub storage: StorageView,
    pub pending_data: Option<PendingData>,
}

impl RpcContext {
    pub open spec fn wf(&self) -> bool {
        &&& self.storage.wf()
        &&& match self.pending_data {
            Some(p) => p.wf(),
            None => true,
        }
    }

    /// A context over a store, with pending queries unsupported.
    pub fn new(storage: StorageView) -> (r: Self)
        ensures
            r.storage == storage,
            r.pending_data is None,
    {
        RpcContext { storage, pending_data: None }
    }

    /// The same context with a pending overlay configured.
    pub fn with_pending_data(self, pending: PendingData) -> (r: Self)
        ensures
            r.storage == self.storage,
            r.pending_data == Some(pending),
    {
        RpcContext { storage: self.storage, pending_data: Some(pending) }
    }
}

/// The reply owed for the persisted block at height `i` of a store
/// snapshot: its header fields, the finality status derived from the
/// snapshot's layer-1 fact, and its transaction hashes in block order.
pub open spec fn spec_persisted_reply(store: StorageView, i: int) -> BlockView {
    BlockView {
        block_hash: Some(store.blocks@[i].header.hash@),
        parent_hash: store.blocks@[i].header.parent_hash@,
        block_number: Some(store.blocks@[i].header.number),
        new_root: Some(store.blocks@[i].header.state_root@),
        timestamp: store.blocks@[i].header.timestamp,
        gas_price: store.blocks@[i].header.gas_price,
        status: if store.spec_is_l1_accepted(store.blocks@[i].header.number) {
            BlockStatus::AcceptedOnL1
        } else {
            BlockStatus::AcceptedOnL2
        },
        transactions: tx_views(store.blocks@[i].transactions@),
    }
}

/// The reply owed for a pending block: no hash, height or state root, and
/// always the pending status.
pub open spec fn spec_pending_reply(b: PendingBlock) -> BlockView {
    BlockView {
        block_hash: None,
        parent_hash: b.parent_hash@,
        block_number: None,
        new_root: None,
        timestamp: b.timestamp,
        gas_price: b.gas_price,
        status: BlockStatus::Pending,
        transactions: tx_views(b.transactions@),
    }
}

/// The persisted half of the query: everything the unit of work submitted
/// to the blocking pool does.  Resolves `Latest` to the tip inside the
/// same snapshot, fetches the header by key, derives finality from the
/// same snapshot's layer-1 fact, and assembles the reply.  A key that
/// denotes no height yields `BlockNotFound` — never the internal
/// catch-all.
pub fn read_block_with_tx_hashes(store: &StorageView, key: &LookupKey) -> (r: Result<
    Block,
    GetBlockError,
>)
    requires
        store.wf(),
    ensures
        match spec_index_for_ref(*store, key@) {
            Some(i) => r matches Ok(b) && b@ == spec_persisted_reply(*store, i) && b.wf(),
            None => r == Err::<Block, GetBlockError>(GetBlockError::BlockNotFound),
        },
{
    let idx: Option<usize> = match key {
        LookupKey::Latest => {
            if store.blocks.len() > 0 {
                Some(store.blocks.len() - 1)
            } else {
                None
            }
        },
        LookupKey::Number(n) => {
            if *n < store.blocks.len() as u64 {
                Some(*n as usize)
            } else {
                None
            }
        },
        LookupKey::Hash(h) => store.header_index_by_hash(h),
    };
    match idx {
        None => {
            proof {
                if key@ is Hash {
                    let hv = key@->Hash_0;
                    assert(!(exists|i: int|
                        0 <= i < store.blocks@.len() && (#[trigger] store.blocks@[i]).header.hash@
                            == hv));
                }
            }
            Err(GetBlockError::BlockNotFound)
        },
        Some(i) => {
            proof {
                if key@ is Hash {
                    let hv = key@->Hash_0;
                    assert(0 <= i < store.blocks@.len() && store.blocks@[i as int].header.hash@
                        == hv);
                    let j = choose|j: int|
                        0 <= j < store.blocks@.len() && (#[trigger] store.blocks@[j]).header.hash@
                            == hv;
                    if j != i {
                        assert(store.blocks@[j].header.hash@ != store.blocks@[i as int].header.hash@);
                    }
                }
            }
            let header = store.blocks[i].header.clone();
            let l1 = store.block_is_l1_accepted(header.number);
            let status = if l1 {
                BlockStatus::AcceptedOnL1
            } else {
                BlockStatus::AcceptedOnL2
            };
            let txs = copy_tx_list(&store.blocks[i].transactions);
            proof {
                assert(tx_views(txs@) =~= tx_views(store.blocks@[i as int].transactions@));
            }
            let b = Block::from_parts(header, status, txs);
            proof {
                assert(b@ =~= spec_persisted_reply(*store, i as int));
            }
            Ok(b)
        },
    }
}

/// The verb's fold of resolution-level failures into its declared error
/// subset: an empty overlay is an ordinary "not found", while a missing
/// overlay is a configuration fault reported through the internal
/// catch-all with its describing message.
pub fn resolution_error_to_get_block(e: ResolveError) -> (r: GetBlockError)
    ensures
        e is PendingNotSupported ==> (r matches GetBlockError::Internal(m) && m.message@
            == "Pending data not supported in this configuration"@),
        e is NotFound ==> r == GetBlockError::BlockNotFound,
{
    match e {
        ResolveError::PendingNotSupported => GetBlockError::internal(
            "Pending data not supported in this configuration",
        ),
        ResolveError::NotFound => GetBlockError::BlockNotFound,
    }
}

/// Answers one block query with transaction hashes: classifies the
/// identifier, short-circuits to the pending overlay where it applies,
/// otherwise reads the persisted snapshot; the reply is assembled into the
/// one normalized shape either way.
pub fn get_block_with_tx_hashes(context: RpcContext, input: GetBlockInput) -> (r: Result<
    Block,
    GetBlockError,
>)
    requires
        context.wf(),
    ensures
        input.block_id is Pending && context.pending_data is None ==> (r matches Err(
            GetBlockError::Internal(e),
        ) && e.message@ == "Pending data not supported in this configuration"@),
        context.pending_data matches Some(pd) && input.block_id is Pending && pd.block is None
            ==> r == Err::<Block, GetBlockError>(GetBlockError::BlockNotFound),
        context.pending_data matches Some(pd) ==> (pd.block matches Some(b) ==> (
        input.block_id is Pending ==> (r matches Ok(blk) && blk@ == spec_pending_reply(b)
            && blk.wf()))),
        !(input.block_id is Pending) ==> (match spec_index_for_ref(
            context.storage,
            input.block_id@,
        ) {
            Some(i) => r matches Ok(blk) && blk@ == spec_persisted_reply(context.storage, i)
                && blk.wf(),
            None => r == Err::<Block, GetBlockError>(GetBlockError::BlockNotFound),
        }),
{
    match resolve(input.block_id, context.pending_data) {
        Err(e) => Err(resolution_error_to_get_block(e)),
        Ok(ResolutionPlan::UsePendingBlock(b)) => Ok(Block::from_sequencer(b)),
        Ok(ResolutionPlan::ReadPersisted(key)) => read_block_with_tx_hashes(
            &context.storage,
            &key,
        ),
    }
}

/// The execution bridge's completion decision: a finished unit of work
/// hands its result through unchanged, and a worker failure (pool
/// shutdown, or a crash inside the unit of work) surfaces as the internal
/// catch-all rather than being dropped.
pub fn bridge_outcome<T>(outcome: Option<Result<T, GetBlockError>>) -> (r: Result<
    T,
    GetBlockError,
>)
    ensures
        outcome matches Some(x) ==> r == x,
        outcome is None ==> (r matches Err(GetBlockError::Internal(e)) && e.message@
            == "Database read panic or shutting down"@),
{
    match outcome {
        Some(x) => x,
        None => Err(GetBlockError::internal("Database read panic or shutting down")),
    }
}

/// Finality is inclusive at the boundary: a persisted height at or below
/// the highest layer-1-accepted height reports `AcceptedOnL1` — the
/// boundary height itself included — and any height above it, or any
/// height while no layer-1 acceptance has been observed, reports
/// `AcceptedOnL2`.
pub proof fn lemma_finality_boundary(store: StorageView, i: int)
    requires
        store.wf(),
        0 <= i < store.blocks@.len(),
    ensures
        match store.l1_accepted {
            Some(t) => spec_persisted_reply(store, i).status == (if store.blocks@[i].header.number
                <= t {
                BlockStatus::AcceptedOnL1
            } else {
                BlockStatus::AcceptedOnL2
            }),
            None => spec_persisted_reply(store, i).status == BlockStatus::AcceptedOnL2,
        },
{
}

/// Looking a block up by its height and by its content hash both land on
/// the same store entry, so the two queries are owed the same reply, byte
/// for byte.
pub proof fn lemma_hash_and_height_converge(store: StorageView, i: int)
    requires
        store.wf(),
        0 <= i < store.blocks@.len(),
    ensures
        spec_index_for_ref(store, BlockRefView::Number(store.blocks@[i].header.number)) == Some(i),
        spec_index_for_ref(store, BlockRefView::Hash(store.blocks@[i].header.hash@)) == Some(i),
{
    assert(store.blocks@[i].header.number == i);
    let h = store.blocks@[i].header.hash@;
    assert(0 <= i < store.blocks@.len() && (store.blocks@[i]).header.hash@ == h);
    assert(exists|j: int|
        0 <= j < store.blocks@.len() && (#[trigger] store.blocks@[j]).header.hash@ == h);
    let j = choose|j: int|
        0 <= j < store.blocks@.len() && (#[trigger] store.blocks@[j]).header.hash@ == h;
    if j != i {
        assert(store.blocks@[j].header.hash@ != store.blocks@[i].header.hash@);
        assert(false);
    }
}

} // verus!
