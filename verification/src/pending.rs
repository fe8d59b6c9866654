//! The pending overlay: an externally-owned snapshot of the not-yet-
//! finalized block, read (never written) by the resolver.
//!
//! Zero or one overlay exists per node; absence means the configuration
//! does not support pending queries.  The producer replaces the snapshot
//! atomically, so a query sees either a whole old or a whole new snapshot;
//! within the core a snapshot is a plain immutable value.

use crate::digest::{BlockHash, TransactionHash};
use vstd::prelude::*;

verus! {

/// The not-yet-finalized block carried by the overlay, with its own
/// header-like fields and its ordered transactions.  It has no hash, no
/// height and no state root yet.
#[derive(PartialEq, Eq, Debug)]
pub struct PendingBlock {
    pub parent_hash: BlockHash,
    pub timestamp: u64,
    pub gas_price: u64,
    pub transactions: Vec<TransactionHash>,
}

impl PendingBlock {
    pub open spec fn wf(&self) -> bool {
        &&& self.parent_hash.wf()
        &&& forall|i: int| 0 <= i < self.transactions@.len() ==> (
            #[trigger] self.transactions@[i]).wf()
    }
}

/// A point-in-time snapshot of the pending overlay.  `block` is `None`
/// while the producer has not yet published a pending block.
#[derive(PartialEq, Eq, Debug)]
pub struct PendingData {
    pub block: Option<PendingBlock>,
}

impl PendingData {
    pub open spec fn wf(&self) -> bool {
        match self.block {
            Some(b) => b.wf(),
            None => true,
        }
    }

    /// An overlay that is configured but holds no pending block yet.
    pub fn empty() -> (r: Self)
        ensures
            r.block is None,
            r.wf(),
    {
        PendingData { block: None }
    }
}

impl Default for PendingData {
    /// The default overlay holds no pending block.
    fn default() -> (r: Self)
        ensures
            r.block is None,
            r.wf(),
    {
        PendingData { block: None }
    }
}

} // verus!
