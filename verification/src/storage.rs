//! The persisted block store, as one read transaction sees it.
//!
//! A `StorageView` is the consistent snapshot a single storage read
//! transaction observes: headers, transaction lists and the layer-1
//! finality fact all come from the same snapshot, so a query can never see
//! a header from one moment and a finality fact from another.
//!
//! Invariants: heights are contiguous from zero and each height holds
//! exactly one header; a content hash determines its height uniquely; each
//! header's parent hash is the hash of the header one height below.

use crate::digest::{BlockHash, TransactionHash};
use vstd::prelude::*;

verus! {

/// A persisted block header.
pub struct BlockHeader {
    pub number: u64,
    pub hash: BlockHash,
    pub parent_hash: BlockHash,
    pub state_root: BlockHash,
    pub timestamp: u64,
    pub gas_price: u64,
}

impl BlockHeader {
    pub open spec fn wf(&self) -> bool {
        &&& self.hash.wf()
        &&& self.parent_hash.wf()
        &&& self.state_root.wf()
    }
}

impl Clone for BlockHeader {
    fn clone(&self) -> (r: Self)
        ensures
            r.number == self.number,
            r.hash@ == self.hash@,
            r.parent_hash@ == self.parent_hash@,
            r.state_root@ == self.state_root@,
            r.timestamp == self.timestamp,
            r.gas_price == self.gas_price,
    {
        BlockHeader {
            number: self.number,
            hash: self.hash.clone(),
            parent_hash: self.parent_hash.clone(),
            state_root: self.state_root.clone(),
            timestamp: self.timestamp,
            gas_price: self.gas_price,
        }
    }
}

/// Everything the store persists for one block: its header and its
/// transactions in block order.
pub struct StoredBlock {
    pub header: BlockHeader,
    pub transactions: Vec<TransactionHash>,
}

/// All transaction hashes in a list are well-formed digests.
pub open spec fn tx_list_wf(s: Seq<TransactionHash>) -> bool {
    forall|i: int| 0 <= i < s.len() ==> (#[trigger] s[i]).wf()
}

/// The consistent snapshot one read transaction observes: the chain's
/// blocks by height, and the highest height already accepted on layer 1
/// (`None` while no height has been observed as settled there).
pub struct StorageView {
    pub blocks: Vec<StoredBlock>,
    pub l1_accepted: Option<u64>,
}

impl StorageView {
    /// The store's invariant: contiguous heights, well-formed and unique
    /// hashes, and parent links down the chain.
    pub open spec fn wf(&self) -> bool {
        &&& forall|i: int|
            0 <= i < self.blocks@.len() ==> (#[trigger] self.blocks@[i]).header.number == i
        &&& forall|i: int| 0 <= i < self.blocks@.len() ==> (#[trigger] self.blocks@[i]).header.wf()
        &&& forall|i: int|
            0 <= i < self.blocks@.len() ==> tx_list_wf(
                (#[trigger] self.blocks@[i]).transactions@,
            )
        &&& forall|i: int, j: int|
            0 <= i < self.blocks@.len() && 0 <= j < self.blocks@.len() && i != j ==> (
            #[trigger] self.blocks@[i]).header.hash@ != (#[trigger] self.blocks@[j]).header.hash@
        &&& forall|i: int|
            1 <= i < self.blocks@.len() ==> (#[trigger] self.blocks@[i]).header.parent_hash@
                == self.blocks@[i - 1].header.hash@
    }

    /// Whether a height has been observed as settled on layer 1: true
    /// exactly when a highest accepted height exists and `h` is at or
    /// below it (the boundary height itself counts as accepted).
    pub open spec fn spec_is_l1_accepted(&self, h: u64) -> bool {
        match self.l1_accepted {
            Some(t) => h <= t,
            None => false,
        }
    }

    /// An empty store: no blocks, nothing accepted on layer 1.
    pub fn empty() -> (r: Self)
        ensures
            r.wf(),
            r.blocks@.len() == 0,
            r.l1_accepted is None,
    {
        StorageView { blocks: Vec::new(), l1_accepted: None }
    }

    /// Appends the next block of the chain.  Succeeds exactly when the
    /// header continues the chain: its height is the next height, its
    /// digests are well-formed, its parent hash is the current tip's hash,
    /// and its own hash is new.  On failure the store is unchanged.
    pub fn append_block(&mut self, header: BlockHeader, transactions: Vec<TransactionHash>) -> (ok:
        bool)
        requires
            old(self).wf(),
        ensures
            final(self).wf(),
            final(self).l1_accepted == old(self).l1_accepted,
            ok ==> final(self).blocks@ == old(self).blocks@.push(
                StoredBlock { header, transactions },
            ),
            !ok ==> *final(self) == *old(self),
            ok <==> (header.number == old(self).blocks@.len() && header.wf() && tx_list_wf(
                transactions@,
            ) && (old(self).blocks@.len() > 0 ==> header.parent_hash@ == old(self).blocks@[old(
                self,
            ).blocks@.len() - 1].header.hash@) && (forall|i: int|
                0 <= i < old(self).blocks@.len() ==> (#[trigger] old(self).blocks@[i]).header.hash@
                    != header.hash@)),
    {
        if header.number != self.blocks.len() as u64 {
            return false;
        }
        if header.hash.bytes.len() != 32 || header.parent_hash.bytes.len() != 32
            || header.state_root.bytes.len() != 32 {
            return false;
        }
        let mut t: usize = 0;
        while t < transactions.len()
            invariant
                t <= transactions@.len(),
                forall|i: int| 0 <= i < t ==> (#[trigger] transactions@[i]).wf(),
                *self == *old(self),
                old(self).wf(),
            decreases transactions@.len() - t,
        {
            if transactions[t].bytes.len() != 32 {
                return false;
            }
            t += 1;
        }
        if self.blocks.len() > 0 {
            let tip = self.blocks.len() - 1;
            if !self.blocks[tip].header.hash.matches(&header.parent_hash) {
                return false;
            }
        }
        match self.header_index_by_hash(&header.hash) {
            Some(_) => {
                return false;
            },
            None => {},
        }
        let ghost pre = *self;
        let nb = StoredBlock { header, transactions };
        self.blocks.push(nb);
        proof {
            let s = self.blocks@;
            let n = pre.blocks@.len() as int;
            assert(s =~= pre.blocks@.push(nb));
            assert forall|i: int| 0 <= i < s.len() implies (#[trigger] s[i]).header.number
                == i by {
                if i < n {
                    assert(pre.blocks@[i].header.number == i);
                }
            }
            assert forall|i: int, j: int|
                0 <= i < s.len() && 0 <= j < s.len() && i != j implies (
            #[trigger] s[i]).header.hash@ != (#[trigger] s[j]).header.hash@ by {
                if i < n && j < n {
                    assert(pre.blocks@[i].header.hash@ != pre.blocks@[j].header.hash@);
                } else if i == n {
                    assert(pre.blocks@[j].header.hash@ != nb.header.hash@);
                } else {
                    assert(pre.blocks@[i].header.hash@ != nb.header.hash@);
                }
            }
            assert forall|i: int| 1 <= i < s.len() implies (#[trigger] s[i]).header.parent_hash@
                == s[i - 1].header.hash@ by {
                if i < n {
                    assert(pre.blocks@[i].header.parent_hash@ == pre.blocks@[i - 1].header.hash@);
                }
            }
        }
        true
    }

    /// Records the highest layer-1-accepted height observed so far.
    pub fn set_l1_accepted(&mut self, h: u64)
        requires
            old(self).wf(),
        ensures
            final(self).wf(),
            final(self).blocks@ == old(self).blocks@,
            final(self).l1_accepted == Some(h),
    {
        self.l1_accepted = Some(h);
    }

    /// The finality fact for one height, from this snapshot.
    pub fn block_is_l1_accepted(&self, h: u64) -> (r: bool)
        ensures
            r == self.spec_is_l1_accepted(h),
    {
        match &self.l1_accepted {
            Some(t) => h <= *t,
            None => false,
        }
    }

    /// The height of the chain's tip, or `None` for an empty store.
    pub fn latest_height(&self) -> (r: Option<u64>)
        requires
            self.wf(),
        ensures
            self.blocks@.len() == 0 ==> r is None,
            self.blocks@.len() > 0 ==> r == Some((self.blocks@.len() - 1) as u64),
    {
        if self.blocks.len() == 0 {
            None
        } else {
            Some((self.blocks.len() - 1) as u64)
        }
    }

    /// Finds the height holding the given content hash, if any: the hash
    /// uniquely determines the height.
    pub fn header_index_by_hash(&self, h: &BlockHash) -> (r: Option<usize>)
        ensures
            match r {
                Some(i) => i < self.blocks@.len() && self.blocks@[i as int].header.hash@ == h@,
                None => forall|i: int|
                    0 <= i < self.blocks@.len() ==> (#[trigger] self.blocks@[i]).header.hash@
                        != h@,
            },
    {
        let mut i: usize = 0;
        while i < self.blocks.len()
            invariant
                i <= self.blocks@.len(),
                forall|k: int| 0 <= k < i ==> (#[trigger] self.blocks@[k]).header.hash@ != h@,
            decreases self.blocks@.len() - i,
        {
            if self.blocks[i].header.hash.matches(h) {
                return Some(i);
            }
            i += 1;
        }
        None
    }

    /// The ordered transaction hashes of the block at a height, copied out
    /// of the snapshot; `None` exactly when the height does not exist.
    pub fn transaction_hashes_for_block(&self, h: u64) -> (r: Option<Vec<TransactionHash>>)
        requires
            self.wf(),
        ensures
            match r {
                Some(v) => h < self.blocks@.len() && v@.len() == self.blocks@[h as int].transactions@.len()
                    && (forall|i: int|
                    0 <= i < v@.len() ==> (#[trigger] v@[i])@ == self.blocks@[h as int].transactions@[i]@),
                None => h >= self.blocks@.len(),
            },
    {
        if h < self.blocks.len() as u64 {
            Some(copy_tx_list(&self.blocks[h as usize].transactions))
        } else {
            None
        }
    }
}

/// Copies a transaction hash list, preserving order and contents.
pub fn copy_tx_list(v: &Vec<TransactionHash>) -> (r: Vec<TransactionHash>)
    ensures
        r@.len() == v@.len(),
        forall|i: int| 0 <= i < v@.len() ==> (#[trigger] r@[i])@ == v@[i]@,
{
    let mut r: Vec<TransactionHash> = Vec::new();
    let mut i: usize = 0;
    while i < v.len()
        invariant
            i <= v@.len(),
            r@.len() == i,
            forall|k: int| 0 <= k < i ==> (#[trigger] r@[k])@ == v@[k]@,
        decreases v@.len() - i,
    {
        r.push(v[i].clone());
        i += 1;
    }
    r
}

} // verus!
