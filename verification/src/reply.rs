//! The versioned wire reply: one normalized shape fed by two sources.
//!
//! A persisted header with its finality status and transaction hashes, and
//! a pending snapshot's block, both converge here into the same `Block`
//! value; callers never branch on the data's source after assembly.

use crate::digest::{hex_str_of, parse_hex_digest, BlockHash, TransactionHash};
use crate::json::{spec_find_key, JsonValue};
use crate::pending::PendingBlock;
use crate::storage;
use crate::storage::tx_list_wf;
use vstd::prelude::*;

verus! {

/// Finality of a block, derived per query and never stored.
#[derive(Clone, Copy, PartialEq, Eq, Structural, Debug)]
pub enum BlockStatus {
    /// Not yet finalized: the reply describes the pending block.
    Pending,
    /// Accepted on this chain, not yet observed as settled on layer 1.
    AcceptedOnL2,
    /// Observed as settled on layer 1.
    AcceptedOnL1,
}

/// The reply's flattened header fields.  A pending block has no hash,
/// height or state root yet, so those fields are optional.
#[derive(PartialEq, Eq, Debug)]
pub struct BlockHeader {
    pub block_hash: Option<BlockHash>,
    pub parent_hash: BlockHash,
    pub block_number: Option<u64>,
    pub new_root: Option<BlockHash>,
    pub timestamp: u64,
    pub gas_price: u64,
}

/// The normalized wire reply for a block query: header fields, finality
/// status, and the block's transaction hashes in block order.
#[derive(PartialEq, Eq, Debug)]
pub struct Block {
    pub header: BlockHeader,
    pub status: BlockStatus,
    pub transactions: Vec<TransactionHash>,
}

/// The mathematical value of a reply: every content byte of the wire
/// payload is a function of this view.
#[verifier::ext_equal]
pub struct BlockView {
    pub block_hash: Option<Seq<u8>>,
    pub parent_hash: Seq<u8>,
    pub block_number: Option<u64>,
    pub new_root: Option<Seq<u8>>,
    pub timestamp: u64,
    pub gas_price: u64,
    pub status: BlockStatus,
    pub transactions: Seq<Seq<u8>>,
}

/// The digests of a transaction list, in the same order.
pub open spec fn tx_views(s: Seq<TransactionHash>) -> Seq<Seq<u8>> {
    s.map_values(|t: TransactionHash| t@)
}

impl View for Block {
    type V = BlockView;

    open spec fn view(&self) -> BlockView {
        BlockView {
            block_hash: match self.header.block_hash {
                Some(h) => Some(h@),
                None => None,
            },
            parent_hash: self.header.parent_hash@,
            block_number: self.header.block_number,
            new_root: match self.header.new_root {
                Some(h) => Some(h@),
                None => None,
            },
            timestamp: self.header.timestamp,
            gas_price: self.header.gas_price,
            status: self.status,
            transactions: tx_views(self.transactions@),
        }
    }
}

impl Block {
    /// A well-formed reply: digests are 32 bytes; the hash, height and
    /// state root are present together, exactly for non-pending replies.
    pub open spec fn wf(&self) -> bool {
        &&& match self.header.block_hash {
            Some(h) => h.wf(),
            None => true,
        }
        &&& self.header.parent_hash.wf()
        &&& match self.header.new_root {
            Some(h) => h.wf(),
            None => true,
        }
        &&& (self.header.block_hash is Some <==> self.header.block_number is Some)
        &&& (self.header.block_hash is Some <==> self.header.new_root is Some)
        &&& (self.header.block_hash is None <==> self.status is Pending)
        &&& tx_list_wf(self.transactions@)
    }

    /// Assembles the reply from persisted rows: a stored header, the
    /// finality status derived for its height, and the block's transaction
    /// hashes, whose order is kept exactly.
    pub fn from_parts(
        header: storage::BlockHeader,
        status: BlockStatus,
        transactions: Vec<TransactionHash>,
    ) -> (r: Self)
        requires
            header.wf(),
            tx_list_wf(transactions@),
            !(status is Pending),
        ensures
            r@ == (BlockView {
                block_hash: Some(header.hash@),
                parent_hash: header.parent_hash@,
                block_number: Some(header.number),
                new_root: Some(header.state_root@),
                timestamp: header.timestamp,
                gas_price: header.gas_price,
                status,
                transactions: tx_views(transactions@),
            }),
            r.wf(),
    {
        Block {
            header: BlockHeader {
                block_hash: Some(header.hash),
                parent_hash: header.parent_hash,
                block_number: Some(header.number),
                new_root: Some(header.state_root),
                timestamp: header.timestamp,
                gas_price: header.gas_price,
            },
            status,
            transactions,
        }
    }

    /// Assembles the reply from the pending snapshot's block: no hash,
    /// height or state root yet, and always the pending status — a
    /// pending block is by definition not finalized, so no layer-1 check
    /// is consulted.
    pub fn from_sequencer(block: PendingBlock) -> (r: Self)
        requires
            block.wf(),
        ensures
            r@ == (BlockView {
                block_hash: None,
                parent_hash: block.parent_hash@,
                block_number: None,
                new_root: None,
                timestamp: block.timestamp,
                gas_price: block.gas_price,
                status: BlockStatus::Pending,
                transactions: tx_views(block.transactions@),
            }),
            r.wf(),
    {
        Block {
            header: BlockHeader {
                block_hash: None,
                parent_hash: block.parent_hash,
                block_number: None,
                new_root: None,
                timestamp: block.timestamp,
                gas_price: block.gas_price,
            },
            status: BlockStatus::Pending,
            transactions: block.transactions,
        }
    }
}

/// The wire spelling of a finality status.
pub open spec fn spec_status_str(s: BlockStatus) -> Seq<char> {
    match s {
        BlockStatus::Pending => "PENDING"@,
        BlockStatus::AcceptedOnL2 => "ACCEPTED_ON_L2"@,
        BlockStatus::AcceptedOnL1 => "ACCEPTED_ON_L1"@,
    }
}

/// Renders a finality status for the wire.
pub fn status_string(s: BlockStatus) -> (r: String)
    ensures
        r@ == spec_status_str(s),
{
    match s {
        BlockStatus::Pending => String::from_str("PENDING"),
        BlockStatus::AcceptedOnL2 => String::from_str("ACCEPTED_ON_L2"),
        BlockStatus::AcceptedOnL1 => String::from_str("ACCEPTED_ON_L1"),
    }
}

/// The reply's transaction member: an array of hex digest strings, one per
/// transaction, in block order.
pub open spec fn tx_array_matches(j: JsonValue, txs: Seq<Seq<u8>>) -> bool {
    j matches JsonValue::Array(items) && items@.len() == txs.len() && (forall|i: int|
        0 <= i < txs.len() ==> ((#[trigger] items@[i]) matches JsonValue::Str(s) && s@
            == hex_str_of(txs[i])))
}

/// The reply's JSON tree as a function of the reply's view: a non-pending
/// reply is an object of eight members, a pending reply one of five (no
/// hash, height or state root), in a fixed order.
pub open spec fn reply_json_matches(j: JsonValue, v: BlockView) -> bool {
    match j {
        JsonValue::Object(fields) => match v.block_hash {
            Some(bh) => {
            &&& fields@.len() == 8
            &&& fields@[0].0@ == "status"@
            &&& (fields@[0].1 matches JsonValue::Str(s) && s@ == spec_status_str(v.status))
            &&& fields@[1].0@ == "block_hash"@
            &&& (fields@[1].1 matches JsonValue::Str(s) && s@ == hex_str_of(bh))
            &&& fields@[2].0@ == "parent_hash"@
            &&& (fields@[2].1 matches JsonValue::Str(s) && s@ == hex_str_of(v.parent_hash))
            &&& fields@[3].0@ == "block_number"@
            &&& (fields@[3].1 matches JsonValue::UInt(n) && v.block_number == Some(n))
            &&& fields@[4].0@ == "new_root"@
            &&& (fields@[4].1 matches JsonValue::Str(s) && (v.new_root matches Some(nr) && s@
                == hex_str_of(nr)))
            &&& fields@[5].0@ == "timestamp"@
            &&& fields@[5].1 == JsonValue::UInt(v.timestamp)
            &&& fields@[6].0@ == "gas_price"@
            &&& fields@[6].1 == JsonValue::UInt(v.gas_price)
            &&& fields@[7].0@ == "transactions"@
            &&& tx_array_matches(fields@[7].1, v.transactions)
            },
            None => {
            &&& fields@.len() == 5
            &&& fields@[0].0@ == "status"@
            &&& (fields@[0].1 matches JsonValue::Str(s) && s@ == spec_status_str(v.status))
            &&& fields@[1].0@ == "parent_hash"@
            &&& (fields@[1].1 matches JsonValue::Str(s) && s@ == hex_str_of(v.parent_hash))
            &&& fields@[2].0@ == "timestamp"@
            &&& fields@[2].1 == JsonValue::UInt(v.timestamp)
            &&& fields@[3].0@ == "gas_price"@
            &&& fields@[3].1 == JsonValue::UInt(v.gas_price)
            &&& fields@[4].0@ == "transactions"@
            &&& tx_array_matches(fields@[4].1, v.transactions)
            },
        },
        _ => false,
    }
}

/// Reads an encoded transaction list back: each element must be a hex
/// digest string, and the digests come back in array order.
pub open spec fn spec_parse_tx_list(items: Seq<JsonValue>) -> Option<Seq<Seq<u8>>>
    decreases items.len(),
{
    if items.len() == 0 {
        Some(Seq::empty())
    } else {
        match items[0] {
            JsonValue::Str(s) => match parse_hex_digest(s@) {
                Some(b) => match spec_parse_tx_list(items.drop_first()) {
                    Some(rest) => Some(seq![b] + rest),
                    None => None,
                },
                None => None,
            },
            _ => None,
        }
    }
}

/// Re-reads the ordered transaction hashes out of a reply's JSON tree, as
/// a wire consumer would: find the transaction member, then decode each
/// hex string.
pub open spec fn tx_hashes_of_reply_json(j: JsonValue) -> Option<Seq<Seq<u8>>> {
    match j {
        JsonValue::Object(fields) => match spec_find_key(fields@, "transactions"@) {
            Some(t) => match t {
                JsonValue::Array(items) => spec_parse_tx_list(items@),
                _ => None,
            },
            None => None,
        },
        _ => None,
    }
}

/// An encoded transaction list of 32-byte digests decodes back to exactly
/// the digests it was built from, in the same order.
pub proof fn lemma_parse_tx_list_round_trip(items: Seq<JsonValue>, txs: Seq<Seq<u8>>)
    requires
        items.len() == txs.len(),
        forall|i: int|
            0 <= i < txs.len() ==> ((#[trigger] items[i]) matches JsonValue::Str(s) && s@
                == hex_str_of(txs[i])),
        forall|i: int| 0 <= i < txs.len() ==> (#[trigger] txs[i]).len() == 32,
    ensures
        spec_parse_tx_list(items) == Some(txs),
    decreases items.len(),
{
    if items.len() == 0 {
        assert(txs =~= Seq::<Seq<u8>>::empty());
    } else {
        assert(items[0] matches JsonValue::Str(s) && s@ == hex_str_of(txs[0]));
        crate::digest::lemma_hex_round_trip(txs[0]);
        let itail = items.drop_first();
        let ttail = txs.drop_first();
        assert forall|i: int|
            0 <= i < ttail.len() implies ((#[trigger] itail[i]) matches JsonValue::Str(s) && s@
            == hex_str_of(ttail[i])) by {
            assert(itail[i] == items[i + 1]);
            assert(ttail[i] == txs[i + 1]);
        }
        assert forall|i: int| 0 <= i < ttail.len() implies (#[trigger] ttail[i]).len() == 32 by {
            assert(ttail[i] == txs[i + 1]);
        }
        lemma_parse_tx_list_round_trip(itail, ttail);
        assert(seq![txs[0]] + ttail =~= txs);
    }
}

impl Block {
    /// Builds the reply's JSON tree.  The tree is a function of the
    /// reply's view, and reading its transaction member back yields
    /// exactly the reply's ordered transaction hashes.
    pub fn to_json(&self) -> (r: JsonValue)
        requires
            self.wf(),
        ensures
            reply_json_matches(r, self@),
            tx_hashes_of_reply_json(r) == Some(self@.transactions),
    {
        let mut items: Vec<JsonValue> = Vec::new();
        let mut i: usize = 0;
        while i < self.transactions.len()
            invariant
                i <= self.transactions@.len(),
                items@.len() == i,
                self.wf(),
                forall|k: int|
                    0 <= k < i ==> ((#[trigger] items@[k]) matches JsonValue::Str(s) && s@
                        == hex_str_of(self.transactions@[k]@)),
            decreases self.transactions@.len() - i,
        {
            items.push(JsonValue::Str(self.transactions[i].to_hex()));
            i += 1;
        }
        proof {
            assert forall|k: int| 0 <= k < self@.transactions.len() implies ((
            #[trigger] items@[k]) matches JsonValue::Str(s) && s@ == hex_str_of(
                self@.transactions[k],
            )) by {
                assert(self@.transactions[k] == self.transactions@[k]@);
            }
        }
        proof {
            assert forall|k: int| 0 <= k < self@.transactions.len() implies (
            #[trigger] self@.transactions[k]).len() == 32 by {
                assert(self@.transactions[k] == self.transactions@[k]@);
                assert(self.transactions@[k].wf());
            }
        }
        let txjson = JsonValue::Array(items);
        let mut fields: Vec<(String, JsonValue)> = Vec::new();
        fields.push((String::from_str("status"), JsonValue::Str(status_string(self.status))));
        match (&self.header.block_hash, &self.header.block_number, &self.header.new_root) {
            (Some(bh), Some(bn), Some(nr)) => {
                fields.push((String::from_str("block_hash"), JsonValue::Str(bh.to_hex())));
                fields.push(
                    (String::from_str("parent_hash"), JsonValue::Str(self.header.parent_hash.to_hex())),
                );
                fields.push((String::from_str("block_number"), JsonValue::UInt(*bn)));
                fields.push((String::from_str("new_root"), JsonValue::Str(nr.to_hex())));
                fields.push((String::from_str("timestamp"), JsonValue::UInt(self.header.timestamp)));
                fields.push((String::from_str("gas_price"), JsonValue::UInt(self.header.gas_price)));
                fields.push((String::from_str("transactions"), txjson));
                let r = JsonValue::Object(fields);
                proof {
                    assert(reply_json_matches(r, self@));
                    lemma_reply_json_recovers_tx_hashes(r, self@);
                }
                r
            },
            _ => {
                fields.push(
                    (String::from_str("parent_hash"), JsonValue::Str(self.header.parent_hash.to_hex())),
                );
                fields.push((String::from_str("timestamp"), JsonValue::UInt(self.header.timestamp)));
                fields.push((String::from_str("gas_price"), JsonValue::UInt(self.header.gas_price)));
                fields.push((String::from_str("transactions"), txjson));
                let r = JsonValue::Object(fields);
                proof {
                    assert(reply_json_matches(r, self@));
                    lemma_reply_json_recovers_tx_hashes(r, self@);
                }
                r
            },
        }
    }
}

/// Any tree of the reply's shape re-reads to exactly the view's ordered
/// transaction hashes: a conforming wire payload cannot drop, reorder or
/// garble the transaction list, whichever serializer produced it.
pub proof fn lemma_reply_json_recovers_tx_hashes(j: JsonValue, v: BlockView)
    requires
        reply_json_matches(j, v),
        forall|i: int| 0 <= i < v.transactions.len() ==> (#[trigger] v.transactions[i]).len()
            == 32,
    ensures
        tx_hashes_of_reply_json(j) == Some(v.transactions),
{
    lemma_reply_keys_distinct();
    let fs = (j->Object_0)@;
    let k = "transactions"@;
    if v.block_hash is Some {
        let f1 = fs.drop_first();
        let f2 = f1.drop_first();
        let f3 = f2.drop_first();
        let f4 = f3.drop_first();
        let f5 = f4.drop_first();
        let f6 = f5.drop_first();
        let f7 = f6.drop_first();
        assert(f1[0] == fs[1] && f2[0] == fs[2] && f3[0] == fs[3] && f4[0] == fs[4] && f5[0]
            == fs[5] && f6[0] == fs[6] && f7[0] == fs[7]);
        assert(spec_find_key(fs, k) == spec_find_key(f1, k));
        assert(spec_find_key(f1, k) == spec_find_key(f2, k));
        assert(spec_find_key(f2, k) == spec_find_key(f3, k));
        assert(spec_find_key(f3, k) == spec_find_key(f4, k));
        assert(spec_find_key(f4, k) == spec_find_key(f5, k));
        assert(spec_find_key(f5, k) == spec_find_key(f6, k));
        assert(spec_find_key(f6, k) == spec_find_key(f7, k));
        assert(spec_find_key(f7, k) == Some(fs[7].1));
        lemma_parse_tx_list_round_trip((fs[7].1)->Array_0@, v.transactions);
    } else {
        let f1 = fs.drop_first();
        let f2 = f1.drop_first();
        let f3 = f2.drop_first();
        let f4 = f3.drop_first();
        assert(f1[0] == fs[1] && f2[0] == fs[2] && f3[0] == fs[3] && f4[0] == fs[4]);
        assert(spec_find_key(fs, k) == spec_find_key(f1, k));
        assert(spec_find_key(f1, k) == spec_find_key(f2, k));
        assert(spec_find_key(f2, k) == spec_find_key(f3, k));
        assert(spec_find_key(f3, k) == spec_find_key(f4, k));
        assert(spec_find_key(f4, k) == Some(fs[4].1));
        lemma_parse_tx_list_round_trip((fs[4].1)->Array_0@, v.transactions);
    }
}

/// No other member of the reply object uses the transaction member's key.
proof fn lemma_reply_keys_distinct()
    ensures
        "status"@ != "transactions"@,
        "block_hash"@ != "transactions"@,
        "parent_hash"@ != "transactions"@,
        "block_number"@ != "transactions"@,
        "new_root"@ != "transactions"@,
        "timestamp"@ != "transactions"@,
        "gas_price"@ != "transactions"@,
{
    reveal_strlit("status");
    reveal_strlit("block_hash");
    reveal_strlit("parent_hash");
    reveal_strlit("block_number");
    reveal_strlit("new_root");
    reveal_strlit("timestamp");
    reveal_strlit("gas_price");
    reveal_strlit("transactions");
    assert("transactions"@.len() == 12);
    assert("status"@.len() == 6);
    assert("block_hash"@.len() == 10);
    assert("parent_hash"@.len() == 11);
    assert("new_root"@.len() == 8);
    assert("timestamp"@.len() == 9);
    assert("gas_price"@.len() == 9);
    assert("block_number"@[0] == 'b');
    assert("transactions"@[0] == 't');
}

} // verus!
