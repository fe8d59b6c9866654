//! Query handler behaviour over a small fixture chain.

use block_query::digest::{BlockHash, TransactionHash};
use block_query::error::GetBlockError;
use block_query::handler::{bridge_outcome, get_block_with_tx_hashes, RpcContext};
use block_query::pending::{PendingBlock, PendingData};
use block_query::reply::{Block, BlockStatus};
use block_query::resolver::{resolve, BlockReference, GetBlockInput, ResolveError};
use block_query::storage::{BlockHeader, StorageView};

fn bh(b: &[u8]) -> BlockHash {
    BlockHash::from_bytes(&b.to_vec())
}

fn th(b: &[u8]) -> TransactionHash {
    TransactionHash::from_bytes(&b.to_vec())
}

fn header(n: u64, hash: &[u8], parent: &[u8]) -> BlockHeader {
    BlockHeader {
        number: n,
        hash: bh(hash),
        parent_hash: bh(parent),
        state_root: bh(b"root"),
        timestamp: 1000 + n,
        gas_price: 10,
    }
}

fn test_storage() -> StorageView {
    let mut s = StorageView::empty();
    assert!(s.append_block(header(0, b"genesis", b""), vec![th(b"txn 0")]));
    assert!(s.append_block(
        header(1, b"block 1", b"genesis"),
        vec![th(b"txn 1"), th(b"txn 2")]
    ));
    assert!(s.append_block(
        header(2, b"latest", b"block 1"),
        vec![th(b"txn 3"), th(b"txn 4")]
    ));
    s.set_l1_accepted(0);
    s
}

fn ctx() -> RpcContext {
    RpcContext::new(test_storage())
}

fn pending_block() -> PendingBlock {
    PendingBlock {
        parent_hash: bh(b"latest"),
        timestamp: 2000,
        gas_price: 10,
        transactions: vec![th(b"pending tx 1"), th(b"pending tx 2")],
    }
}

fn ctx_with_pending() -> RpcContext {
    ctx().with_pending_data(PendingData {
        block: Some(pending_block()),
    })
}

fn query(context: RpcContext, block_id: BlockReference) -> Result<Block, GetBlockError> {
    get_block_with_tx_hashes(context, GetBlockInput { block_id })
}

fn assert_hash(i: usize, result: Result<Block, GetBlockError>, expected: &[u8]) {
    match result {
        Ok(block) => assert_eq!(
            block.header.block_hash,
            Some(bh(expected)),
            "test case {i}"
        ),
        Err(e) => panic!("test case {i}: unexpected error {e:?}"),
    }
}

#[test]
fn happy_paths_and_major_errors() {
    // Pending, overlay with a block: short-circuits to the pending block.
    match query(ctx_with_pending(), BlockReference::Pending) {
        Ok(block) => assert_eq!(block.header.parent_hash, bh(b"latest"), "test case 0"),
        Err(e) => panic!("test case 0: unexpected error {e:?}"),
    }
    // Pending, overlay configured but empty.
    let empty = ctx().with_pending_data(PendingData::default());
    assert_eq!(
        query(empty, BlockReference::Pending),
        Err(GetBlockError::BlockNotFound),
        "test case 1"
    );
    // Pending, no overlay configured.
    match query(ctx(), BlockReference::Pending) {
        Err(GetBlockError::Internal(e)) => assert_eq!(
            e.message, "Pending data not supported in this configuration",
            "test case 2"
        ),
        other => panic!("test case 2: unexpected result {other:?}"),
    }
    // Other block ids.
    assert_hash(3, query(ctx(), BlockReference::Latest), b"latest");
    assert_hash(4, query(ctx(), BlockReference::Number(0)), b"genesis");
    assert_hash(5, query(ctx(), BlockReference::Hash(bh(b"genesis"))), b"genesis");
    assert_eq!(
        query(ctx(), BlockReference::Number(9999)),
        Err(GetBlockError::BlockNotFound),
        "test case 6"
    );
    assert_eq!(
        query(ctx(), BlockReference::Hash(bh(b"non-existent"))),
        Err(GetBlockError::BlockNotFound),
        "test case 7"
    );
}

#[test]
fn transaction_hashes_are_correct() {
    let tx_hashes = query(ctx(), BlockReference::Number(1))
        .unwrap()
        .transactions;
    assert_eq!(tx_hashes, vec![th(b"txn 1"), th(b"txn 2")]);
}

#[test]
fn pending_without_overlay_is_unsupported_at_resolution() {
    assert_eq!(
        resolve(BlockReference::Pending, None),
        Err(ResolveError::PendingNotSupported)
    );
}

#[test]
fn pending_with_empty_overlay_is_not_found_at_resolution() {
    assert_eq!(
        resolve(BlockReference::Pending, Some(PendingData::default())),
        Err(ResolveError::NotFound)
    );
}

#[test]
fn finality_boundary_is_inclusive() {
    let at_boundary = query(ctx_at_l1(1), BlockReference::Number(1)).unwrap();
    assert_eq!(at_boundary.status, BlockStatus::AcceptedOnL1);
    let below = query(ctx_at_l1(1), BlockReference::Number(0)).unwrap();
    assert_eq!(below.status, BlockStatus::AcceptedOnL1);
    let above = query(ctx_at_l1(1), BlockReference::Number(2)).unwrap();
    assert_eq!(above.status, BlockStatus::AcceptedOnL2);
}

fn ctx_at_l1(h: u64) -> RpcContext {
    let mut s = test_storage();
    s.set_l1_accepted(h);
    RpcContext::new(s)
}

#[test]
fn status_without_any_l1_acceptance_is_l2() {
    let mut s = StorageView::empty();
    assert!(s.append_block(header(0, b"genesis", b""), vec![]));
    let block = query(RpcContext::new(s), BlockReference::Number(0)).unwrap();
    assert_eq!(block.status, BlockStatus::AcceptedOnL2);
}

#[test]
fn lookup_by_hash_and_by_height_converge() {
    let by_number = query(ctx(), BlockReference::Number(1)).unwrap();
    let by_hash = query(ctx(), BlockReference::Hash(bh(b"block 1"))).unwrap();
    assert_eq!(by_number, by_hash);
}

#[test]
fn pending_reply_has_no_hash_height_or_root() {
    let block = query(ctx_with_pending(), BlockReference::Pending).unwrap();
    assert_eq!(block.header.block_hash, None);
    assert_eq!(block.header.block_number, None);
    assert_eq!(block.header.new_root, None);
    assert_eq!(block.status, BlockStatus::Pending);
    assert_eq!(
        block.transactions,
        vec![th(b"pending tx 1"), th(b"pending tx 2")]
    );
}

#[test]
fn scenario_genesis_and_second_block() {
    let mut s = StorageView::empty();
    assert!(s.append_block(header(0, b"G", b""), vec![]));
    assert!(s.append_block(header(1, b"H1", b"G"), vec![th(b"T1"), th(b"T2")]));
    s.set_l1_accepted(0);

    let latest = query(
        RpcContext::new(clone_store(&s)),
        BlockReference::Latest,
    )
    .unwrap();
    assert_eq!(latest.header.block_number, Some(1));
    assert_eq!(latest.status, BlockStatus::AcceptedOnL2);
    assert_eq!(latest.transactions, vec![th(b"T1"), th(b"T2")]);

    let genesis_input = block_query::json::JsonValue::Object(vec![(
        "block_id".to_string(),
        block_query::json::JsonValue::Object(vec![(
            "block_number".to_string(),
            block_query::json::JsonValue::UInt(0),
        )]),
    )]);
    let input = GetBlockInput::from_params(&genesis_input).unwrap();
    let genesis = query(RpcContext::new(clone_store(&s)), input.block_id).unwrap();
    assert_eq!(genesis.status, BlockStatus::AcceptedOnL1);

    let unknown_input = block_query::json::JsonValue::Array(vec![
        block_query::json::JsonValue::Object(vec![(
            "block_hash".to_string(),
            block_query::json::JsonValue::Str("0xdead".to_string()),
        )]),
    ]);
    let input = GetBlockInput::from_params(&unknown_input).unwrap();
    assert_eq!(
        query(RpcContext::new(clone_store(&s)), input.block_id),
        Err(GetBlockError::BlockNotFound)
    );
}

fn clone_store(s: &StorageView) -> StorageView {
    let mut out = StorageView::empty();
    for b in &s.blocks {
        assert!(out.append_block(b.header.clone(), b.transactions.clone()));
    }
    if let Some(h) = s.l1_accepted {
        out.set_l1_accepted(h);
    }
    out
}

#[test]
fn bridge_passes_outcomes_and_reports_worker_failure() {
    assert_eq!(bridge_outcome::<u64>(Some(Ok(7))), Ok(7));
    assert_eq!(
        bridge_outcome::<u64>(Some(Err(GetBlockError::BlockNotFound))),
        Err(GetBlockError::BlockNotFound)
    );
    match bridge_outcome::<u64>(None) {
        Err(GetBlockError::Internal(e)) => {
            assert_eq!(e.message, "Database read panic or shutting down")
        }
        other => panic!("unexpected bridge outcome {other:?}"),
    }
}

#[test]
fn latest_on_empty_store_is_not_found() {
    assert_eq!(
        query(RpcContext::new(StorageView::empty()), BlockReference::Latest),
        Err(GetBlockError::BlockNotFound)
    );
}

#[test]
fn storage_interface_reads() {
    let s = test_storage();
    assert_eq!(s.latest_height(), Some(2));
    assert!(s.block_is_l1_accepted(0));
    assert!(!s.block_is_l1_accepted(1));
    let txs = s.transaction_hashes_for_block(1).unwrap();
    assert_eq!(txs, vec![th(b"txn 1"), th(b"txn 2")]);
    assert!(s.transaction_hashes_for_block(9).is_none());
    assert_eq!(s.header_index_by_hash(&bh(b"latest")), Some(2));
    assert_eq!(s.header_index_by_hash(&bh(b"nope")), None);
}

#[test]
fn append_block_rejects_malformed_digests() {
    let mut s = StorageView::empty();
    let mut h = header(0, b"genesis", b"");
    h.hash = BlockHash {
        bytes: vec![1, 2, 3],
    };
    assert!(!s.append_block(h, vec![]));
    assert_eq!(s.blocks.len(), 0);
}

#[test]
fn append_block_rejects_chain_breaks() {
    let mut s = StorageView::empty();
    assert!(s.append_block(header(0, b"genesis", b""), vec![]));
    // Wrong height.
    assert!(!s.append_block(header(5, b"x", b"genesis"), vec![]));
    // Wrong parent hash.
    assert!(!s.append_block(header(1, b"x", b"someone else"), vec![]));
    // Duplicate content hash.
    assert!(!s.append_block(header(1, b"genesis", b"genesis"), vec![]));
    assert_eq!(s.blocks.len(), 1);
}
