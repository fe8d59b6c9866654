//! Wire-level behaviour: identifier parsing, digest hex encoding, reply
//! JSON shape, and error codes.

use block_query::digest::{BlockHash, TransactionHash};
use block_query::error::{error_code, ErrorKind, GetBlockError};
use block_query::handler::{get_block_with_tx_hashes, RpcContext};
use block_query::json::JsonValue;
use block_query::reply::{Block, BlockStatus};
use block_query::resolver::{BlockReference, GetBlockInput};
use block_query::storage::{BlockHeader, StorageView};

fn bh(b: &[u8]) -> BlockHash {
    BlockHash::from_bytes(&b.to_vec())
}

fn th(b: &[u8]) -> TransactionHash {
    TransactionHash::from_bytes(&b.to_vec())
}

fn positional(v: JsonValue) -> JsonValue {
    JsonValue::Array(vec![v])
}

fn named(v: JsonValue) -> JsonValue {
    JsonValue::Object(vec![("block_id".to_string(), v)])
}

fn number_object(n: u64) -> JsonValue {
    JsonValue::Object(vec![("block_number".to_string(), JsonValue::UInt(n))])
}

fn hash_object(s: &str) -> JsonValue {
    JsonValue::Object(vec![(
        "block_hash".to_string(),
        JsonValue::Str(s.to_string()),
    )])
}

fn parsed(params: &JsonValue) -> BlockReference {
    GetBlockInput::from_params(params).unwrap().block_id
}

#[test]
fn input_parsing() {
    let tag = |t: &str| JsonValue::Str(t.to_string());
    assert_eq!(parsed(&positional(tag("pending"))), BlockReference::Pending);
    assert_eq!(parsed(&named(tag("pending"))), BlockReference::Pending);
    assert_eq!(parsed(&positional(tag("latest"))), BlockReference::Latest);
    assert_eq!(parsed(&named(tag("latest"))), BlockReference::Latest);
    assert_eq!(
        parsed(&positional(number_object(123))),
        BlockReference::Number(123)
    );
    assert_eq!(
        parsed(&named(number_object(123))),
        BlockReference::Number(123)
    );
    assert_eq!(
        parsed(&positional(hash_object("0xbeef"))),
        BlockReference::Hash(bh(&[0xbe, 0xef]))
    );
    assert_eq!(
        parsed(&named(hash_object("0xbeef"))),
        BlockReference::Hash(bh(&[0xbe, 0xef]))
    );
}

#[test]
fn input_parsing_rejects_schema_violations() {
    // Unknown tag.
    assert!(GetBlockInput::from_params(&positional(JsonValue::Str("bogus".to_string()))).is_none());
    // Unknown member name.
    assert!(GetBlockInput::from_params(&positional(JsonValue::Object(vec![(
        "block_height".to_string(),
        JsonValue::UInt(1),
    )])))
    .is_none());
    // Extra member beside a known one.
    assert!(GetBlockInput::from_params(&positional(JsonValue::Object(vec![
        ("block_number".to_string(), JsonValue::UInt(1)),
        ("extra".to_string(), JsonValue::Bool(true)),
    ])))
    .is_none());
    // Wrong arity.
    assert!(GetBlockInput::from_params(&JsonValue::Array(vec![])).is_none());
    assert!(GetBlockInput::from_params(&JsonValue::Array(vec![
        JsonValue::Str("latest".to_string()),
        JsonValue::Str("latest".to_string()),
    ]))
    .is_none());
    // Wrong named key.
    assert!(GetBlockInput::from_params(&JsonValue::Object(vec![(
        "blockid".to_string(),
        JsonValue::Str("latest".to_string()),
    )]))
    .is_none());
    // A number that is not an unsigned integer.
    assert!(GetBlockInput::from_params(&positional(JsonValue::Object(vec![(
        "block_number".to_string(),
        JsonValue::Other,
    )])))
    .is_none());
    // A malformed hash string.
    assert!(GetBlockInput::from_params(&positional(hash_object("0x"))).is_none());
    assert!(GetBlockInput::from_params(&positional(hash_object("beef"))).is_none());
    assert!(GetBlockInput::from_params(&positional(hash_object("0xzz"))).is_none());
}

#[test]
fn digest_hex_round_trip() {
    let h = bh(&[0xbe, 0xef]);
    let hex = h.to_hex();
    assert_eq!(hex.len(), 66);
    assert!(hex.starts_with("0x"));
    assert!(hex.ends_with("beef"));
    assert_eq!(BlockHash::from_hex(&hex), Some(bh(&[0xbe, 0xef])));
    // Short input is padded on the left, and uppercase digits are accepted.
    assert_eq!(BlockHash::from_hex("0xBEEF"), Some(bh(&[0xbe, 0xef])));
    assert_eq!(BlockHash::from_hex("0x0"), Some(bh(&[])));
    // Malformed inputs.
    assert_eq!(BlockHash::from_hex("0x"), None);
    assert_eq!(BlockHash::from_hex(""), None);
    let too_long = format!("0x{}", "0".repeat(65));
    assert_eq!(BlockHash::from_hex(&too_long), None);
}

fn sample_block() -> Block {
    let mut s = StorageView::empty();
    assert!(s.append_block(
        BlockHeader {
            number: 0,
            hash: bh(b"genesis"),
            parent_hash: bh(b""),
            state_root: bh(b"root"),
            timestamp: 1000,
            gas_price: 10,
        },
        vec![th(b"txn 1"), th(b"txn 2")],
    ));
    s.set_l1_accepted(0);
    get_block_with_tx_hashes(
        RpcContext::new(s),
        GetBlockInput {
            block_id: BlockReference::Number(0),
        },
    )
    .unwrap()
}

#[test]
fn reply_json_holds_ordered_transactions_that_parse_back() {
    let block = sample_block();
    let json = block.to_json();
    let fields = match json {
        JsonValue::Object(fields) => fields,
        other => panic!("reply is not an object: {other:?}"),
    };
    let mut recovered: Vec<TransactionHash> = Vec::new();
    let mut found = false;
    for (key, value) in &fields {
        if key == "transactions" {
            found = true;
            match value {
                JsonValue::Array(items) => {
                    for item in items {
                        match item {
                            JsonValue::Str(s) => {
                                recovered.push(TransactionHash::from_hex(s).unwrap())
                            }
                            other => panic!("transaction entry is not a string: {other:?}"),
                        }
                    }
                }
                other => panic!("transactions member is not an array: {other:?}"),
            }
        }
    }
    assert!(found);
    assert_eq!(recovered, block.transactions);
    assert_eq!(recovered, vec![th(b"txn 1"), th(b"txn 2")]);
}

#[test]
fn reply_json_carries_status_and_header_fields() {
    let block = sample_block();
    let fields = match block.to_json() {
        JsonValue::Object(fields) => fields,
        other => panic!("reply is not an object: {other:?}"),
    };
    assert_eq!(fields.len(), 8);
    assert_eq!(fields[0].0, "status");
    match &fields[0].1 {
        JsonValue::Str(s) => assert_eq!(s, "ACCEPTED_ON_L1"),
        other => panic!("status is not a string: {other:?}"),
    }
    assert_eq!(fields[1].0, "block_hash");
    match &fields[1].1 {
        JsonValue::Str(s) => assert_eq!(s, &bh(b"genesis").to_hex()),
        other => panic!("block_hash is not a string: {other:?}"),
    }
    assert_eq!(fields[3].0, "block_number");
    assert_eq!(fields[3].1, JsonValue::UInt(0));
}

#[test]
fn pending_reply_json_has_five_members() {
    let block = Block::from_sequencer(block_query::pending::PendingBlock {
        parent_hash: bh(b"latest"),
        timestamp: 2000,
        gas_price: 10,
        transactions: vec![th(b"pending tx 1")],
    });
    let fields = match block.to_json() {
        JsonValue::Object(fields) => fields,
        other => panic!("reply is not an object: {other:?}"),
    };
    assert_eq!(fields.len(), 5);
    assert_eq!(fields[0].0, "status");
    match &fields[0].1 {
        JsonValue::Str(s) => assert_eq!(s, "PENDING"),
        other => panic!("status is not a string: {other:?}"),
    }
    assert_eq!(fields[4].0, "transactions");
}

#[test]
fn error_codes_are_fixed_per_kind() {
    assert_eq!(error_code(ErrorKind::BlockNotFound), 24);
    assert_eq!(error_code(ErrorKind::TransactionNotFound), 29);
    assert_eq!(error_code(ErrorKind::PendingNotSupported), -32603);
    assert_eq!(error_code(ErrorKind::Internal), -32603);
    assert_eq!(GetBlockError::BlockNotFound.code(), 24);
    assert_eq!(GetBlockError::internal("storage fault").code(), -32603);
    assert_eq!(GetBlockError::BlockNotFound.message(), "Block not found");
    assert_eq!(
        GetBlockError::internal("reading block header: storage fault").message(),
        "reading block header: storage fault"
    );
}
