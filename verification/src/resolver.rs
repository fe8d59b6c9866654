//! Identifier classification: from a client-supplied block identifier to
//! either a pending-overlay short circuit or a persisted-lookup key.
//!
//! The resolver performs no storage read itself; it is a pure
//! classification step.  `Latest` stays symbolic in the lookup key and is
//! resolved to a concrete height only inside the storage read, so no race
//! can open between classification and read.

use crate::digest::{parse_hex_digest, BlockHash};
use crate::json::JsonValue;
use crate::pending::{PendingBlock, PendingData};
use crate::storage::StorageView;
use vstd::prelude::*;

verus! {

/// A client-supplied block identifier, already schema-validated.
#[derive(PartialEq, Eq, Debug)]
pub enum BlockReference {
    Pending,
    Latest,
    Number(u64),
    Hash(BlockHash),
}

/// The mathematical value of a block reference.
pub enum BlockRefView {
    Pending,
    Latest,
    Number(u64),
    Hash(Seq<u8>),
}

impl View for BlockReference {
    type V = BlockRefView;

    open spec fn view(&self) -> BlockRefView {
        match self {
            BlockReference::Pending => BlockRefView::Pending,
            BlockReference::Latest => BlockRefView::Latest,
            BlockReference::Number(n) => BlockRefView::Number(*n),
            BlockReference::Hash(h) => BlockRefView::Hash(h@),
        }
    }
}

impl Clone for BlockReference {
    fn clone(&self) -> (r: Self)
        ensures
            r@ == self@,
    {
        match self {
            BlockReference::Pending => BlockReference::Pending,
            BlockReference::Latest => BlockReference::Latest,
            BlockReference::Number(n) => BlockReference::Number(*n),
            BlockReference::Hash(h) => BlockReference::Hash(h.clone()),
        }
    }
}

/// The key of a persisted lookup: everything a block reference can be,
/// except `Pending`, which never reaches the persisted store.
#[derive(PartialEq, Eq, Debug)]
pub enum LookupKey {
    Latest,
    Number(u64),
    Hash(BlockHash),
}

impl View for LookupKey {
    type V = BlockRefView;

    open spec fn view(&self) -> BlockRefView {
        match self {
            LookupKey::Latest => BlockRefView::Latest,
            LookupKey::Number(n) => BlockRefView::Number(*n),
            LookupKey::Hash(h) => BlockRefView::Hash(h@),
        }
    }
}

/// The outcome of classifying a reference: short-circuit to the pending
/// snapshot's block, or read the persisted store under a key.
#[derive(PartialEq, Eq, Debug)]
pub enum ResolutionPlan {
    UsePendingBlock(PendingBlock),
    ReadPersisted(LookupKey),
}

/// Resolution-level failures.  These are ordinary typed outcomes, not
/// exceptional control flow; each method folds them into its declared
/// error subset.
#[derive(Clone, Copy, PartialEq, Eq, Structural, Debug)]
pub enum ResolveError {
    /// `Pending` was asked of a node with no overlay configured.
    PendingNotSupported,
    /// `Pending` was asked while the overlay holds no block payload.
    NotFound,
}

/// Classifies a block reference against the optional pending overlay.
///
/// `Pending` with no overlay configured fails with `PendingNotSupported`,
/// never `NotFound`; `Pending` with an empty overlay fails with
/// `NotFound`; `Pending` with a block short-circuits to that block; every
/// other reference becomes the corresponding persisted-lookup key.
pub fn resolve(reference: BlockReference, overlay: Option<PendingData>) -> (r: Result<
    ResolutionPlan,
    ResolveError,
>)
    ensures
        reference is Pending && overlay is None ==> r == Err::<ResolutionPlan, ResolveError>(ResolveError::PendingNotSupported),
        overlay matches Some(pd) && reference is Pending && pd.block is None ==> r == Err::<ResolutionPlan, ResolveError>(ResolveError::NotFound),
        overlay matches Some(pd) ==> (pd.block matches Some(b) ==> (reference is Pending ==> r
            == Ok::<ResolutionPlan, ResolveError>(ResolutionPlan::UsePendingBlock(b)))),
        reference is Latest ==> r == Ok::<ResolutionPlan, ResolveError>(ResolutionPlan::ReadPersisted(LookupKey::Latest)),
        reference matches BlockReference::Number(n) ==> r == Ok::<ResolutionPlan, ResolveError>(
            ResolutionPlan::ReadPersisted(LookupKey::Number(n)),
        ),
        reference matches BlockReference::Hash(h) ==> r == Ok::<ResolutionPlan, ResolveError>(
            ResolutionPlan::ReadPersisted(LookupKey::Hash(h)),
        ),
{
    match reference {
        BlockReference::Pending => match overlay {
            None => Err(ResolveError::PendingNotSupported),
            Some(pd) => match pd.block {
                None => Err(ResolveError::NotFound),
                Some(b) => Ok(ResolutionPlan::UsePendingBlock(b)),
            },
        },
        BlockReference::Latest => Ok(ResolutionPlan::ReadPersisted(LookupKey::Latest)),
        BlockReference::Number(n) => Ok(ResolutionPlan::ReadPersisted(LookupKey::Number(n))),
        BlockReference::Hash(h) => Ok(ResolutionPlan::ReadPersisted(LookupKey::Hash(h))),
    }
}

/// The height a lookup key denotes in a given store snapshot, if any.
/// `Latest` denotes the tip; a number denotes itself if in range; a hash
/// denotes the unique height holding it.  `Pending` denotes no height.
pub open spec fn spec_index_for_ref(store: StorageView, rv: BlockRefView) -> Option<int> {
    match rv {
        BlockRefView::Pending => None,
        BlockRefView::Latest => if store.blocks@.len() > 0 {
            Some(store.blocks@.len() - 1)
        } else {
            None
        },
        BlockRefView::Number(n) => if n < store.blocks@.len() {
            Some(n as int)
        } else {
            None
        },
        BlockRefView::Hash(h) => if exists|i: int|
            0 <= i < store.blocks@.len() && (#[trigger] store.blocks@[i]).header.hash@ == h {
            Some(
                choose|i: int|
                    0 <= i < store.blocks@.len() && (#[trigger] store.blocks@[i]).header.hash@
                        == h,
            )
        } else {
            None
        },
    }
}

/// The parsed request input: the block identifier to query.
#[derive(PartialEq, Eq, Debug)]
pub struct GetBlockInput {
    pub block_id: BlockReference,
}

impl View for GetBlockInput {
    type V = BlockRefView;

    open spec fn view(&self) -> BlockRefView {
        self.block_id@
    }
}

/// Meaning of a block identifier in the wire schema: the bare tags
/// `"pending"` and `"latest"`, or an object with exactly one member,
/// `block_number` holding an unsigned integer or `block_hash` holding a
/// hex digest string.  Anything else — in particular an unknown or extra
/// member — is invalid.
pub open spec fn spec_parse_block_ref(v: JsonValue) -> Option<BlockRefView> {
    match v {
        JsonValue::Str(s) => if s@ == "pending"@ {
            Some(BlockRefView::Pending)
        } else if s@ == "latest"@ {
            Some(BlockRefView::Latest)
        } else {
            None
        },
        JsonValue::Object(fields) => if fields@.len() == 1 {
            if fields@[0].0@ == "block_number"@ {
                match fields@[0].1 {
                    JsonValue::UInt(n) => Some(BlockRefView::Number(n)),
                    _ => None,
                }
            } else if fields@[0].0@ == "block_hash"@ {
                match fields@[0].1 {
                    JsonValue::Str(s) => match parse_hex_digest(s@) {
                        Some(b) => Some(BlockRefView::Hash(b)),
                        None => None,
                    },
                    _ => None,
                }
            } else {
                None
            }
        } else {
            None
        },
        _ => None,
    }
}

/// Meaning of the request parameters: either positional — an array with
/// exactly the block identifier — or named — an object with exactly the
/// `block_id` member.  Unknown or extra members are invalid.
pub open spec fn spec_parse_input(p: JsonValue) -> Option<BlockRefView> {
    match p {
        JsonValue::Array(items) => if items@.len() == 1 {
            spec_parse_block_ref(items@[0])
        } else {
            None
        },
        JsonValue::Object(fields) => if fields@.len() == 1 && fields@[0].0@ == "block_id"@ {
            spec_parse_block_ref(fields@[0].1)
        } else {
            None
        },
        _ => None,
    }
}

/// Parses one block identifier; fails exactly on schema violations.
pub fn parse_block_reference(v: &JsonValue) -> (r: Option<BlockReference>)
    ensures
        match r {
            Some(br) => spec_parse_block_ref(*v) == Some(br@),
            None => spec_parse_block_ref(*v) is None,
        },
{
    match v {
        JsonValue::Str(s) => {
            if crate::json::str_is(s, "pending") {
                Some(BlockReference::Pending)
            } else if crate::json::str_is(s, "latest") {
                Some(BlockReference::Latest)
            } else {
                None
            }
        },
        JsonValue::Object(fields) => {
            if fields.len() != 1 {
                return None;
            }
            let (key, value) = &fields[0];
            if crate::json::str_is(key, "block_number") {
                match value {
                    JsonValue::UInt(n) => Some(BlockReference::Number(*n)),
                    _ => None,
                }
            } else if crate::json::str_is(key, "block_hash") {
                match value {
                    JsonValue::Str(s) => match BlockHash::from_hex(s.as_str()) {
                        Some(h) => Some(BlockReference::Hash(h)),
                        None => None,
                    },
                    _ => None,
                }
            } else {
                None
            }
        },
        _ => None,
    }
}

impl GetBlockInput {
    /// Parses the request parameters, positional or named; fails exactly
    /// on schema violations.
    pub fn from_params(params: &JsonValue) -> (r: Option<GetBlockInput>)
        ensures
            match r {
                Some(inp) => spec_parse_input(*params) == Some(inp@),
                None => spec_parse_input(*params) is None,
            },
    {
        match params {
            JsonValue::Array(items) => {
                if items.len() != 1 {
                    return None;
                }
                match parse_block_reference(&items[0]) {
                    Some(br) => Some(GetBlockInput { block_id: br }),
                    None => None,
                }
            },
            JsonValue::Object(fields) => {
                if fields.len() != 1 {
                    return None;
                }
                let (key, value) = &fields[0];
                if !crate::json::str_is(key, "block_id") {
                    return None;
                }
                match parse_block_reference(value) {
                    Some(br) => Some(GetBlockInput { block_id: br }),
                    None => None,
                }
            },
            _ => None,
        }
    }
}

/// A block identifier encoded positionally and the same identifier passed
/// by name parse to the identical block reference: the argument style
/// never changes the resolved value.
pub proof fn lemma_positional_named_agree(p: JsonValue, q: JsonValue, v: JsonValue)
    requires
        p matches JsonValue::Array(items) && items@.len() == 1 && items@[0] == v,
        q matches JsonValue::Object(fields) && fields@.len() == 1 && fields@[0].0@ == "block_id"@
            && fields@[0].1 == v,
    ensures
        spec_parse_input(p) == spec_parse_block_ref(v),
        spec_parse_input(q) == spec_parse_block_ref(v),
        spec_parse_input(p) == spec_parse_input(q),
{
}

} // verus!
