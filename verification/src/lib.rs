//! Query-resolution core for a blockchain node's JSON-RPC layer.
//!
//! Given a client-supplied block identifier (the `"pending"` / `"latest"`
//! tags, a numeric height, or a content hash), the crate classifies the
//! identifier, resolves it against either an in-memory pending overlay or a
//! persisted block store, derives the layer-1 finality status, and assembles
//! a versioned wire reply carrying the block's header fields and its ordered
//! list of transaction hashes.  Failures are reported through a closed error
//! vocabulary with a fixed mapping to protocol error codes.

pub mod digest;
pub mod error;
pub mod handler;
pub mod json;
pub mod pending;
pub mod reply;
pub mod resolver;
pub mod storage;
