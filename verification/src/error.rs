//! The closed error vocabulary shared by all RPC methods, and the
//! per-method subset used by the block query.
//!
//! Each taxonomy kind is mapped, once and permanently, to a protocol error
//! code.  A method's error type is an enum holding exactly the kinds the
//! method declares (plus the universal internal catch-all), so returning an
//! undeclared kind is impossible by construction rather than by a runtime
//! check.

use vstd::prelude::*;

verus! {

/// Protocol code for "block not found".
pub const BLOCK_NOT_FOUND_CODE: i64 = 24;

/// Protocol code for "transaction not found".
pub const TRANSACTION_NOT_FOUND_CODE: i64 = 29;

/// The one reserved code for any internal fault.  It never varies with the
/// underlying cause, so no internal detail leaks through the code field.
pub const INTERNAL_ERROR_CODE: i64 = -32603;

/// The global, append-only vocabulary of failure kinds.  New kinds may be
/// added at the end; existing kinds and their codes never change.
#[derive(Clone, Copy, PartialEq, Eq, Structural, Debug)]
pub enum ErrorKind {
    BlockNotFound,
    TransactionNotFound,
    /// A pending-block query reached a node with no pending overlay
    /// configured.  The protocol has no dedicated code for this
    /// configuration-level absence, so it surfaces under the reserved
    /// internal code; the kind still exists so resolvers can report it
    /// distinctly from "not found".
    PendingNotSupported,
    Internal,
}

/// The permanent kind-to-code assignment.
pub open spec fn spec_error_code(k: ErrorKind) -> i64 {
    match k {
        ErrorKind::BlockNotFound => BLOCK_NOT_FOUND_CODE,
        ErrorKind::TransactionNotFound => TRANSACTION_NOT_FOUND_CODE,
        ErrorKind::PendingNotSupported => INTERNAL_ERROR_CODE,
        ErrorKind::Internal => INTERNAL_ERROR_CODE,
    }
}

/// Protocol error code of a taxonomy kind.
pub fn error_code(k: ErrorKind) -> (r: i64)
    ensures
        r == spec_error_code(k),
{
    match k {
        ErrorKind::BlockNotFound => BLOCK_NOT_FOUND_CODE,
        ErrorKind::TransactionNotFound => TRANSACTION_NOT_FOUND_CODE,
        ErrorKind::PendingNotSupported => INTERNAL_ERROR_CODE,
        ErrorKind::Internal => INTERNAL_ERROR_CODE,
    }
}

/// An internal fault: the catch-all member every method's error type
/// carries.  The message holds a causal-chain description for diagnostics;
/// only the generic code is exposed through the protocol's code field.
#[derive(PartialEq, Eq, Debug)]
pub struct InternalError {
    pub message: String,
}

impl Clone for InternalError {
    fn clone(&self) -> (r: Self)
        ensures
            r.message@ == self.message@,
    {
        InternalError { message: self.message.clone() }
    }
}

/// The error subset declared by the block query method: "block not found"
/// plus the universal internal catch-all.  No other kind can be constructed
/// in this type, which is the method's compile-time taxonomy contract.
#[derive(PartialEq, Eq, Debug)]
pub enum GetBlockError {
    BlockNotFound,
    Internal(InternalError),
}

impl GetBlockError {
    /// Folds a generic fault description into the internal catch-all.
    pub fn internal(message: &str) -> (r: Self)
        ensures
            r matches GetBlockError::Internal(e) && e.message@ == message@,
    {
        GetBlockError::Internal(InternalError { message: String::from_str(message) })
    }

    /// The taxonomy kind of this error value.
    pub open spec fn spec_kind(&self) -> ErrorKind {
        match self {
            GetBlockError::BlockNotFound => ErrorKind::BlockNotFound,
            GetBlockError::Internal(_) => ErrorKind::Internal,
        }
    }

    /// The protocol error code: the permanent code of the error's kind.
    pub fn code(&self) -> (r: i64)
        ensures
            r == spec_error_code(self.spec_kind()),
    {
        match self {
            GetBlockError::BlockNotFound => error_code(ErrorKind::BlockNotFound),
            GetBlockError::Internal(_) => error_code(ErrorKind::Internal),
        }
    }

    /// The human-readable message: a fixed phrase per declared kind, with
    /// the internal catch-all passing its causal-chain description through.
    pub fn message(&self) -> (r: String)
        ensures
            self matches GetBlockError::BlockNotFound ==> r@ == "Block not found"@,
            self matches GetBlockError::Internal(e) ==> r@ == e.message@,
    {
        match self {
            GetBlockError::BlockNotFound => String::from_str("Block not found"),
            GetBlockError::Internal(e) => e.message.clone(),
        }
    }
}

impl Clone for GetBlockError {
    fn clone(&self) -> (r: Self)
        ensures
            self matches GetBlockError::BlockNotFound ==> r matches GetBlockError::BlockNotFound,
            self matches GetBlockError::Internal(e) ==> (r matches GetBlockError::Internal(f)
                && f.message@ == e.message@),
    {
        match self {
            GetBlockError::BlockNotFound => GetBlockError::BlockNotFound,
            GetBlockError::Internal(e) => GetBlockError::Internal(e.clone()),
        }
    }
}

} // verus!
