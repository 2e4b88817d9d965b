//! The error taxonomy of the persistence layer.

use vstd::prelude::*;

verus! {

/// Classified failures of the persistence layer.
///
/// Every operation returns one of these rather than aborting; the kinds are
/// distinct so a caller can treat cardinality violations on the read path
/// (`NotFound`, `AmbiguousResult`) separately from transport-level faults.
#[derive(Clone, Copy, Debug, PartialEq, Eq, Structural)]
pub enum StoreError {
    /// A required connection parameter is missing: fatal at startup, the
    /// process cannot proceed.
    Configuration,
    /// The pool is exhausted or a connection could not be acquired; the
    /// caller may retry.
    Connection,
    /// The store rejected a statement (constraint violation, type mismatch);
    /// propagated verbatim, never retried.
    Operation,
    /// A read by key matched no row.
    NotFound,
    /// A read that expects exactly one row matched more than one.
    AmbiguousResult,
}

} // verus!
