use vstd::prelude::*;

verus! {

/// Errors surfaced by the read paths.
///
/// Failures of the wrapped cache are propagated unchanged; the decoration
/// layer itself only ever adds `AccessDenied`, raised by the per-record
/// access check on point lookups. Keeping `AccessDenied` distinct from
/// `PrimaryKeyNotFound` lets a caller tell "does not exist" apart from
/// "exists but is not visible to you".
#[derive(Clone, Copy, Debug, PartialEq, Eq)]
pub enum CacheError {
    /// The cache holds no record under the given primary key.
    PrimaryKeyNotFound,
    /// The cache has no schema loaded.
    SchemaNotFound,
    /// The record exists but the caller's access policy denies it.
    AccessDenied,
}

} // verus!
