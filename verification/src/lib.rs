//! Access-control decoration over a read-only cache.
//!
//! A [`CacheReader`] wraps a read-only cache and, on every read, merges the
//! caller's [`AccessFilter`] into the request before delegating, so that the
//! cache itself never needs to know about access control.

pub mod cache;
pub mod errors;
pub mod expression;
pub mod laws;
pub mod mem;
pub mod reader;
pub mod types;

pub use cache::RoCache;
pub use errors::CacheError;
pub use expression::{FilterExpression, Operator, QueryExpression};
pub use mem::MemCache;
pub use reader::{AccessFilter, CacheReader};
pub use types::{IndexDefinition, Record, RecordWithId, Schema};
