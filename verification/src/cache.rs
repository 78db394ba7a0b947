use vstd::prelude::*;

use crate::errors::CacheError;
use crate::expression::{satisfies_opt, FilterExpression, QueryExpression};
use crate::types::{IndexDefinition, RecordView, RecordWithId, Schema};

verus! {

/// The records, in storage order, that satisfy a predicate.
pub open spec fn matching(
    records: Seq<RecordView>,
    filter: Option<FilterExpression>,
) -> Seq<RecordView>
    decreases records.len(),
{
    if records.len() == 0 {
        Seq::empty()
    } else {
        let rest = matching(records.drop_last(), filter);
        if satisfies_opt(filter, records.last().values) {
            rest.push(records.last())
        } else {
            rest
        }
    }
}

/// The window of a result sequence selected by a query's pagination
/// parameters: `skip` leading records are dropped, then at most `limit`
/// records are kept.
pub open spec fn page(
    results: Seq<RecordView>,
    skip: usize,
    limit: Option<usize>,
) -> Seq<RecordView> {
    let lo = if skip <= results.len() {
        skip as int
    } else {
        results.len() as int
    };
    let hi = match limit {
        Option::None => results.len() as int,
        Option::Some(l) => if lo + l <= results.len() {
            lo + l
        } else {
            results.len() as int
        },
    };
    results.subrange(lo, hi)
}

/// Everything a query returns: the stored records that satisfy its
/// predicate, windowed by its pagination parameters.
pub open spec fn query_results(records: Seq<RecordView>, q: QueryExpression) -> Seq<RecordView> {
    page(matching(records, q.filter), q.skip, q.limit)
}

/// What a count reports: the length of the corresponding query result.
pub open spec fn count_result(records: Seq<RecordView>, q: QueryExpression) -> nat {
    query_results(records, q).len()
}

/// The read-only cache contract the decoration layer consumes.
///
/// An implementation behaves as a pure view of its model: `records` gives
/// the stored records in storage order, `key_map` the same records under
/// their primary keys, and `schema_model` the loaded schema, if any. The
/// decoration layer never writes through this trait.
pub trait RoCache: Sized {
    /// The schema and index definitions the cache was opened with, if any.
    spec fn schema_model(&self) -> Option<(Schema, Vec<IndexDefinition>)>;

    /// The stored records, in storage order.
    spec fn records(&self) -> Seq<RecordView>;

    /// The stored records, keyed by primary key bytes.
    spec fn key_map(&self) -> Map<Seq<u8>, RecordView>;

    /// Returns the schema, or fails when none is loaded.
    fn get_schema(&self) -> (r: Result<&(Schema, Vec<IndexDefinition>), CacheError>)
        ensures
            match r {
                Result::Ok(s) => self.schema_model() == Option::Some(*s),
                Result::Err(e) => self.schema_model() is None && e == CacheError::SchemaNotFound,
            },
    ;

    /// Point lookup: the record stored under `key`, or a not-found error
    /// exactly when no record is stored under it.
    fn get(&self, key: &[u8]) -> (r: Result<RecordWithId, CacheError>)
        ensures
            match r {
                Result::Ok(rw) => self.key_map().contains_key(key@) && rw@ == self.key_map()[key@],
                Result::Err(e) => !self.key_map().contains_key(key@) && e
                    == CacheError::PrimaryKeyNotFound,
            },
    ;

    /// Runs a query: returns exactly the stored records that satisfy the
    /// query's predicate, in storage order, windowed by its pagination.
    fn query(&self, query: &QueryExpression) -> (r: Result<Vec<RecordWithId>, CacheError>)
        ensures
            r matches Result::Ok(v) && v@.map_values(|rw: RecordWithId| rw@) == query_results(
                self.records(),
                *query,
            ),
    ;

    /// Counts what `query` would return for the same descriptor.
    fn count(&self, query: &QueryExpression) -> (r: Result<usize, CacheError>)
        ensures
            r matches Result::Ok(n) && n == count_result(self.records(), *query),
    ;
}

} // verus!
