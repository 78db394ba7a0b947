use vstd::prelude::*;

use crate::cache::{count_result, query_results, RoCache};
use crate::errors::CacheError;
use crate::expression::{
    evaluate, merged_filter, satisfies_opt, FilterExpression, QueryExpression,
};
use crate::types::{IndexDefinition, Record, RecordView, RecordWithId, Schema};

verus! {

/// One caller's read restriction, produced per request by an external
/// authorization step and consumed within a single call: an optional
/// predicate that every visible record must satisfy, and the names of
/// fields to be restricted.
///
/// The merge applies the predicate only; `fields` is carried for a
/// downstream layer to apply, as a declared-but-unenforced restriction.
#[derive(Debug, PartialEq, Clone)]
pub struct AccessFilter {
    /// Predicate a record must satisfy to be visible to the caller.
    pub filter: Option<FilterExpression>,
    /// Names of fields to be restricted in the caller's view.
    pub fields: Vec<String>,
}

/// Whether one record is visible under an access filter: an absent
/// predicate admits every record.
pub open spec fn access_allowed(access_filter: AccessFilter, values: Seq<i64>) -> bool {
    satisfies_opt(access_filter.filter, values)
}

/// The query descriptor after the access policy is merged in: only the
/// predicate changes; pagination is untouched.
pub open spec fn merged_query(q: QueryExpression, access_filter: AccessFilter) -> QueryExpression {
    QueryExpression { filter: merged_filter(q.filter, access_filter.filter), ..q }
}

/// Attaches a caller-supplied access policy to every read of the cache it
/// owns: queries and counts have the policy's predicate merged into their
/// descriptor before delegation, and point lookups are checked per record
/// after retrieval, fail-closed.
#[derive(Debug)]
pub struct CacheReader<C: RoCache> {
    cache: C,
}

impl<C: RoCache> CacheReader<C> {
    /// The wrapped cache's schema model, exposed for contracts.
    pub closed spec fn schema_model(&self) -> Option<(Schema, Vec<IndexDefinition>)> {
        self.cache.schema_model()
    }

    /// The wrapped cache's stored records, exposed for contracts.
    pub closed spec fn records(&self) -> Seq<RecordView> {
        self.cache.records()
    }

    /// The wrapped cache's records by primary key, exposed for contracts.
    pub closed spec fn key_map(&self) -> Map<Seq<u8>, RecordView> {
        self.cache.key_map()
    }

    /// Wraps an already-initialized read-only cache, taking sole ownership.
    pub fn new(cache: C) -> (r: Self)
        ensures
            r.schema_model() == cache.schema_model(),
            r.records() == cache.records(),
            r.key_map() == cache.key_map(),
    {
        Self { cache }
    }

    /// The per-record access check of the point-lookup path: succeeds
    /// exactly when the record satisfies the access filter's predicate,
    /// and otherwise denies access without disclosing the record. The
    /// filter's field-level restriction is not applied here; `fields` is
    /// exposed for a downstream layer to enforce.
    fn check_access(&self, rec: &Record, access_filter: &AccessFilter) -> (r: Result<
        (),
        CacheError,
    >)
        ensures
            match r {
                Result::Ok(_) => access_allowed(*access_filter, rec@),
                Result::Err(e) => e == CacheError::AccessDenied && !access_allowed(
                    *access_filter,
                    rec@,
                ),
            },
    {
        match &access_filter.filter {
            Option::None => Result::Ok(()),
            Option::Some(f) => {
                if evaluate(f, rec) {
                    Result::Ok(())
                } else {
                    Result::Err(CacheError::AccessDenied)
                }
            },
        }
    }

    /// Pass-through to the underlying cache: no access filtering applies
    /// to metadata, and no `AccessFilter` is even accepted here.
    pub fn get_schema(&self) -> (r: Result<&(Schema, Vec<IndexDefinition>), CacheError>)
        ensures
            match r {
                Result::Ok(s) => self.schema_model() == Option::Some(*s),
                Result::Err(e) => self.schema_model() is None && e == CacheError::SchemaNotFound,
            },
    {
        self.cache.get_schema()
    }

    /// Point lookup under a policy: the record stored under `key` when it
    /// exists and passes the per-record check; a not-found error exactly
    /// when the key is absent, whatever the policy; an access-denied error
    /// exactly when the record exists but fails the check.
    pub fn get(&self, key: &[u8], access_filter: &AccessFilter) -> (r: Result<
        RecordWithId,
        CacheError,
    >)
        ensures
            match r {
                Result::Ok(rw) => self.key_map().contains_key(key@) && rw@ == self.key_map()[key@]
                    && access_allowed(*access_filter, rw@.values),
                Result::Err(e) => (e == CacheError::PrimaryKeyNotFound && !self.key_map()
                    .contains_key(key@)) || (e == CacheError::AccessDenied && self.key_map()
                    .contains_key(key@) && !access_allowed(
                    *access_filter,
                    self.key_map()[key@].values,
                )),
            },
    {
        let record = match self.cache.get(key) {
            Result::Ok(record) => record,
            Result::Err(e) => {
                return Result::Err(e);
            },
        };
        match self.check_access(&record.record, access_filter) {
            Result::Ok(_) => Result::Ok(record),
            Result::Err(e) => Result::Err(e),
        }
    }

    /// Merges the access filter's predicate into the caller's query, in
    /// place. Only the predicate changes: an absent access predicate is a
    /// no-op; otherwise the query's predicate becomes the conjunction of
    /// the access predicate (first) and the caller's predicate (second),
    /// or the access predicate alone when the query had none.
    pub fn apply_access_filter(&self, query: &mut QueryExpression, access_filter: AccessFilter)
        ensures
            *final(query) == merged_query(*old(query), access_filter),
    {
        if let Option::Some(access_filter) = access_filter.filter {
            let filter = match query.filter.take() {
                Option::Some(query_filter) => FilterExpression::And(
                    Box::new(access_filter),
                    Box::new(query_filter),
                ),
                Option::None => access_filter,
            };
            query.filter = Option::Some(filter);
        }
    }

    /// Runs the caller's query with the access policy merged in: returns
    /// exactly the stored records that satisfy both the caller's predicate
    /// and the policy's, windowed by the query's pagination. The caller's
    /// `query` is left holding the merged descriptor.
    pub fn query(&self, query: &mut QueryExpression, access_filter: AccessFilter) -> (r: Result<
        Vec<RecordWithId>,
        CacheError,
    >)
        ensures
            *final(query) == merged_query(*old(query), access_filter),
            r matches Result::Ok(v) && v@.map_values(|rw: RecordWithId| rw@) == query_results(
                self.records(),
                merged_query(*old(query), access_filter),
            ),
    {
        self.apply_access_filter(query, access_filter);
        self.cache.query(&*query)
    }

    /// Counts under the same merge as `query`: the result equals the
    /// length of what `query` would return for the same inputs. The
    /// caller's `query` is left holding the merged descriptor.
    pub fn count(&self, query: &mut QueryExpression, access_filter: AccessFilter) -> (r: Result<
        usize,
        CacheError,
    >)
        ensures
            *final(query) == merged_query(*old(query), access_filter),
            r matches Result::Ok(n) && n == count_result(
                self.records(),
                merged_query(*old(query), access_filter),
            ),
    {
        self.apply_access_filter(query, access_filter);
        self.cache.count(&*query)
    }
}

} // verus!
