use vstd::prelude::*;

use crate::cache::{count_result, matching, query_results};
use crate::expression::{
    merged_filter, satisfies, satisfies_opt, FilterExpression, QueryExpression,
};
use crate::reader::{access_allowed, merged_query, AccessFilter};
use crate::types::RecordView;

verus! {

/// Law: pointwise, the merged predicate is the conjunction of the two it
/// was merged from — a record satisfies it exactly when it satisfies both
/// the access predicate and the query's own predicate, whichever of the
/// two is absent.
pub proof fn lemma_merged_filter_is_conjunction(
    query_filter: Option<FilterExpression>,
    access: Option<FilterExpression>,
    values: Seq<i64>,
)
    ensures
        satisfies_opt(merged_filter(query_filter, access), values) <==> (satisfies_opt(
            access,
            values,
        ) && satisfies_opt(query_filter, values)),
{
}

/// A record is in the matching sequence exactly when it is stored and
/// satisfies the predicate.
pub proof fn lemma_matching_membership(
    records: Seq<RecordView>,
    filter: Option<FilterExpression>,
    rv: RecordView,
)
    ensures
        matching(records, filter).contains(rv) <==> (records.contains(rv) && satisfies_opt(
            filter,
            rv.values,
        )),
    decreases records.len(),
{
    if records.len() == 0 {
    } else {
        let prefix = records.drop_last();
        let last = records.last();
        let rest = matching(prefix, filter);
        lemma_matching_membership(prefix, filter, rv);
        assert(records.contains(rv) <==> (prefix.contains(rv) || rv == last)) by {
            if records.contains(rv) {
                let i = choose|i: int| 0 <= i < records.len() && records[i] == rv;
                if i < records.len() - 1 {
                    assert(prefix[i] == rv);
                }
            }
            if prefix.contains(rv) {
                let i = choose|i: int| 0 <= i < prefix.len() && prefix[i] == rv;
                assert(records[i] == rv);
            }
            if rv == last {
                assert(records[records.len() - 1] == rv);
            }
        }
        if satisfies_opt(filter, last.values) {
            assert(rest.push(last).contains(rv) <==> (rest.contains(rv) || rv == last)) by {
                if rest.push(last).contains(rv) {
                    let i = choose|i: int|
                        0 <= i < rest.push(last).len() && rest.push(last)[i] == rv;
                    if i < rest.len() {
                        assert(rest[i] == rv);
                    }
                }
                if rest.contains(rv) {
                    let i = choose|i: int| 0 <= i < rest.len() && rest[i] == rv;
                    assert(rest.push(last)[i] == rv);
                }
                assert(rest.push(last)[rest.len() as int] == last);
            }
        }
    }
}

/// Law: an access filter with no predicate is a no-op — the merged query
/// is the caller's own, so the query yields what the underlying cache
/// would yield for it directly, and the count agrees with that result's
/// length.
pub proof fn lemma_no_access_predicate_is_noop(
    records: Seq<RecordView>,
    q: QueryExpression,
    access_filter: AccessFilter,
)
    requires
        access_filter.filter is None,
    ensures
        merged_query(q, access_filter) == q,
        query_results(records, merged_query(q, access_filter)) == query_results(records, q),
        count_result(records, merged_query(q, access_filter)) == count_result(records, q),
{
    assert(merged_query(q, access_filter) =~= q);
}

/// Law: for a non-empty access predicate, the merged predicate's result
/// set is exactly the set-intersection of the stored records matching the
/// query's predicate and those matching the access predicate, whichever
/// branch (absent or present) the query's own predicate started in.
pub proof fn lemma_merged_result_set(
    records: Seq<RecordView>,
    query_filter: Option<FilterExpression>,
    access: FilterExpression,
    rv: RecordView,
)
    ensures
        matching(records, merged_filter(query_filter, Option::Some(access))).contains(rv) <==> (
        matching(records, query_filter).contains(rv) && satisfies(access, rv.values)),
        matching(records, merged_filter(query_filter, Option::Some(access))).contains(rv) <==> (
        records.contains(rv) && satisfies_opt(query_filter, rv.values) && satisfies(
            access,
            rv.values,
        )),
{
    lemma_merged_filter_is_conjunction(query_filter, Option::Some(access), rv.values);
    lemma_matching_membership(records, merged_filter(query_filter, Option::Some(access)), rv);
    lemma_matching_membership(records, query_filter, rv);
}

/// Law: an unpaginated query under a merged policy shows a stored record
/// exactly when the record satisfies both the access filter and the
/// query's own predicate — so a record failing either is absent from the
/// result.
pub proof fn lemma_record_visibility(
    records: Seq<RecordView>,
    q: QueryExpression,
    access_filter: AccessFilter,
    rv: RecordView,
)
    requires
        q.skip == 0,
        q.limit is None,
    ensures
        query_results(records, merged_query(q, access_filter)).contains(rv) <==> (records.contains(
            rv,
        ) && access_allowed(access_filter, rv.values) && satisfies_opt(q.filter, rv.values)),
{
    let m = matching(records, merged_filter(q.filter, access_filter.filter));
    lemma_merged_filter_is_conjunction(q.filter, access_filter.filter, rv.values);
    lemma_matching_membership(records, merged_filter(q.filter, access_filter.filter), rv);
    assert(query_results(records, merged_query(q, access_filter)) =~= m);
}

/// Law: a stored record that fails either the access predicate or the
/// query's own predicate is absent from the query's result, whatever
/// pagination the query carries.
pub proof fn lemma_filtered_record_absent(
    records: Seq<RecordView>,
    q: QueryExpression,
    access_filter: AccessFilter,
    rv: RecordView,
)
    requires
        !access_allowed(access_filter, rv.values) || !satisfies_opt(q.filter, rv.values),
    ensures
        !query_results(records, merged_query(q, access_filter)).contains(rv),
{
    lemma_merged_filter_is_conjunction(q.filter, access_filter.filter, rv.values);
    lemma_matching_membership(records, merged_filter(q.filter, access_filter.filter), rv);
    let m = matching(records, merged_filter(q.filter, access_filter.filter));
    let res = query_results(records, merged_query(q, access_filter));
    if res.contains(rv) {
        let i = choose|i: int| 0 <= i < res.len() && res[i] == rv;
        let lo = if q.skip <= m.len() {
            q.skip as int
        } else {
            m.len() as int
        };
        assert(m[lo + i] == rv && 0 <= lo + i < m.len());
        assert(m.contains(rv));
    }
}

/// Law: a count always equals the length of the query result for the same
/// descriptor — the two read paths are consistent.
pub proof fn lemma_count_consistent_with_query(records: Seq<RecordView>, q: QueryExpression)
    ensures
        count_result(records, q) == query_results(records, q).len(),
{
}

} // verus!
