use dozer_cache::{
    AccessFilter, CacheError, CacheReader, FilterExpression, MemCache, Operator, QueryExpression,
    Record, RecordWithId, RoCache,
};

fn record(id: u64, values: Vec<i64>) -> RecordWithId {
    RecordWithId { id, record: Record { values } }
}

fn no_filter() -> AccessFilter {
    AccessFilter { filter: None, fields: vec![] }
}

fn age_at_least(limit: i64) -> AccessFilter {
    AccessFilter {
        filter: Some(FilterExpression::Simple(1, Operator::Gte, limit)),
        fields: vec![],
    }
}

fn query_all() -> QueryExpression {
    QueryExpression { filter: None, skip: 0, limit: None }
}

fn age_over(limit: i64) -> QueryExpression {
    QueryExpression {
        filter: Some(FilterExpression::Simple(1, Operator::Gt, limit)),
        skip: 0,
        limit: None,
    }
}

/// Records `{id: 1, age: 30}`, `{id: 2, age: 15}`, `{id: 3, age: 20}`,
/// with field 0 the id and field 1 the age.
fn sample_cache() -> MemCache {
    let mut cache = MemCache::new();
    assert!(cache.insert(vec![1], record(1, vec![1, 30])));
    assert!(cache.insert(vec![2], record(2, vec![2, 15])));
    assert!(cache.insert(vec![3], record(3, vec![3, 20])));
    cache
}

fn ids(results: &[RecordWithId]) -> Vec<u64> {
    results.iter().map(|r| r.id).collect()
}

#[test]
fn merged_query_example() {
    let mut cache = MemCache::new();
    assert!(cache.insert(vec![1], record(1, vec![1, 30])));
    assert!(cache.insert(vec![2], record(2, vec![2, 15])));
    let reader = CacheReader::new(cache);

    let mut q = age_over(10);
    let results = reader.query(&mut q, age_at_least(18)).unwrap();
    assert_eq!(ids(&results), vec![1]);
    assert_eq!(results[0].record.values, vec![1, 30]);

    let mut q = age_over(10);
    assert_eq!(reader.count(&mut q, age_at_least(18)).unwrap(), 1);
}

#[test]
fn empty_access_filter_matches_direct_query() {
    let cache = sample_cache();
    let q = age_over(10);
    let direct = cache.query(&q).unwrap();
    let direct_count = cache.count(&q).unwrap();

    let reader = CacheReader::new(cache);
    let mut merged = q.clone();
    let through_reader = reader.query(&mut merged, no_filter()).unwrap();
    assert_eq!(merged, q);
    assert_eq!(ids(&through_reader), ids(&direct));
    assert_eq!(through_reader, direct);

    let mut merged = q.clone();
    assert_eq!(reader.count(&mut merged, no_filter()).unwrap(), direct.len());
    assert_eq!(direct_count, direct.len());
}

#[test]
fn merge_intersects_result_sets() {
    let reader = CacheReader::new(sample_cache());

    // The query starts with no predicate of its own.
    let mut q = query_all();
    let results = reader.query(&mut q, age_at_least(18)).unwrap();
    assert_eq!(ids(&results), vec![1, 3]);

    // The query starts with a predicate of its own.
    let mut q = age_over(25);
    let results = reader.query(&mut q, age_at_least(18)).unwrap();
    assert_eq!(ids(&results), vec![1]);
}

#[test]
fn record_visible_only_if_both_predicates_hold() {
    let reader = CacheReader::new(sample_cache());
    let mut q = age_over(17);
    let results = reader.query(&mut q, age_at_least(21)).unwrap();
    // id 1 (age 30) satisfies both; id 2 (age 15) fails both;
    // id 3 (age 20) satisfies the query predicate but fails the access one.
    assert!(ids(&results).contains(&1));
    assert!(!ids(&results).contains(&2));
    assert!(!ids(&results).contains(&3));
}

#[test]
fn count_equals_query_length() {
    let reader = CacheReader::new(sample_cache());
    let descriptors = vec![
        query_all(),
        age_over(10),
        age_over(100),
        QueryExpression { filter: None, skip: 1, limit: Some(1) },
        QueryExpression {
            filter: Some(FilterExpression::Simple(1, Operator::Gte, 18)),
            skip: 0,
            limit: Some(1),
        },
        QueryExpression { filter: None, skip: 9, limit: None },
    ];
    for q in descriptors {
        for af in [no_filter(), age_at_least(18)] {
            let mut for_query = q.clone();
            let mut for_count = q.clone();
            let results = reader.query(&mut for_query, af.clone()).unwrap();
            let count = reader.count(&mut for_count, af).unwrap();
            assert_eq!(count, results.len());
        }
    }
}

#[test]
fn pagination_windows_results() {
    let reader = CacheReader::new(sample_cache());
    let mut q = QueryExpression { filter: None, skip: 1, limit: Some(2) };
    let results = reader.query(&mut q, no_filter()).unwrap();
    assert_eq!(ids(&results), vec![2, 3]);

    let mut q = QueryExpression { filter: None, skip: 9, limit: None };
    let results = reader.query(&mut q, no_filter()).unwrap();
    assert_eq!(ids(&results), Vec::<u64>::new());

    let mut q = QueryExpression { filter: None, skip: 0, limit: Some(0) };
    let results = reader.query(&mut q, no_filter()).unwrap();
    assert_eq!(ids(&results), Vec::<u64>::new());
}

#[test]
fn merge_wraps_conjunction_access_first() {
    let reader = CacheReader::new(MemCache::new());
    let mut q = QueryExpression {
        filter: Some(FilterExpression::Simple(0, Operator::Eq, 5)),
        skip: 3,
        limit: Some(7),
    };
    reader.apply_access_filter(
        &mut q,
        AccessFilter {
            filter: Some(FilterExpression::Simple(1, Operator::Lt, 2)),
            fields: vec![],
        },
    );
    assert_eq!(q.skip, 3);
    assert_eq!(q.limit, Some(7));
    assert_eq!(
        q.filter,
        Some(FilterExpression::And(
            Box::new(FilterExpression::Simple(1, Operator::Lt, 2)),
            Box::new(FilterExpression::Simple(0, Operator::Eq, 5)),
        ))
    );
}

#[test]
fn merge_into_query_without_predicate_takes_access_predicate() {
    let reader = CacheReader::new(MemCache::new());
    let mut q = query_all();
    reader.apply_access_filter(&mut q, age_at_least(18));
    assert_eq!(q.filter, Some(FilterExpression::Simple(1, Operator::Gte, 18)));
    assert_eq!(q.skip, 0);
    assert_eq!(q.limit, None);
}

#[test]
fn merge_without_access_predicate_is_noop() {
    let reader = CacheReader::new(MemCache::new());
    let mut q = age_over(10);
    let before = q.clone();
    reader.apply_access_filter(
        &mut q,
        AccessFilter { filter: None, fields: vec!["age".to_string()] },
    );
    assert_eq!(q, before);
}

#[test]
fn get_returns_stored_record() {
    let reader = CacheReader::new(sample_cache());
    let rec = reader.get(&[1], &no_filter()).unwrap();
    assert_eq!(rec.id, 1);
    assert_eq!(rec.record.values, vec![1, 30]);

    // The check passes for a record the access predicate admits.
    let rec = reader.get(&[1], &age_at_least(18)).unwrap();
    assert_eq!(rec.id, 1);
}

#[test]
fn get_missing_key_is_not_found_whatever_the_filter() {
    let reader = CacheReader::new(sample_cache());
    assert_eq!(reader.get(&[9], &no_filter()), Err(CacheError::PrimaryKeyNotFound));
    assert_eq!(reader.get(&[9], &age_at_least(99)), Err(CacheError::PrimaryKeyNotFound));
}

#[test]
fn get_denied_record_is_not_disclosed() {
    let reader = CacheReader::new(sample_cache());
    // id 2 has age 15: it exists, but the policy denies it.
    assert_eq!(reader.get(&[2], &age_at_least(18)), Err(CacheError::AccessDenied));
    // The same key is visible without the predicate.
    assert!(reader.get(&[2], &no_filter()).is_ok());
}

#[test]
fn filtered_record_absent_even_with_pagination() {
    let reader = CacheReader::new(sample_cache());
    let mut q = QueryExpression { filter: None, skip: 0, limit: Some(2) };
    let results = reader.query(&mut q, age_at_least(18)).unwrap();
    assert!(!ids(&results).contains(&2));
    assert_eq!(ids(&results), vec![1, 3]);
}
