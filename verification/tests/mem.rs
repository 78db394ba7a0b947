use dozer_cache::{
    AccessFilter, CacheError, CacheReader, FilterExpression, IndexDefinition, MemCache, Operator,
    QueryExpression, Record, RecordWithId, RoCache, Schema,
};

fn record(id: u64, values: Vec<i64>) -> RecordWithId {
    RecordWithId { id, record: Record { values } }
}

#[test]
fn schema_roundtrip_through_reader() {
    let mut cache = MemCache::new();
    let schema = Schema {
        fields: vec!["id".to_string(), "age".to_string()],
        primary_index: vec![0],
    };
    let indexes = vec![IndexDefinition::SortedInverted(vec![0]), IndexDefinition::FullText(1)];
    cache.set_schema(schema.clone(), indexes.clone());
    assert!(cache.insert(vec![1], record(1, vec![1, 30])));

    let reader = CacheReader::new(cache);
    let got = reader.get_schema().unwrap();
    assert_eq!(got.0, schema);
    assert_eq!(got.1, indexes);
}

#[test]
fn schema_unaffected_by_access_filters() {
    let mut cache = MemCache::new();
    let schema = Schema {
        fields: vec!["id".to_string(), "age".to_string()],
        primary_index: vec![0],
    };
    cache.set_schema(schema.clone(), vec![]);
    assert!(cache.insert(vec![1], record(1, vec![1, 30])));
    let reader = CacheReader::new(cache);

    let before = reader.get_schema().unwrap().clone();
    // Read under a policy carrying a non-trivial predicate and non-empty
    // fields; the schema the reader reports afterwards is the same.
    let mut q = QueryExpression {
        filter: Some(FilterExpression::Simple(1, Operator::Gt, 0)),
        skip: 0,
        limit: None,
    };
    let restrictive = AccessFilter {
        filter: Some(FilterExpression::Simple(1, Operator::Gte, 18)),
        fields: vec!["age".to_string()],
    };
    reader.query(&mut q, restrictive.clone()).unwrap();
    let _ = reader.get(&[1], &restrictive);

    let after = reader.get_schema().unwrap();
    assert_eq!(&before, after);
    assert_eq!(after.0, schema);
}

#[test]
fn missing_schema_is_reported() {
    let reader = CacheReader::new(MemCache::new());
    assert_eq!(reader.get_schema(), Err(CacheError::SchemaNotFound));
}

#[test]
fn insert_rejects_duplicate_key() {
    let mut cache = MemCache::new();
    assert!(cache.insert(vec![1, 2], record(1, vec![10])));
    assert!(!cache.insert(vec![1, 2], record(2, vec![20])));
    assert!(cache.insert(vec![1, 3], record(2, vec![20])));

    // The first record is still the one stored under the first key.
    let got = cache.get(&[1, 2]).unwrap();
    assert_eq!(got.id, 1);
    assert_eq!(got.record.values, vec![10]);
}

#[test]
fn contains_key_tracks_insertions() {
    let mut cache = MemCache::new();
    assert!(!cache.contains_key(&[7]));
    assert!(cache.insert(vec![7], record(7, vec![])));
    assert!(cache.contains_key(&[7]));
    assert!(!cache.contains_key(&[7, 7]));
    assert!(!cache.contains_key(&[]));
}

#[test]
fn direct_get_distinguishes_keys_by_bytes() {
    let mut cache = MemCache::new();
    assert!(cache.insert(vec![0, 1], record(1, vec![1])));
    assert!(cache.insert(vec![1, 0], record(2, vec![2])));
    assert_eq!(cache.get(&[0, 1]).unwrap().id, 1);
    assert_eq!(cache.get(&[1, 0]).unwrap().id, 2);
    assert_eq!(cache.get(&[0]), Err(CacheError::PrimaryKeyNotFound));
    assert_eq!(cache.get(&[0, 1, 0]), Err(CacheError::PrimaryKeyNotFound));
}

#[test]
fn direct_query_preserves_storage_order() {
    let mut cache = MemCache::new();
    assert!(cache.insert(vec![3], record(3, vec![3])));
    assert!(cache.insert(vec![1], record(1, vec![1])));
    assert!(cache.insert(vec![2], record(2, vec![2])));
    let q = QueryExpression { filter: None, skip: 0, limit: None };
    let results = cache.query(&q).unwrap();
    let ids: Vec<u64> = results.iter().map(|r| r.id).collect();
    assert_eq!(ids, vec![3, 1, 2]);
    assert_eq!(cache.count(&q).unwrap(), 3);
}
