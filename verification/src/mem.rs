use vstd::prelude::*;

use crate::cache::{matching, page, RoCache};
use crate::errors::CacheError;
use crate::expression::{evaluate, QueryExpression};
use crate::types::{IndexDefinition, RecordView, RecordWithId, Schema};

verus! {

/// The entries as the model sees them: primary key bytes beside the
/// record view, in storage order.
pub open spec fn entry_views(entries: Seq<(Vec<u8>, RecordWithId)>) -> Seq<(Seq<u8>, RecordView)> {
    entries.map_values(|e: (Vec<u8>, RecordWithId)| (e.0@, e.1@))
}

/// The key-to-record map an entry sequence denotes; a later entry under
/// the same key shadows an earlier one.
pub open spec fn map_of(entries: Seq<(Seq<u8>, RecordView)>) -> Map<Seq<u8>, RecordView>
    decreases entries.len(),
{
    if entries.len() == 0 {
        Map::empty()
    } else {
        map_of(entries.drop_last()).insert(entries.last().0, entries.last().1)
    }
}

proof fn lemma_map_of_found(entries: Seq<(Seq<u8>, RecordView)>, i: int, key: Seq<u8>)
    requires
        0 <= i < entries.len(),
        entries[i].0 == key,
        forall|j: int| i < j < entries.len() ==> entries[j].0 != key,
    ensures
        map_of(entries).contains_key(key),
        map_of(entries)[key] == entries[i].1,
    decreases entries.len(),
{
    if i == entries.len() - 1 {
    } else {
        assert(entries.drop_last()[i] == entries[i]);
        lemma_map_of_found(entries.drop_last(), i, key);
    }
}

proof fn lemma_map_of_absent(entries: Seq<(Seq<u8>, RecordView)>, key: Seq<u8>)
    requires
        forall|j: int| 0 <= j < entries.len() ==> entries[j].0 != key,
    ensures
        !map_of(entries).contains_key(key),
    decreases entries.len(),
{
    if entries.len() > 0 {
        lemma_map_of_absent(entries.drop_last(), key);
    }
}

/// Compares two byte strings.
fn bytes_eq(a: &[u8], b: &[u8]) -> (r: bool)
    ensures
        r == (a@ == b@),
{
    if a.len() != b.len() {
        return false;
    }
    let mut i: usize = 0;
    while i < a.len()
        invariant
            a@.len() == b@.len(),
            i <= a.len(),
            forall|j: int| 0 <= j < i ==> a@[j] == b@[j],
        decreases a.len() - i,
    {
        if a[i] != b[i] {
            proof {
                assert(a@[i as int] != b@[i as int]);
            }
            return false;
        }
        i += 1;
    }
    proof {
        assert(a@ =~= b@);
    }
    true
}

/// A read-only cache held in memory: an append-only entry list behind the
/// `RoCache` contract. It exists so that the decoration layer can be
/// exercised end to end against a cache whose behaviour is itself
/// verified against the same contract.
#[derive(Debug)]
pub struct MemCache {
    schema: Option<(Schema, Vec<IndexDefinition>)>,
    entries: Vec<(Vec<u8>, RecordWithId)>,
}

impl MemCache {
    /// An empty cache with no schema loaded.
    pub fn new() -> (r: Self)
        ensures
            r.schema_model() is None,
            r.records() == Seq::<RecordView>::empty(),
            r.key_map() == Map::<Seq<u8>, RecordView>::empty(),
    {
        let r = MemCache { schema: Option::None, entries: Vec::new() };
        proof {
            assert(entry_views(r.entries@) =~= Seq::<(Seq<u8>, RecordView)>::empty());
            assert(r.records() =~= Seq::<RecordView>::empty());
        }
        r
    }

    /// Loads the schema the cache reports from then on.
    pub fn set_schema(&mut self, schema: Schema, indexes: Vec<IndexDefinition>)
        ensures
            final(self).schema_model() == Option::Some((schema, indexes)),
            final(self).records() == old(self).records(),
            final(self).key_map() == old(self).key_map(),
    {
        self.schema = Option::Some((schema, indexes));
    }

    /// Stores a record under a primary key. Returns whether the key was
    /// new; a key already present leaves the cache unchanged.
    pub fn insert(&mut self, key: Vec<u8>, record: RecordWithId) -> (ok: bool)
        ensures
            ok == !old(self).key_map().contains_key(key@),
            ok ==> final(self).records() == old(self).records().push(record@),
            ok ==> final(self).key_map() == old(self).key_map().insert(key@, record@),
            ok ==> final(self).schema_model() == old(self).schema_model(),
            !ok ==> *final(self) == *old(self),
    {
        if self.contains_key(key.as_slice()) {
            return false;
        }
        proof {
            let ghost pushed = self.entries@.push((key, record));
            assert(entry_views(pushed).drop_last() =~= entry_views(self.entries@));
            assert(pushed.map_values(|e: (Vec<u8>, RecordWithId)| e.1@) =~= self.entries@
                .map_values(|e: (Vec<u8>, RecordWithId)| e.1@).push(record@));
        }
        self.entries.push((key, record));
        true
    }

    /// Whether a record is stored under the given key.
    pub fn contains_key(&self, key: &[u8]) -> (r: bool)
        ensures
            r == self.key_map().contains_key(key@),
    {
        let ghost views = entry_views(self.entries@);
        let mut i: usize = self.entries.len();
        while i > 0
            invariant
                i <= self.entries.len(),
                views == entry_views(self.entries@),
                forall|j: int| i <= j < views.len() ==> views[j].0 != key@,
            decreases i,
        {
            i -= 1;
            if bytes_eq(key, self.entries[i].0.as_slice()) {
                proof {
                    lemma_map_of_found(views, i as int, key@);
                }
                return true;
            }
        }
        proof {
            lemma_map_of_absent(views, key@);
        }
        false
    }
}

impl RoCache for MemCache {
    closed spec fn schema_model(&self) -> Option<(Schema, Vec<IndexDefinition>)> {
        self.schema
    }

    closed spec fn records(&self) -> Seq<RecordView> {
        self.entries@.map_values(|e: (Vec<u8>, RecordWithId)| e.1@)
    }

    closed spec fn key_map(&self) -> Map<Seq<u8>, RecordView> {
        map_of(entry_views(self.entries@))
    }

    fn get_schema(&self) -> (r: Result<&(Schema, Vec<IndexDefinition>), CacheError>) {
        match &self.schema {
            Option::Some(pair) => Result::Ok(pair),
            Option::None => Result::Err(CacheError::SchemaNotFound),
        }
    }

    fn get(&self, key: &[u8]) -> (r: Result<RecordWithId, CacheError>) {
        let ghost views = entry_views(self.entries@);
        let mut i: usize = self.entries.len();
        while i > 0
            invariant
                i <= self.entries.len(),
                views == entry_views(self.entries@),
                forall|j: int| i <= j < views.len() ==> views[j].0 != key@,
            decreases i,
        {
            i -= 1;
            if bytes_eq(key, self.entries[i].0.as_slice()) {
                proof {
                    lemma_map_of_found(views, i as int, key@);
                }
                return Result::Ok(self.entries[i].1.clone());
            }
        }
        proof {
            lemma_map_of_absent(views, key@);
        }
        Result::Err(CacheError::PrimaryKeyNotFound)
    }

    fn query(&self, query: &QueryExpression) -> (r: Result<Vec<RecordWithId>, CacheError>) {
        let ghost all = self.records();
        let mut matched: Vec<RecordWithId> = Vec::new();
        let mut i: usize = 0;
        while i < self.entries.len()
            invariant
                i <= self.entries.len(),
                all == self.records(),
                matched@.map_values(|rw: RecordWithId| rw@) == matching(
                    all.take(i as int),
                    query.filter,
                ),
            decreases self.entries.len() - i,
        {
            let rw = &self.entries[i].1;
            let keep = match &query.filter {
                Option::None => true,
                Option::Some(f) => evaluate(f, &rw.record),
            };
            proof {
                assert(all.take(i + 1).drop_last() =~= all.take(i as int));
                assert(all.take(i + 1).last() == all[i as int]);
            }
            if keep {
                matched.push(rw.clone());
                proof {
                    assert(matched@.map_values(|rw: RecordWithId| rw@) =~= matching(
                        all.take(i as int),
                        query.filter,
                    ).push(all[i as int]));
                }
            }
            i += 1;
        }
        proof {
            assert(all.take(self.entries@.len() as int) =~= all);
        }
        let ghost matched_views = matching(all, query.filter);
        let len = matched.len();
        let lo = if query.skip <= len {
            query.skip
        } else {
            len
        };
        let hi = match query.limit {
            Option::None => len,
            Option::Some(l) => if l <= len - lo {
                lo + l
            } else {
                len
            },
        };
        let mut out: Vec<RecordWithId> = Vec::new();
        let mut j: usize = lo;
        while j < hi
            invariant
                lo <= j <= hi <= matched.len(),
                matched@.map_values(|rw: RecordWithId| rw@) == matched_views,
                out@.map_values(|rw: RecordWithId| rw@) == matched_views.subrange(
                    lo as int,
                    j as int,
                ),
            decreases hi - j,
        {
            let rec = matched[j].clone();
            proof {
                assert(matched@.map_values(|rw: RecordWithId| rw@)[j as int] == matched@[
                    j as int
                ]@);
                assert(rec@ == matched_views[j as int]);
            }
            out.push(rec);
            proof {
                assert(out@.map_values(|rw: RecordWithId| rw@) =~= matched_views.subrange(
                    lo as int,
                    j as int,
                ).push(matched_views[j as int]));
                assert(matched_views.subrange(lo as int, j as int).push(matched_views[j as int])
                    =~= matched_views.subrange(lo as int, j + 1));
            }
            j += 1;
        }
        proof {
            assert(out@.map_values(|rw: RecordWithId| rw@) =~= page(
                matched_views,
                query.skip,
                query.limit,
            ));
        }
        Result::Ok(out)
    }

    fn count(&self, query: &QueryExpression) -> (r: Result<usize, CacheError>) {
        match self.query(query) {
            Result::Ok(v) => Result::Ok(v.len()),
            Result::Err(e) => Result::Err(e),
        }
    }
}

} // verus!
