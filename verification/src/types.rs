use vstd::prelude::*;

verus! {

/// One stored row: its field values, in schema order.
///
/// The cache owns records; the decoration layer passes them through
/// unchanged and only ever reads their field values when evaluating a
/// predicate for the per-record access check.
#[derive(Debug, PartialEq)]
pub struct Record {
    pub values: Vec<i64>,
}

/// A record together with the identifier the cache assigned to it.
#[derive(Debug, PartialEq)]
pub struct RecordWithId {
    pub id: u64,
    pub record: Record,
}

/// Mathematical model of a stored record: its identifier and the sequence
/// of its field values. Contracts throughout the crate speak of records
/// through this view.
#[verifier::ext_equal]
pub struct RecordView {
    pub id: u64,
    pub values: Seq<i64>,
}

impl View for Record {
    type V = Seq<i64>;

    open spec fn view(&self) -> Seq<i64> {
        self.values@
    }
}

impl View for RecordWithId {
    type V = RecordView;

    open spec fn view(&self) -> RecordView {
        RecordView { id: self.id, values: self.record@ }
    }
}

/// Schema metadata: field names and the positions forming the primary key.
/// The reader exposes it read-only and never interprets it.
#[derive(Debug, PartialEq, Clone)]
pub struct Schema {
    pub fields: Vec<String>,
    pub primary_index: Vec<usize>,
}

/// A secondary-index description, passed through unchanged beside the schema.
#[derive(Debug, PartialEq, Clone)]
pub enum IndexDefinition {
    /// A sorted index over the named field positions.
    SortedInverted(Vec<usize>),
    /// A full-text index over one field position.
    FullText(usize),
}

fn clone_values(v: &Vec<i64>) -> (r: Vec<i64>)
    ensures
        r@ == v@,
{
    let mut r: Vec<i64> = Vec::new();
    let mut i: usize = 0;
    while i < v.len()
        invariant
            i <= v.len(),
            r@ == v@.take(i as int),
        decreases v.len() - i,
    {
        r.push(v[i]);
        proof {
            assert(r@ =~= v@.take(i + 1));
        }
        i += 1;
    }
    proof {
        assert(r@ =~= v@);
    }
    r
}

impl Clone for Record {
    /// Cloning preserves the record's field values.
    fn clone(&self) -> (r: Self)
        ensures
            r@ == self@,
    {
        Record { values: clone_values(&self.values) }
    }
}

impl Clone for RecordWithId {
    /// Cloning preserves the identifier and the field values.
    fn clone(&self) -> (r: Self)
        ensures
            r@ == self@,
    {
        RecordWithId { id: self.id, record: self.record.clone() }
    }
}

} // verus!
