use vstd::prelude::*;

use crate::types::Record;

verus! {

/// Comparison applied by a simple predicate to one record field.
#[derive(Clone, Copy, Debug, PartialEq, Eq)]
pub enum Operator {
    Eq,
    Ne,
    Lt,
    Lte,
    Gt,
    Gte,
}

/// A composable boolean expression over record fields.
///
/// The decoration layer treats predicates as opaque values: the only
/// operation it ever performs on them is wrapping two predicates in a
/// conjunction node.
#[derive(Debug, PartialEq)]
pub enum FilterExpression {
    /// Compares the field at the given position against a constant.
    /// A position beyond the record's last field matches no record.
    Simple(usize, Operator, i64),
    /// Holds when both sub-predicates hold.
    And(Box<FilterExpression>, Box<FilterExpression>),
}

/// A query descriptor: an optional predicate, plus pagination parameters
/// that the decoration layer never touches.
#[derive(Debug, PartialEq, Clone)]
#[verifier::ext_equal]
pub struct QueryExpression {
    pub filter: Option<FilterExpression>,
    pub skip: usize,
    pub limit: Option<usize>,
}

/// What one comparison means on integer field values.
pub open spec fn operator_matches(op: Operator, lhs: i64, rhs: i64) -> bool {
    match op {
        Operator::Eq => lhs == rhs,
        Operator::Ne => lhs != rhs,
        Operator::Lt => lhs < rhs,
        Operator::Lte => lhs <= rhs,
        Operator::Gt => lhs > rhs,
        Operator::Gte => lhs >= rhs,
    }
}

/// What it means for a record's field values to satisfy a predicate.
pub open spec fn satisfies(f: FilterExpression, values: Seq<i64>) -> bool
    decreases f,
{
    match f {
        FilterExpression::Simple(ix, op, val) => ix < values.len() && operator_matches(
            op,
            values[ix as int],
            val,
        ),
        FilterExpression::And(a, b) => satisfies(*a, values) && satisfies(*b, values),
    }
}

/// An absent predicate restricts nothing.
pub open spec fn satisfies_opt(f: Option<FilterExpression>, values: Seq<i64>) -> bool {
    match f {
        Option::None => true,
        Option::Some(f) => satisfies(f, values),
    }
}

/// The predicate a query carries after the access policy is merged in:
/// an absent access predicate leaves the query's own predicate untouched;
/// otherwise the two are joined in a conjunction, access predicate first.
pub open spec fn merged_filter(
    query_filter: Option<FilterExpression>,
    access: Option<FilterExpression>,
) -> Option<FilterExpression> {
    match access {
        Option::None => query_filter,
        Option::Some(a) => Option::Some(
            match query_filter {
                Option::Some(q) => FilterExpression::And(Box::new(a), Box::new(q)),
                Option::None => a,
            },
        ),
    }
}

impl Clone for FilterExpression {
    /// Cloning preserves the predicate tree exactly.
    fn clone(&self) -> (r: Self)
        ensures
            r == *self,
        decreases *self,
    {
        match self {
            FilterExpression::Simple(ix, op, val) => FilterExpression::Simple(*ix, *op, *val),
            FilterExpression::And(a, b) => FilterExpression::And(
                Box::new((&**a).clone()),
                Box::new((&**b).clone()),
            ),
        }
    }
}

fn compare(op: Operator, lhs: i64, rhs: i64) -> (r: bool)
    ensures
        r == operator_matches(op, lhs, rhs),
{
    match op {
        Operator::Eq => lhs == rhs,
        Operator::Ne => lhs != rhs,
        Operator::Lt => lhs < rhs,
        Operator::Lte => lhs <= rhs,
        Operator::Gt => lhs > rhs,
        Operator::Gte => lhs >= rhs,
    }
}

/// Evaluates a predicate on one record.
pub fn evaluate(f: &FilterExpression, record: &Record) -> (r: bool)
    ensures
        r == satisfies(*f, record@),
    decreases *f,
{
    match f {
        FilterExpression::Simple(ix, op, val) => {
            if *ix < record.values.len() {
                compare(*op, record.values[*ix], *val)
            } else {
                false
            }
        },
        FilterExpression::And(a, b) => {
            if evaluate(a, record) {
                evaluate(b, record)
            } else {
                false
            }
        },
    }
}

} // verus!
