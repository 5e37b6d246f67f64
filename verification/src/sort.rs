//! The order in which the rows of a query come back.

use vstd::prelude::*;
use vstd::string::*;
use crate::key::Key;
use crate::util::{And, SortOrder};

verus! {

/// An order on the rows: a list of keys, the first of which counts most.
pub trait Sort {
    /// The terms that stand behind `ORDER BY`, in their order, `data_key` being the document
    /// column. No term means no order.
    spec fn order_by_spec(&self, data_key: Seq<char>) -> Seq<Seq<char>>;

    /// Renders the terms for a statement.
    fn order_by(&self, data_key: &str) -> (terms: Vec<String>)
        ensures
            terms.deep_view() == self.order_by_spec(data_key@),
    ;

    /// This order, and `second` among the rows that it leaves equal.
    fn and<B>(self, second: B) -> (both: And<Self, B>) where Self: Sized
        ensures
            both.first == self,
            both.second == second,
    {
        And { first: self, second }
    }
}

impl Sort for () {
    open spec fn order_by_spec(&self, data_key: Seq<char>) -> Seq<Seq<char>> {
        Seq::empty()
    }

    fn order_by(&self, data_key: &str) -> (terms: Vec<String>) {
        let terms: Vec<String> = Vec::new();
        assert(terms.deep_view() =~= Seq::<Seq<char>>::empty());
        terms
    }
}

impl<K: Key> Sort for SortOrder<K> {
    open spec fn order_by_spec(&self, data_key: Seq<char>) -> Seq<Seq<char>> {
        seq![self.key_spec(data_key)]
    }

    fn order_by(&self, data_key: &str) -> (terms: Vec<String>) {
        let mut terms: Vec<String> = Vec::new();
        terms.push(self.key(data_key));
        assert(terms.deep_view() =~= seq![self.key_spec(data_key@)]);
        terms
    }
}

impl<A: Sort, B: Sort> Sort for And<A, B> {
    open spec fn order_by_spec(&self, data_key: Seq<char>) -> Seq<Seq<char>> {
        self.first.order_by_spec(data_key) + self.second.order_by_spec(data_key)
    }

    fn order_by(&self, data_key: &str) -> (terms: Vec<String>) {
        let mut terms = self.first.order_by(data_key);
        let mut rest = self.second.order_by(data_key);
        let ghost first = terms.deep_view();
        let ghost second = rest.deep_view();
        terms.append(&mut rest);
        assert(terms.deep_view() =~= first + second);
        terms
    }
}

/// A sequence of orders keeps the terms of its parts, those of the first part first, however
/// the parts are grouped: the key that stands leftmost counts most.
pub proof fn sequence_keeps_priority<A: Sort, B: Sort, C: Sort>(
    a: A,
    b: B,
    c: C,
    data_key: Seq<char>,
)
    ensures
        (And { first: And { first: a, second: b }, second: c }).order_by_spec(data_key)
            == a.order_by_spec(data_key) + b.order_by_spec(data_key) + c.order_by_spec(data_key),
        (And { first: a, second: And { first: b, second: c } }).order_by_spec(data_key)
            == a.order_by_spec(data_key) + b.order_by_spec(data_key) + c.order_by_spec(data_key),
{
    assert(a.order_by_spec(data_key) + (b.order_by_spec(data_key) + c.order_by_spec(data_key))
        =~= a.order_by_spec(data_key) + b.order_by_spec(data_key) + c.order_by_spec(data_key));
}

} // verus!
