//! What a read gives back: rows, materialized into the caller's types.

use vstd::prelude::*;

verus! {

/// One row of a table: an id and the document that is stored under it.
#[derive(Debug)]
pub struct Entry<K, V> {
    /// The id.
    pub id: K,
    /// The document.
    pub data: V,
}

impl<K, V> Entry<K, V> {
    /// The document.
    pub fn data(&self) -> (document: &V)
        ensures
            *document == self.data,
    {
        &self.data
    }
}

/// A value that is stored as a document.
#[derive(Debug)]
pub struct Json<T>(pub T);

impl<T> Json<T> {
    /// The value.
    pub fn unwrap(self) -> (value: T)
        ensures
            value == self.0,
    {
        self.0
    }

    /// The value, by reference.
    pub fn as_ref(&self) -> (value: &T)
        ensures
            *value == self.0,
    {
        &self.0
    }
}

/// Whether `k` is the first of `rows` that failed.
pub open spec fn first_failure<T, E>(rows: Seq<Result<T, E>>, k: int) -> bool {
    &&& 0 <= k < rows.len()
    &&& rows[k] is Err
    &&& forall|j: int| 0 <= j < k ==> (#[trigger] rows[j]) is Ok
}

/// Gathers the rows of a read: the values of all of them, in their order, or the failure of
/// the first row that failed. No failure is passed over.
pub fn collect<T, E>(rows: Vec<Result<T, E>>) -> (all: Result<Vec<T>, E>)
    ensures
        all matches Ok(values) ==> values@.len() == rows@.len() && forall|i: int|
            0 <= i < rows@.len() ==> (#[trigger] rows@[i]) == Ok::<T, E>(values@[i]),
        all matches Err(e) ==> exists|k: int|
            first_failure(rows@, k) && (#[trigger] rows@[k]) == Err::<T, E>(e),
{
    let ghost all_rows = rows@;
    let mut rest = rows;
    let mut pending: Vec<Result<T, E>> = Vec::new();
    while rest.len() > 0
        invariant
            rest@.len() + pending@.len() == all_rows.len(),
            forall|i: int| 0 <= i < rest@.len() ==> rest@[i] == all_rows[i],
            forall|i: int|
                0 <= i < pending@.len() ==> pending@[i] == all_rows[all_rows.len() - 1 - i],
        decreases rest.len(),
    {
        let row = rest.pop().unwrap();
        pending.push(row);
    }
    let mut gathered: Vec<T> = Vec::new();
    while pending.len() > 0
        invariant
            all_rows == rows@,
            gathered@.len() + pending@.len() == all_rows.len(),
            forall|i: int|
                0 <= i < pending@.len() ==> pending@[i] == all_rows[all_rows.len() - 1 - i],
            forall|i: int|
                0 <= i < gathered@.len() ==> (#[trigger] all_rows[i]) == Ok::<T, E>(gathered@[i]),
        decreases pending.len(),
    {
        let ghost k = gathered@.len() as int;
        let row = pending.pop().unwrap();
        assert(row == all_rows[k]);
        match row {
            Ok(value) => {
                gathered.push(value);
            },
            Err(e) => {
                assert(first_failure(rows@, k));
                return Err(e);
            },
        }
    }
    Ok(gathered)
}

} // verus!
