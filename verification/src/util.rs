//! The nodes of filter and sort expressions. They hold their operands and do nothing on their own.

use vstd::prelude::*;
use vstd::string::*;
use crate::key::Key;

verus! {

/// Both of two conditions, or the first of two sort keys and then the second.
pub struct And<A, B> {
    /// The first operand.
    pub first: A,
    /// The second operand.
    pub second: B,
}

/// Either of two conditions.
pub struct Or<A, B> {
    /// The first operand.
    pub first: A,
    /// The second operand.
    pub second: B,
}

/// The negation of a condition.
pub struct Not<A>(pub A);

/// Equality of a variable and a value.
pub struct Eq<A, B> {
    /// The variable that is compared.
    pub variable: A,
    /// The value that it is compared with.
    pub value: B,
}

/// Inequality of a variable and a value.
pub struct Neq<A, B> {
    /// The variable that is compared.
    pub variable: A,
    /// The value that it is compared with.
    pub value: B,
}

/// `G > L`.
pub struct Gt<G, L> {
    /// The greater operand.
    pub greater: G,
    /// The lesser operand.
    pub lesser: L,
}

/// `G >= L`.
pub struct Gte<G, L> {
    /// The greater operand.
    pub greater: G,
    /// The lesser or equal operand.
    pub lesser: L,
}

/// A comparison by the `LIKE` operator.
pub struct Like<A, S> {
    /// The variable that is compared.
    pub variable: A,
    /// Whether anything may stand before the pattern.
    pub matches_start: bool,
    /// The pattern. A `%` inside it matches anything.
    pub value: S,
    /// Whether anything may stand after the pattern.
    pub matches_end: bool,
}

/// The condition that a key is present and not null.
pub struct Exists<A>(pub A);

/// A condition written by hand, which goes into the statement as it is.
///
/// Nothing checks or escapes the text: whoever builds it from input that others control has
/// to make that input safe first.
pub struct Unchecked(pub String);

/// The direction in which a key orders the rows.
pub enum SortOrder<T> {
    /// Lowest first.
    Ascending(T),
    /// Greatest first.
    Descending(T),
}

impl<T: Key> SortOrder<T> {
    /// The term that orders by the key: the key's expression, and the direction behind it.
    pub open spec fn key_spec(&self, data_key: Seq<char>) -> Seq<char> {
        match self {
            SortOrder::Ascending(k) => k.key_spec(data_key) + " ASC"@,
            SortOrder::Descending(k) => k.key_spec(data_key) + " DESC"@,
        }
    }

    /// Renders the term for a statement.
    pub fn key(&self, data_key: &str) -> (term: String)
        ensures
            term@ == self.key_spec(data_key@),
    {
        match self {
            SortOrder::Ascending(k) => {
                let mut term = k.key(data_key);
                term.append(" ASC");
                term
            },
            SortOrder::Descending(k) => {
                let mut term = k.key(data_key);
                term.append(" DESC");
                term
            },
        }
    }
}

impl<T> SortOrder<T> {
    /// The same key in the other direction.
    pub open spec fn not_spec(self) -> SortOrder<T> {
        match self {
            SortOrder::Ascending(k) => SortOrder::Descending(k),
            SortOrder::Descending(k) => SortOrder::Ascending(k),
        }
    }

    /// Turns the direction round.
    pub fn not(self) -> (flipped: SortOrder<T>)
        ensures
            flipped == self.not_spec(),
    {
        match self {
            SortOrder::Ascending(k) => SortOrder::Descending(k),
            SortOrder::Descending(k) => SortOrder::Ascending(k),
        }
    }
}

/// A type that a column of a table can hold.
pub trait SqlType {
    /// The name of the type in a statement.
    spec fn sql_type_spec() -> Seq<char>;

    /// The name of the type in a statement: `INTEGER` for an integer, `TEXT` for a string.
    fn sql_type() -> (name: &'static str)
        ensures
            name@ == Self::sql_type_spec(),
    ;
}

impl SqlType for i64 {
    open spec fn sql_type_spec() -> Seq<char> {
        "INTEGER"@
    }

    fn sql_type() -> (name: &'static str) {
        "INTEGER"
    }
}

impl SqlType for i32 {
    open spec fn sql_type_spec() -> Seq<char> {
        "INTEGER"@
    }

    fn sql_type() -> (name: &'static str) {
        "INTEGER"
    }
}

impl SqlType for i16 {
    open spec fn sql_type_spec() -> Seq<char> {
        "INTEGER"@
    }

    fn sql_type() -> (name: &'static str) {
        "INTEGER"
    }
}

impl SqlType for i8 {
    open spec fn sql_type_spec() -> Seq<char> {
        "INTEGER"@
    }

    fn sql_type() -> (name: &'static str) {
        "INTEGER"
    }
}

impl SqlType for u32 {
    open spec fn sql_type_spec() -> Seq<char> {
        "INTEGER"@
    }

    fn sql_type() -> (name: &'static str) {
        "INTEGER"
    }
}

impl SqlType for u16 {
    open spec fn sql_type_spec() -> Seq<char> {
        "INTEGER"@
    }

    fn sql_type() -> (name: &'static str) {
        "INTEGER"
    }
}

impl SqlType for u8 {
    open spec fn sql_type_spec() -> Seq<char> {
        "INTEGER"@
    }

    fn sql_type() -> (name: &'static str) {
        "INTEGER"
    }
}

impl SqlType for String {
    open spec fn sql_type_spec() -> Seq<char> {
        "TEXT"@
    }

    fn sql_type() -> (name: &'static str) {
        "TEXT"
    }
}

} // verus!
