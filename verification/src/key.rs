//! Keys: what a filter compares and a sort orders by.

use vstd::prelude::*;
use vstd::string::*;
use crate::util::{Exists, Gt, Gte, Like, Neq, SortOrder};

verus! {

/// The canonical document path that a field name stands for.
///
/// A name that starts with `$` is a path already. Any other name gets `$` in front, and a `.`
/// after it unless the name starts with `.` or `[`, is empty, or is a single character of
/// more than one byte.
pub open spec fn format_key_spec(key: Seq<char>) -> Seq<char> {
    if key.len() == 0 {
        seq!['$']
    } else if key[0] == '$' {
        key
    } else if key[0] == '.' || key[0] == '[' {
        seq!['$'] + key
    } else if key.len() >= 2 || (key[0] as u32) < 0x80 {
        seq!['$', '.'] + key
    } else {
        seq!['$'] + key
    }
}

/// Formats the name of a document field as a path.
pub fn format_key(key: &str) -> (path: String)
    ensures
        path@ == format_key_spec(key@),
{
    let n: usize = key.unicode_len();
    let mut path = String::new();
    if n == 0 {
        path.append("$");
        proof {
            reveal_strlit("$");
            assert(path@ =~= seq!['$']);
        }
        return path;
    }
    let first: char = key.get_char(0);
    if first != '$' {
        path.append("$");
        if first != '.' && first != '[' && (n >= 2 || (first as u32) < 0x80) {
            path.append(".");
        }
    }
    path.append(key);
    proof {
        reveal_strlit("$");
        reveal_strlit(".");
        assert(path@ =~= format_key_spec(key@));
    }
    path
}

/// What `format_key` gives is a path: it starts with `$`.
pub proof fn format_key_gives_a_path(key: Seq<char>)
    ensures
        format_key_spec(key).len() > 0,
        format_key_spec(key)[0] == '$',
{
}

/// A path stays as it is.
pub proof fn format_key_keeps_a_path(key: Seq<char>)
    requires
        key.len() > 0,
        key[0] == '$',
    ensures
        format_key_spec(key) == key,
{
}

/// Formatting twice is formatting once, whatever the name.
pub proof fn format_key_idempotent(key: Seq<char>)
    ensures
        format_key_spec(format_key_spec(key)) == format_key_spec(key),
{
    format_key_gives_a_path(key);
    format_key_keeps_a_path(format_key_spec(key));
}

/// Something that a statement can name: a field of the document, or a column of the table.
pub trait Key {
    /// The expression that stands for the key, `data_key` being the document column.
    spec fn key_spec(&self, data_key: Seq<char>) -> Seq<char>;

    /// Renders the key as an expression of a statement.
    fn key(&self, data_key: &str) -> (rendered: String)
        ensures
            rendered@ == self.key_spec(data_key@),
    ;

    /// The key equals `value`, an encoded document.
    fn eq(self, value: String) -> (filter: crate::util::Eq<Self, String>) where Self: Sized
        ensures
            filter.variable == self,
            filter.value == value,
    {
        crate::util::Eq { variable: self, value }
    }

    /// The key differs from `value`, an encoded document.
    fn neq(self, value: String) -> (filter: Neq<Self, String>) where Self: Sized
        ensures
            filter.variable == self,
            filter.value == value,
    {
        Neq { variable: self, value }
    }

    /// The key is greater than `value`, an encoded document.
    fn gt(self, value: String) -> (filter: Gt<Self, String>) where Self: Sized
        ensures
            filter.greater == self,
            filter.lesser == value,
    {
        Gt { greater: self, lesser: value }
    }

    /// The key is greater than `value`, an encoded document, or equal to it.
    fn gte(self, value: String) -> (filter: Gte<Self, String>) where Self: Sized
        ensures
            filter.greater == self,
            filter.lesser == value,
    {
        Gte { greater: self, lesser: value }
    }

    /// The key is less than `value`, an encoded document.
    fn lt(self, value: String) -> (filter: Gt<String, Self>) where Self: Sized
        ensures
            filter.lesser == self,
            filter.greater == value,
    {
        Gt { lesser: self, greater: value }
    }

    /// The key is less than `value`, an encoded document, or equal to it.
    fn lte(self, value: String) -> (filter: Gte<String, Self>) where Self: Sized
        ensures
            filter.lesser == self,
            filter.greater == value,
    {
        Gte { lesser: self, greater: value }
    }

    /// The key matches `value` by the `LIKE` operator, anything being allowed before it if
    /// `matches_start`, and after it if `matches_end`.
    fn like(self, matches_start: bool, value: String, matches_end: bool) -> (filter: Like<
        Self,
        String,
    >) where Self: Sized
        ensures
            filter.variable == self,
            filter.matches_start == matches_start,
            filter.value == value,
            filter.matches_end == matches_end,
    {
        Like { variable: self, matches_start, value, matches_end }
    }

    /// The key is present and not null.
    fn exists_(self) -> (filter: Exists<Self>) where Self: Sized
        ensures
            filter.0 == self,
    {
        Exists(self)
    }

    /// Lowest first.
    fn ascending(self) -> (order: SortOrder<Self>) where Self: Sized
        ensures
            order == SortOrder::Ascending(self),
    {
        SortOrder::Ascending(self)
    }

    /// Greatest first.
    fn descending(self) -> (order: SortOrder<Self>) where Self: Sized
        ensures
            order == SortOrder::Descending(self),
    {
        SortOrder::Descending(self)
    }
}

impl<K: Key + ?Sized> Key for &K {
    open spec fn key_spec(&self, data_key: Seq<char>) -> Seq<char> {
        (**self).key_spec(data_key)
    }

    fn key(&self, data_key: &str) -> (rendered: String) {
        (*self).key(data_key)
    }
}

/// The extraction of the field at `path` from the document in the column `data_key`.
pub open spec fn extract_spec(data_key: Seq<char>, path: Seq<char>) -> Seq<char> {
    "json_extract("@ + data_key + ", \""@ + path + "\")"@
}

/// A field of the document, held as its path.
pub struct Field(pub String);

/// The field of the document that `name` names. The empty name is the document itself.
pub fn field(name: &str) -> (key: Field)
    ensures
        key.0@ == format_key_spec(name@),
{
    Field(format_key(name))
}

impl Key for Field {
    open spec fn key_spec(&self, data_key: Seq<char>) -> Seq<char> {
        extract_spec(data_key, self.0@)
    }

    fn key(&self, data_key: &str) -> (rendered: String) {
        let mut rendered = String::new();
        rendered.append("json_extract(");
        rendered.append(data_key);
        rendered.append(", \"");
        rendered.append(self.0.as_str());
        rendered.append("\")");
        assert(rendered@ =~= self.key_spec(data_key@));
        rendered
    }
}

/// A column of the table, held as its name.
pub struct Column(pub String);

/// The column of the table that `name` names.
pub fn column(name: &str) -> (key: Column)
    ensures
        key.0@ == name@,
{
    Column(name.to_owned())
}

impl Key for Column {
    open spec fn key_spec(&self, data_key: Seq<char>) -> Seq<char> {
        self.0@
    }

    fn key(&self, data_key: &str) -> (rendered: String) {
        self.0.clone()
    }
}

} // verus!
