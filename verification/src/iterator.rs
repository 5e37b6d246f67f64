//! The query builder: it gathers a filter, an order and a window, and lowers them with an
//! operation to the one statement that the engine is to run.

use std::marker::PhantomData;
use vstd::prelude::*;
use vstd::string::*;
use crate::filter::Filter;
use crate::key::{extract_spec, field, format_key, format_key_spec, Key};
use crate::sort::Sort;
use crate::text::{decimal, push_decimal};

verus! {

/// The `WHERE` clause of a rendered condition. No condition, no clause.
pub open spec fn where_clause_spec(condition: Option<Seq<char>>) -> Seq<char> {
    match condition {
        Some(c) => "WHERE "@ + c,
        None => Seq::empty(),
    }
}

/// The terms of an order with a comma between each two.
pub open spec fn join_terms_spec(terms: Seq<Seq<char>>) -> Seq<char>
    decreases terms.len(),
{
    if terms.len() == 0 {
        Seq::empty()
    } else if terms.len() == 1 {
        terms[0]
    } else {
        join_terms_spec(terms.drop_last()) + ","@ + terms.last()
    }
}

/// The `ORDER BY` clause of the terms of an order. No term, no clause.
pub open spec fn order_clause_spec(terms: Seq<Seq<char>>) -> Seq<char> {
    if terms.len() == 0 {
        Seq::empty()
    } else {
        "ORDER BY "@ + join_terms_spec(terms)
    }
}

/// The number behind `LIMIT`: the limit, or `-1` where there is none.
pub open spec fn limit_spec(limit: Option<u32>) -> Seq<char> {
    match limit {
        Some(n) => decimal(n as nat),
        None => "-1"@,
    }
}

/// The number behind `OFFSET`: the offset, or `0` where there is none.
pub open spec fn offset_spec(offset: Option<u32>) -> Seq<char> {
    match offset {
        Some(m) => decimal(m as nat),
        None => decimal(0),
    }
}

/// The `LIMIT .. OFFSET ..` clause of a window. Neither limit nor offset, no clause.
pub open spec fn window_clause_spec(limit: Option<u32>, offset: Option<u32>) -> Seq<char> {
    if limit is None && offset is None {
        Seq::empty()
    } else {
        "LIMIT "@ + limit_spec(limit) + " OFFSET "@ + offset_spec(offset)
    }
}

/// The three clauses in the order in which a statement takes them, with one space between
/// each two, also where a clause is empty.
pub open spec fn clauses_spec(
    condition: Option<Seq<char>>,
    terms: Seq<Seq<char>>,
    limit: Option<u32>,
    offset: Option<u32>,
) -> Seq<char> {
    where_clause_spec(condition) + " "@ + order_clause_spec(terms) + " "@ + window_clause_spec(
        limit,
        offset,
    )
}

/// The path arguments of an extraction of several fields: each name as a path in double
/// quotes, with a comma in front.
pub open spec fn paths_spec(names: Seq<Seq<char>>) -> Seq<char>
    decreases names.len(),
{
    if names.len() == 0 {
        Seq::empty()
    } else {
        paths_spec(names.drop_last()) + ",\""@ + format_key_spec(names.last()) + "\""@
    }
}

/// The assignment that puts a bound value at a path of the document, by the engine's function
/// `function`. The value is the parameter `:value`.
pub open spec fn write_spec(data_key: Seq<char>, function: Seq<char>, path: Seq<char>) -> Seq<
    char,
> {
    data_key + " = "@ + function + "("@ + data_key + ",\""@ + path + "\",:value)"@
}

/// The assignment that merges a bound document into the document. The document is the
/// parameter `:value`.
pub open spec fn patch_spec(data_key: Seq<char>) -> Seq<char> {
    data_key + " = json_patch("@ + data_key + ",:value)"@
}

/// The assignment that takes the field at a path out of the document.
pub open spec fn remove_spec(data_key: Seq<char>, path: Seq<char>) -> Seq<char> {
    data_key + " = json_remove("@ + data_key + ", '"@ + path + "')"@
}

/// The extraction of several fields from the document at once.
pub open spec fn extract_all_spec(data_key: Seq<char>, names: Seq<Seq<char>>) -> Seq<char> {
    "json_extract("@ + data_key + paths_spec(names) + ")"@
}

/// The rows that a window keeps of `rows`, the rows of a query in its order: it skips the
/// first `offset` rows and then takes `limit` rows at most, or all where there is no limit.
pub open spec fn window_spec<R>(rows: Seq<R>, limit: Option<u32>, offset: Option<u32>) -> Seq<R> {
    let skipped = match offset {
        Some(m) => m as int,
        None => 0,
    };
    let from = if skipped < rows.len() {
        skipped
    } else {
        rows.len() as int
    };
    let to = match limit {
        Some(n) => if from + n < rows.len() {
            from + n
        } else {
            rows.len() as int
        },
        None => rows.len() as int,
    };
    rows.subrange(from, to)
}

/// An operation on a table that has not run yet: the rows that it is to work on, their order,
/// and the window of them that counts.
#[must_use]
pub struct Iterator<'a, I, W, S> {
    /// The document column.
    pub data_key: &'a str,
    /// The id column.
    pub id_key: &'a str,
    /// The type of the ids.
    pub id_type: PhantomData<I>,
    /// How many rows to take at most.
    pub limit: Option<u32>,
    /// How many rows to skip first.
    pub offset: Option<u32>,
    /// The order of the rows.
    pub order_by: S,
    /// The condition on the rows.
    pub where_: W,
    /// The table.
    pub table_key: &'a str,
}

impl<'a, I, W: Filter, S: Sort> Iterator<'a, I, W, S> {
    /// The clauses that the state lowers to.
    pub open spec fn make_clauses_spec(&self) -> Seq<char> {
        clauses_spec(
            self.where_.where_spec(self.data_key@),
            self.order_by.order_by_spec(self.data_key@),
            self.limit,
            self.offset,
        )
    }

    /// The statement that runs `command` on the rows of the state.
    pub open spec fn execute_spec(&self, command: Seq<char>) -> Seq<char> {
        command + " FROM "@ + self.table_key@ + " "@ + self.make_clauses_spec()
    }

    /// The statement that makes `assignment` in the rows of the state.
    pub open spec fn update_spec(&self, assignment: Seq<char>) -> Seq<char> {
        "UPDATE "@ + self.table_key@ + " SET "@ + assignment + " "@ + self.make_clauses_spec()
    }

    /// The state with `filter` in place of its condition.
    pub open spec fn filter_spec<A>(self, filter: A) -> Iterator<'a, I, A, S> {
        Iterator {
            data_key: self.data_key,
            id_key: self.id_key,
            id_type: self.id_type,
            limit: self.limit,
            offset: self.offset,
            order_by: self.order_by,
            where_: filter,
            table_key: self.table_key,
        }
    }

    /// The state with `key` in place of its order.
    pub open spec fn sort_spec<A>(self, key: A) -> Iterator<'a, I, W, A> {
        Iterator {
            data_key: self.data_key,
            id_key: self.id_key,
            id_type: self.id_type,
            limit: self.limit,
            offset: self.offset,
            order_by: key,
            where_: self.where_,
            table_key: self.table_key,
        }
    }

    /// The state with the offset `n`.
    pub open spec fn skip_spec(self, n: u32) -> Self {
        Iterator { offset: Some(n), ..self }
    }

    /// The state with the limit `n`.
    pub open spec fn take_spec(self, n: u32) -> Self {
        Iterator { limit: Some(n), ..self }
    }

    /// The statement that reads the documents.
    pub fn data(&self) -> (statement: String)
        ensures
            statement@ == self.execute_spec("SELECT "@ + self.data_key@),
    {
        let mut command = String::new();
        command.append("SELECT ");
        command.append(self.data_key);
        self.execute(command.as_str())
    }

    /// The statement that reads the ids and the documents, in this order.
    pub fn entry(&self) -> (statement: String)
        ensures
            statement@ == self.execute_spec("SELECT "@ + self.id_key@ + ", "@ + self.data_key@),
    {
        let mut command = String::new();
        command.append("SELECT ");
        command.append(self.id_key);
        command.append(", ");
        command.append(self.data_key);
        assert(command@ =~= "SELECT "@ + self.id_key@ + ", "@ + self.data_key@);
        self.execute(command.as_str())
    }

    /// The statement that reads the ids.
    pub fn id(&self) -> (statement: String)
        ensures
            statement@ == self.execute_spec("SELECT "@ + self.id_key@),
    {
        let mut command = String::new();
        command.append("SELECT ");
        command.append(self.id_key);
        self.execute(command.as_str())
    }

    /// The statement that reads one field of the documents.
    pub fn field(&self, field_: &str) -> (statement: String)
        ensures
            statement@ == self.execute_spec(
                "SELECT "@ + extract_spec(self.data_key@, format_key_spec(field_@)),
            ),
    {
        let extraction = field(field_).key(self.data_key);
        let mut command = String::new();
        command.append("SELECT ");
        command.append(extraction.as_str());
        self.execute(command.as_str())
    }

    /// The statement that reads several fields of the documents in one extraction. For two
    /// names or more the engine gives one array for each row, which holds the fields in the
    /// order of `fields`, with a null for a field that the row lacks; for one name it gives
    /// the field itself.
    pub fn fields(&self, fields: &[&str]) -> (statement: String)
        ensures
            statement@ == self.execute_spec(
                "SELECT "@ + extract_all_spec(self.data_key@, fields.deep_view()),
            ),
    {
        let mut command = String::new();
        command.append("SELECT json_extract(");
        command.append(self.data_key);
        let ghost head = command@;
        let ghost names = fields.deep_view();
        let mut i: usize = 0;
        while i < fields.len()
            invariant
                i <= fields.len(),
                names == fields.deep_view(),
                command@ == head + paths_spec(names.take(i as int)),
            decreases fields.len() - i,
        {
            let path = format_key(fields[i]);
            command.append(",\"");
            command.append(path.as_str());
            command.append("\"");
            proof {
                let next = names.take(i + 1);
                assert(next.drop_last() =~= names.take(i as int));
                assert(next.last() == fields[i as int]@);
                assert(command@ =~= head + paths_spec(next));
            }
            i += 1;
        }
        command.append(")");
        proof {
            reveal_strlit("SELECT json_extract(");
            reveal_strlit("SELECT ");
            reveal_strlit("json_extract(");
            assert("SELECT json_extract("@ =~= "SELECT "@ + "json_extract("@);
            assert(names.take(i as int) =~= names);
            assert(command@ =~= "SELECT "@ + extract_all_spec(self.data_key@, names));
        }
        self.execute(command.as_str())
    }

    /// The statement that puts the parameter `:value` into the field `field` of the documents
    /// that lack it.
    pub fn insert(&self, field: &str) -> (statement: String)
        ensures
            statement@ == self.update_spec(
                write_spec(self.data_key@, "json_insert"@, format_key_spec(field@)),
            ),
    {
        self.write("json_insert", field)
    }

    /// The statement that merges the parameter `:value`, a document, into the documents.
    pub fn patch(&self) -> (statement: String)
        ensures
            statement@ == self.update_spec(patch_spec(self.data_key@)),
    {
        let mut assignment = String::new();
        assignment.append(self.data_key);
        assignment.append(" = json_patch(");
        assignment.append(self.data_key);
        assignment.append(",:value)");
        assert(assignment@ =~= patch_spec(self.data_key@));
        self.update(assignment.as_str())
    }

    /// The statement that takes the field `field` out of the documents.
    pub fn remove(&self, field: &str) -> (statement: String)
        ensures
            statement@ == self.update_spec(remove_spec(self.data_key@, format_key_spec(field@))),
    {
        let path = format_key(field);
        let mut assignment = String::new();
        assignment.append(self.data_key);
        assignment.append(" = json_remove(");
        assignment.append(self.data_key);
        assignment.append(", '");
        assignment.append(path.as_str());
        assignment.append("')");
        assert(assignment@ =~= remove_spec(self.data_key@, path@));
        self.update(assignment.as_str())
    }

    /// The statement that puts the parameter `:value` into the field `field` of the documents
    /// that have it.
    pub fn replace(&self, field: &str) -> (statement: String)
        ensures
            statement@ == self.update_spec(
                write_spec(self.data_key@, "json_replace"@, format_key_spec(field@)),
            ),
    {
        self.write("json_replace", field)
    }

    /// The statement that puts the parameter `:value` into the field `field` of the documents,
    /// whether they have it or not.
    pub fn set(&self, field: &str) -> (statement: String)
        ensures
            statement@ == self.update_spec(
                write_spec(self.data_key@, "json_set"@, format_key_spec(field@)),
            ),
    {
        self.write("json_set", field)
    }

    /// The statement that removes the rows.
    pub fn delete(&self) -> (statement: String)
        ensures
            statement@ == self.execute_spec("DELETE"@),
    {
        self.execute("DELETE")
    }

    /// Puts `filter` in place of the condition. The order and the window stay.
    pub fn filter<A: Filter>(self, filter: A) -> (next: Iterator<'a, I, A, S>)
        ensures
            next == self.filter_spec(filter),
    {
        Iterator {
            data_key: self.data_key,
            id_key: self.id_key,
            id_type: self.id_type,
            limit: self.limit,
            offset: self.offset,
            order_by: self.order_by,
            where_: filter,
            table_key: self.table_key,
        }
    }

    /// Puts `key` in place of the order. The condition and the window stay.
    pub fn sort<A: Sort>(self, key: A) -> (next: Iterator<'a, I, W, A>)
        ensures
            next == self.sort_spec(key),
    {
        Iterator {
            data_key: self.data_key,
            id_key: self.id_key,
            id_type: self.id_type,
            limit: self.limit,
            offset: self.offset,
            order_by: key,
            where_: self.where_,
            table_key: self.table_key,
        }
    }

    /// Skips the first `n` rows.
    pub fn skip(self, n: u32) -> (next: Self)
        ensures
            next == self.skip_spec(n),
    {
        Iterator {
            data_key: self.data_key,
            id_key: self.id_key,
            id_type: self.id_type,
            limit: self.limit,
            offset: Some(n),
            order_by: self.order_by,
            where_: self.where_,
            table_key: self.table_key,
        }
    }

    /// Takes `n` rows at most.
    pub fn take(self, n: u32) -> (next: Self)
        ensures
            next == self.take_spec(n),
    {
        Iterator {
            data_key: self.data_key,
            id_key: self.id_key,
            id_type: self.id_type,
            limit: Some(n),
            offset: self.offset,
            order_by: self.order_by,
            where_: self.where_,
            table_key: self.table_key,
        }
    }

    /// The statement that runs `command`, such as `SELECT data`, on the rows of the state.
    pub fn execute(&self, command: &str) -> (statement: String)
        ensures
            statement@ == self.execute_spec(command@),
    {
        let clauses = self.make_clauses();
        let mut statement = String::new();
        statement.append(command);
        statement.append(" FROM ");
        statement.append(self.table_key);
        statement.append(" ");
        statement.append(clauses.as_str());
        assert(statement@ =~= self.execute_spec(command@));
        statement
    }

    /// The statement that makes `assignment` in the rows of the state.
    fn update(&self, assignment: &str) -> (statement: String)
        ensures
            statement@ == self.update_spec(assignment@),
    {
        let clauses = self.make_clauses();
        let mut statement = String::new();
        statement.append("UPDATE ");
        statement.append(self.table_key);
        statement.append(" SET ");
        statement.append(assignment);
        statement.append(" ");
        statement.append(clauses.as_str());
        assert(statement@ =~= self.update_spec(assignment@));
        statement
    }

    /// The statement that writes the parameter `:value` to a field by `function`.
    fn write(&self, function: &str, field: &str) -> (statement: String)
        ensures
            statement@ == self.update_spec(
                write_spec(self.data_key@, function@, format_key_spec(field@)),
            ),
    {
        let path = format_key(field);
        let mut assignment = String::new();
        assignment.append(self.data_key);
        assignment.append(" = ");
        assignment.append(function);
        assignment.append("(");
        assignment.append(self.data_key);
        assignment.append(",\"");
        assignment.append(path.as_str());
        assignment.append("\",:value)");
        assert(assignment@ =~= write_spec(self.data_key@, function@, path@));
        self.update(assignment.as_str())
    }

    /// Lowers the condition, the order and the window to clauses.
    pub fn make_clauses(&self) -> (clauses: String)
        ensures
            clauses@ == self.make_clauses_spec(),
    {
        let mut clauses = String::new();
        match self.where_.where_(self.data_key) {
            Some(condition) => {
                clauses.append("WHERE ");
                clauses.append(condition.as_str());
            },
            None => {},
        }
        clauses.append(" ");
        let terms = self.order_by.order_by(self.data_key);
        let ghost head = clauses@;
        let ghost rendered = terms.deep_view();
        if terms.len() > 0 {
            clauses.append("ORDER BY ");
            let mut i: usize = 0;
            while i < terms.len()
                invariant
                    i <= terms.len(),
                    rendered == terms.deep_view(),
                    clauses@ == head + "ORDER BY "@ + join_terms_spec(rendered.take(i as int)),
                decreases terms.len() - i,
            {
                if i > 0 {
                    clauses.append(",");
                }
                clauses.append(terms[i].as_str());
                proof {
                    let next = rendered.take(i + 1);
                    assert(next.drop_last() =~= rendered.take(i as int));
                    assert(next.last() == terms[i as int]@);
                    assert(clauses@ =~= head + "ORDER BY "@ + join_terms_spec(next));
                }
                i += 1;
            }
            assert(rendered.take(i as int) =~= rendered);
        }
        assert(clauses@ =~= head + order_clause_spec(rendered));
        clauses.append(" ");
        if self.limit.is_some() || self.offset.is_some() {
            clauses.append("LIMIT ");
            match self.limit {
                Some(n) => push_decimal(&mut clauses, n),
                None => clauses.append("-1"),
            }
            clauses.append(" OFFSET ");
            match self.offset {
                Some(m) => push_decimal(&mut clauses, m),
                None => push_decimal(&mut clauses, 0),
            }
        }
        assert(clauses@ =~= self.make_clauses_spec());
        clauses
    }
}

/// A later filter takes the place of an earlier one, and a later order that of an earlier
/// one; neither touches the window, the table or the other of the two.
pub proof fn later_filter_and_sort_replace<'a, I, W: Filter, S: Sort, A: Filter, B: Filter, C: Sort>(
    state: Iterator<'a, I, W, S>,
    first: A,
    second: B,
    order: C,
)
    ensures
        state.filter_spec(first).filter_spec(second) == state.filter_spec(second),
        state.sort_spec(order).filter_spec(second) == state.filter_spec(second).sort_spec(order),
        state.filter_spec(second).limit == state.limit,
        state.filter_spec(second).offset == state.offset,
        state.filter_spec(second).order_by == state.order_by,
        state.sort_spec(order).limit == state.limit,
        state.sort_spec(order).offset == state.offset,
        state.sort_spec(order).where_ == state.where_,
{
}

/// `take(n)` and `skip(m)` set the window whatever the order of the two calls, and lower to
/// `LIMIT n OFFSET m`. Of the rows of the query in its order the window keeps those from
/// `m` up to, not including, `m + n`, as far as there are such rows: none where `n` is 0, and
/// none where `m` is not less than their number.
pub proof fn take_skip_window<'a, I, W: Filter, S: Sort, R>(
    state: Iterator<'a, I, W, S>,
    n: u32,
    m: u32,
    rows: Seq<R>,
)
    ensures
        state.take_spec(n).skip_spec(m) == state.skip_spec(m).take_spec(n),
        state.take_spec(n).skip_spec(m).limit == Some(n),
        state.take_spec(n).skip_spec(m).offset == Some(m),
        window_clause_spec(Some(n), Some(m)) == "LIMIT "@ + decimal(n as nat) + " OFFSET "@
            + decimal(m as nat),
        m + n <= rows.len() ==> window_spec(rows, Some(n), Some(m)) == rows.subrange(
            m as int,
            m + n,
        ),
        m <= rows.len() < m + n ==> window_spec(rows, Some(n), Some(m)) == rows.subrange(
            m as int,
            rows.len() as int,
        ),
        n == 0 ==> window_spec(rows, Some(n), Some(m)).len() == 0,
        m >= rows.len() ==> window_spec(rows, Some(n), Some(m)).len() == 0,
{
}

} // verus!
