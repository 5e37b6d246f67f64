//! Tables, and the operations on one row of a table.

use std::marker::PhantomData;
use vstd::prelude::*;
use vstd::string::*;
use crate::iterator::{remove_spec, Iterator};
use crate::key::{extract_spec, field, format_key, format_key_spec, Key};
use crate::util::SqlType;

verus! {

/// The expressions of the keys of an index, with a comma before each one that does not stand
/// first in the text.
pub open spec fn join_keys_spec(rendered: Seq<Seq<char>>) -> Seq<char>
    decreases rendered.len(),
{
    if rendered.len() == 0 {
        Seq::empty()
    } else {
        let before = join_keys_spec(rendered.drop_last());
        if before.len() == 0 {
            rendered.last()
        } else {
            before + ","@ + rendered.last()
        }
    }
}

/// The expressions that keys stand for, `data_key` being the document column.
pub open spec fn render_keys_spec<K: Key>(keys: Seq<K>, data_key: Seq<char>) -> Seq<Seq<char>> {
    Seq::new(keys.len(), |i: int| keys[i].key_spec(data_key))
}

/// A table that holds one document in each row.
///
/// `I` is the type of the ids. The id column is the primary key of the table; the document
/// column holds the encoded documents.
pub struct Table<I> {
    /// The id column.
    pub id: String,
    /// The type of the ids.
    pub id_type: PhantomData<I>,
    /// The document column.
    pub data: String,
    /// The name of the table.
    pub name: String,
}

impl Table<i64> {
    /// The table `name` in the usual layout: integer ids in the column `id`, documents in the
    /// column `data`.
    pub fn new(name: &str) -> (table: Self)
        ensures
            table.id@ == "id"@,
            table.data@ == "data"@,
            table.name@ == name@,
    {
        Table {
            id: "id".to_owned(),
            id_type: PhantomData,
            data: "data".to_owned(),
            name: name.to_owned(),
        }
    }
}

impl<I: SqlType> Table<I> {
    /// The statement that creates the table.
    pub open spec fn bootstrap_spec(&self) -> Seq<char> {
        "CREATE TABLE IF NOT EXISTS "@ + self.name@ + " ("@ + self.id@ + " "@ + I::sql_type_spec()
            + " PRIMARY KEY, "@ + self.data@ + " TEXT NOT NULL)"@
    }

    /// The statement that creates the table unless it is there: the id column as the primary
    /// key, and the document column, which holds no null. A table that is there stays as it
    /// is, whatever its columns are.
    pub fn bootstrap(&self) -> (statement: String)
        ensures
            statement@ == self.bootstrap_spec(),
    {
        let mut statement = String::new();
        statement.append("CREATE TABLE IF NOT EXISTS ");
        statement.append(self.name.as_str());
        statement.append(" (");
        statement.append(self.id.as_str());
        statement.append(" ");
        statement.append(I::sql_type());
        statement.append(" PRIMARY KEY, ");
        statement.append(self.data.as_str());
        statement.append(" TEXT NOT NULL)");
        assert(statement@ =~= self.bootstrap_spec());
        statement
    }
}

impl<I> Table<I> {
    /// The statement that creates the index `name` on `keys`.
    pub open spec fn index_spec<K: Key>(&self, name: Seq<char>, keys: Seq<K>) -> Seq<char> {
        "CREATE INDEX "@ + name + " ON "@ + self.name@ + " ("@ + join_keys_spec(
            render_keys_spec(keys, self.data@),
        ) + ")"@
    }

    /// The statement that adds a row. Its one parameter is the encoded document.
    pub open spec fn insert_spec(&self) -> Seq<char> {
        "INSERT INTO "@ + self.name@ + " ("@ + self.data@ + ") VALUES (?)"@
    }

    /// The statement that removes the row of an id. Its one parameter is the id.
    pub open spec fn delete_spec(&self) -> Seq<char> {
        "DELETE FROM "@ + self.name@ + " WHERE "@ + self.id@ + " = ?"@
    }

    /// The statement that creates the index `name` on `keys`. Whether the engine then uses the
    /// index is its own decision.
    pub fn index<K: Key>(&self, name: &str, keys: &[K]) -> (statement: String)
        ensures
            statement@ == self.index_spec(name@, keys@),
    {
        let mut joined = String::new();
        let ghost rendered = render_keys_spec(keys@, self.data@);
        let mut i: usize = 0;
        while i < keys.len()
            invariant
                i <= keys.len(),
                rendered == render_keys_spec(keys@, self.data@),
                joined@ == join_keys_spec(rendered.take(i as int)),
            decreases keys.len() - i,
        {
            let key = keys[i].key(self.data.as_str());
            if !joined.as_str().is_empty() {
                joined.append(",");
            }
            joined.append(key.as_str());
            proof {
                let next = rendered.take(i + 1);
                assert(next.drop_last() =~= rendered.take(i as int));
                assert(next.last() == key@);
                assert(joined@ =~= join_keys_spec(next));
            }
            i += 1;
        }
        assert(rendered.take(i as int) =~= rendered);
        let mut statement = String::new();
        statement.append("CREATE INDEX ");
        statement.append(name);
        statement.append(" ON ");
        statement.append(self.name.as_str());
        statement.append(" (");
        statement.append(joined.as_str());
        statement.append(")");
        assert(statement@ =~= self.index_spec(name@, keys@));
        statement
    }

    /// A table with the given columns and name. Nothing checks that the table exists or that
    /// it has these columns.
    pub fn unchecked(id: &str, data: &str, name: &str) -> (table: Self)
        ensures
            table.id@ == id@,
            table.data@ == data@,
            table.name@ == name@,
    {
        Table { id: id.to_owned(), id_type: PhantomData, data: data.to_owned(), name: name.to_owned() }
    }

    /// An operation on all the rows of the table, in the engine's own order.
    pub fn iter(&self) -> (all: Iterator<'_, I, (), ()>)
        ensures
            all.data_key@ == self.data@,
            all.id_key@ == self.id@,
            all.table_key@ == self.name@,
            all.limit is None,
            all.offset is None,
    {
        Iterator {
            data_key: self.data.as_str(),
            id_key: self.id.as_str(),
            id_type: PhantomData,
            limit: None,
            offset: None,
            order_by: (),
            table_key: self.name.as_str(),
            where_: (),
        }
    }

    /// The statement that adds one row. Its one parameter is the encoded document. A
    /// document that the table holds already is added once more.
    pub fn insert(&self) -> (statement: String)
        ensures
            statement@ == self.insert_spec(),
    {
        let mut statement = String::new();
        statement.append("INSERT INTO ");
        statement.append(self.name.as_str());
        statement.append(" (");
        statement.append(self.data.as_str());
        statement.append(") VALUES (?)");
        assert(statement@ =~= self.insert_spec());
        statement
    }

    /// The operations on the row of `id`.
    pub fn get(&self, id: I) -> (row: Operation<'_, I>)
        ensures
            row.id == id,
            row.data_key@ == self.data@,
            row.id_key@ == self.id@,
            row.table@ == self.name@,
    {
        Operation {
            data_key: self.data.as_str(),
            id,
            id_key: self.id.as_str(),
            table: self.name.as_str(),
        }
    }

    /// The statement that removes the row of an id. Its one parameter is the id. That no row
    /// has the id is no error.
    pub fn delete(&self) -> (statement: String)
        ensures
            statement@ == self.delete_spec(),
    {
        let mut statement = String::new();
        statement.append("DELETE FROM ");
        statement.append(self.name.as_str());
        statement.append(" WHERE ");
        statement.append(self.id.as_str());
        statement.append(" = ?");
        assert(statement@ =~= self.delete_spec());
        statement
    }
}

/// The operations on the one row that has a given id.
///
/// Every statement of it has one parameter, the id, and touches that row or none.
#[must_use]
pub struct Operation<'a, I> {
    /// The document column.
    pub data_key: &'a str,
    /// The id of the row.
    pub id: I,
    /// The id column.
    pub id_key: &'a str,
    /// The table.
    pub table: &'a str,
}

impl<'a, I> Operation<'a, I> {
    /// The statement that reads `projection` from the row.
    pub open spec fn select_spec(&self, projection: Seq<char>) -> Seq<char> {
        "SELECT "@ + projection + " FROM "@ + self.table@ + " WHERE "@ + self.id_key@ + " = ?"@
    }

    /// The statement that makes `assignment` in the row.
    pub open spec fn update_spec(&self, assignment: Seq<char>) -> Seq<char> {
        "UPDATE "@ + self.table@ + " SET "@ + assignment + " WHERE "@ + self.id_key@ + " = ?"@
    }

    fn select(&self, projection: &str) -> (statement: String)
        ensures
            statement@ == self.select_spec(projection@),
    {
        let mut statement = String::new();
        statement.append("SELECT ");
        statement.append(projection);
        statement.append(" FROM ");
        statement.append(self.table);
        statement.append(" WHERE ");
        statement.append(self.id_key);
        statement.append(" = ?");
        assert(statement@ =~= self.select_spec(projection@));
        statement
    }

    /// The statement that reads the document of the row.
    pub fn data(&self) -> (statement: String)
        ensures
            statement@ == self.select_spec(self.data_key@),
    {
        self.select(self.data_key)
    }

    /// The statement that reads the id and the document of the row, in this order.
    pub fn entry(&self) -> (statement: String)
        ensures
            statement@ == self.select_spec(self.id_key@ + ", "@ + self.data_key@),
    {
        let mut projection = String::new();
        projection.append(self.id_key);
        projection.append(", ");
        projection.append(self.data_key);
        assert(projection@ =~= self.id_key@ + ", "@ + self.data_key@);
        self.select(projection.as_str())
    }

    /// The statement that reads the id of the row.
    pub fn id(&self) -> (statement: String)
        ensures
            statement@ == self.select_spec(self.id_key@),
    {
        self.select(self.id_key)
    }

    /// The statement that reads the field `key` of the document of the row.
    pub fn field(&self, key: &str) -> (statement: String)
        ensures
            statement@ == self.select_spec(extract_spec(self.data_key@, format_key_spec(key@))),
    {
        let extraction = field(key).key(self.data_key);
        self.select(extraction.as_str())
    }

    /// The statement that takes the field `field` out of the document of the row.
    pub fn remove(&self, field: &str) -> (statement: String)
        ensures
            statement@ == self.update_spec(remove_spec(self.data_key@, format_key_spec(field@))),
    {
        let path = format_key(field);
        let mut statement = String::new();
        statement.append("UPDATE ");
        statement.append(self.table);
        statement.append(" SET ");
        statement.append(self.data_key);
        statement.append(" = json_remove(");
        statement.append(self.data_key);
        statement.append(", '");
        statement.append(path.as_str());
        statement.append("')");
        statement.append(" WHERE ");
        statement.append(self.id_key);
        statement.append(" = ?");
        assert(statement@ =~= self.update_spec(remove_spec(self.data_key@, path@)));
        statement
    }
}

} // verus!
