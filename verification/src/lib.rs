//! Typed query building over a document column of a relational table.
//!
//! A [`Table`] holds one document in each row, encoded as JSON text. Conditions on the rows
//! ([`Filter`]) and orders of the rows ([`Sort`]) are built from keys ([`Key`]): fields of the
//! document and columns of the table. An [`Iterator`] gathers a condition, an order and a
//! window, and lowers them with an operation to one statement for the engine; an
//! [`Operation`] does the same for the one row of an id.
//!
//! The library holds no connection and runs nothing. Every operation gives the text of its
//! statement and says which parameters the statement takes; whoever holds the connection
//! binds them and runs it. What comes back passes through [`codec`] and [`row`].

pub mod codec;
pub mod filter;
pub mod iterator;
pub mod key;
pub mod row;
pub mod sort;
pub mod table;
pub mod text;
pub mod util;

pub use crate::codec::{CodecError, ColumnValue};
pub use crate::filter::Filter;
pub use crate::iterator::Iterator;
pub use crate::key::{column, field, format_key, Column, Field, Key};
pub use crate::row::{Entry, Json};
pub use crate::sort::Sort;
pub use crate::table::{Operation, Table};
