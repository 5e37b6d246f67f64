use nosqlite::codec::{parse, typed};
use nosqlite::row::collect;
use nosqlite::util::Unchecked;
use nosqlite::{field, ColumnValue, Filter, Key, Sort, Table};
use rusqlite::types::ValueRef;
use rusqlite::Connection;

fn text(value: &str) -> String {
    value.to_string()
}

fn open(table: &Table<i64>) -> Connection {
    let connection = Connection::open_in_memory().unwrap();
    connection.execute(&table.bootstrap(), ()).unwrap();
    connection
}

fn with_documents(name: &str, documents: &[&str]) -> (Connection, Table<i64>) {
    let table = Table::new(name);
    let connection = open(&table);
    for document in documents {
        connection.execute(&table.insert(), (*document,)).unwrap();
    }
    (connection, table)
}

fn integers(connection: &Connection, statement: &str) -> Vec<i64> {
    let mut prepared = connection.prepare(statement).unwrap();
    let rows: Vec<Result<i64, rusqlite::Error>> =
        prepared.query_map((), |row| row.get::<_, i64>(0)).unwrap().collect();
    collect(rows).unwrap()
}

fn columns(connection: &Connection, statement: &str) -> Vec<ColumnValue> {
    let mut prepared = connection.prepare(statement).unwrap();
    let rows: Vec<Result<ColumnValue, rusqlite::Error>> = prepared
        .query_map((), |row| {
            Ok(match row.get_ref(0)? {
                ValueRef::Null => ColumnValue::Null,
                ValueRef::Integer(i) => ColumnValue::Integer(i),
                ValueRef::Real(_) => ColumnValue::Real,
                ValueRef::Text(bytes) => ColumnValue::Text(bytes.to_vec()),
                ValueRef::Blob(bytes) => ColumnValue::Blob(bytes.to_vec()),
            })
        })
        .unwrap()
        .collect();
    collect(rows).unwrap()
}

fn documents(connection: &Connection, statement: &str) -> Vec<serde_json::Value> {
    columns(connection, statement)
        .iter()
        .map(|column| match parse(column) {
            Ok(document) => document,
            Err(_) => panic!("a stored document was not read"),
        })
        .collect()
}

fn document(text: &str) -> serde_json::Value {
    serde_json::from_str(text).unwrap()
}

#[test]
fn bootstrap_twice_keeps_the_table() {
    let (connection, table) = with_documents("people", &["{\"age\":19}"]);
    connection.execute(&table.bootstrap(), ()).unwrap();
    assert_eq!(integers(&connection, &table.iter().id()), vec![1]);
}

#[test]
fn insert_allows_equal_documents() {
    let (connection, table) =
        with_documents("people", &["{\"name\":\"Hiruna\",\"age\":19}", "{\"name\":\"Hiruna\",\"age\":19}"]);
    assert_eq!(integers(&connection, &table.iter().id()), vec![1, 2]);
    assert_eq!(
        documents(&connection, &table.iter().data()),
        vec![document("{\"name\":\"Hiruna\",\"age\":19}"), document("{\"name\":\"Hiruna\",\"age\":19}")]
    );
}

#[test]
fn filter_keeps_the_rows_in_insertion_order() {
    let (connection, table) =
        with_documents("people", &["{\"age\":19}", "{\"age\":13}", "{\"age\":12}", "{\"age\":20}"]);
    let query = table.iter().filter(field("age").gte(text("18")));
    assert_eq!(integers(&connection, &query.fields(&["age"])), vec![19, 20]);
    assert_eq!(integers(&connection, &query.field("age")), vec![19, 20]);
    assert_eq!(integers(&connection, &query.id()), vec![1, 4]);
}

#[test]
fn fields_give_one_array_for_each_row() {
    let (connection, table) = with_documents(
        "people",
        &[
            "{\"name\":\"Hiruna\",\"age\":19}",
            "{\"name\":\"Bob\",\"age\":13}",
            "{\"name\":\"Callum\",\"age\":12}",
            "{\"name\":\"John\",\"age\":20}",
        ],
    );
    let statement = table.iter().filter(field("age").gte(text("18"))).fields(&["name", "age"]);
    let people: Vec<(String, u8)> = documents(&connection, &statement)
        .into_iter()
        .map(|array| match typed(serde_json::from_value::<(String, u8)>(array)) {
            Ok(pair) => pair,
            Err(_) => panic!("an array of two fields was not mapped onto a pair"),
        })
        .collect();
    assert_eq!(people, vec![(text("Hiruna"), 19), (text("John"), 20)]);
}

#[test]
fn fields_give_null_for_a_missing_path() {
    let (connection, table) = with_documents("people", &["{\"name\":\"Bob\"}"]);
    assert_eq!(
        documents(&connection, &table.iter().fields(&["name", "age"])),
        vec![document("[\"Bob\",null]")]
    );
}

#[test]
fn fields_of_one_name_give_the_field_itself() {
    let (connection, table) = with_documents("people", &["{\"name\":\"Bob\",\"age\":13}"]);
    let read = columns(&connection, &table.iter().fields(&["age"]));
    assert_eq!(read.len(), 1);
    assert!(matches!(read[0], ColumnValue::Integer(13)));
}

#[test]
fn fields_of_no_name_give_null() {
    let (connection, table) = with_documents("people", &["{\"name\":\"Bob\"}", "{\"age\":13}"]);
    let read = columns(&connection, &table.iter().fields(&[]));
    assert_eq!(read.len(), 2);
    assert!(matches!(read[0], ColumnValue::Null));
    assert!(matches!(read[1], ColumnValue::Null));
}

#[test]
fn set_over_all_rows_is_read_back() {
    let (connection, table) = with_documents("people", &["{\"age\":19}"]);
    connection.execute(&table.iter().set("age"), &[(":value", &13)]).unwrap();
    assert_eq!(integers(&connection, &table.iter().field("age")), vec![13]);
}

#[test]
fn insert_field_is_a_no_op_where_the_field_is() {
    let (connection, table) = with_documents("people", &["{\"age\":19}"]);
    connection.execute(&table.iter().insert("age"), &[(":value", &13)]).unwrap();
    assert_eq!(documents(&connection, &table.iter().data()), vec![document("{\"age\":19}")]);
}

#[test]
fn insert_field_creates_the_field_where_it_is_not() {
    let (connection, table) = with_documents("people", &["{\"name\":\"Bob\"}"]);
    connection.execute(&table.iter().insert("age"), &[(":value", &13)]).unwrap();
    assert_eq!(
        documents(&connection, &table.iter().data()),
        vec![document("{\"name\":\"Bob\",\"age\":13}")]
    );
}

#[test]
fn patch_with_an_array_replaces_the_array() {
    let (connection, table) = with_documents("people", &["{\"grades\":[6,8,7]}"]);
    connection.execute(&table.iter().patch(), &[(":value", "{\"grades\":[9]}")]).unwrap();
    assert_eq!(documents(&connection, &table.iter().data()), vec![document("{\"grades\":[9]}")]);
}

#[test]
fn patch_merges_objects_field_by_field() {
    let (connection, table) =
        with_documents("people", &["{\"name\":{\"first\":\"A\",\"last\":\"B\"},\"age\":1}"]);
    connection
        .execute(&table.iter().patch(), &[(":value", "{\"name\":{\"last\":\"C\"}}")])
        .unwrap();
    assert_eq!(
        documents(&connection, &table.iter().data()),
        vec![document("{\"name\":{\"first\":\"A\",\"last\":\"C\"},\"age\":1}")]
    );
}

#[test]
fn set_creates_or_overwrites() {
    let (connection, table) = with_documents("people", &["{\"age\":19}", "{\"name\":\"Bob\"}"]);
    connection.execute(&table.iter().set("age"), &[(":value", &13)]).unwrap();
    assert_eq!(integers(&connection, &table.iter().field("age")), vec![13, 13]);
    assert_eq!(
        documents(&connection, &table.iter().data()),
        vec![document("{\"age\":13}"), document("{\"name\":\"Bob\",\"age\":13}")]
    );
}

#[test]
fn exists_selects_the_rows_that_have_the_field() {
    let (connection, table) = with_documents("test", &["{\"a\":89,\"b\":3}", "{\"b\":3}"]);
    let query = table.iter().filter(field("a").exists_());
    assert_eq!(integers(&connection, &query.id()), vec![1]);
}

#[test]
fn exists_passes_over_null() {
    let (connection, table) = with_documents(
        "test",
        &[
            "{\"a\":3,\"b\":20}",
            "{\"b\":3,\"c\":20}",
            "{\"a\":89,\"b\":3,\"c\":20}",
            "{\"a\":null,\"b\":3,\"c\":20}",
        ],
    );
    let query = table.iter().filter(field("a").exists_());
    assert_eq!(integers(&connection, &query.id()), vec![1, 3]);
}

#[test]
fn insert_field_creates_only() {
    let (connection, table) =
        with_documents("people", &["{\"name\":\"Hiruna\",\"age\":19}", "{\"name\":\"Bob\"}"]);
    connection.execute(&table.iter().insert("age"), &[(":value", &13)]).unwrap();
    assert_eq!(integers(&connection, &table.iter().field("age")), vec![19, 13]);
}

#[test]
fn replace_field_overwrites_only() {
    let (connection, table) =
        with_documents("people", &["{\"name\":\"Hiruna\",\"age\":19}", "{\"name\":\"Bob\"}"]);
    connection.execute(&table.iter().replace("age"), &[(":value", &13)]).unwrap();
    assert_eq!(
        documents(&connection, &table.iter().data()),
        vec![document("{\"name\":\"Hiruna\",\"age\":13}"), document("{\"name\":\"Bob\"}")]
    );
}

#[test]
fn patch_replaces_arrays_whole() {
    let (connection, table) = with_documents(
        "people",
        &["{\"name\":\"Alex\",\"grades\":[6,8,7]}", "{\"name\":\"Bob\",\"age\":19}"],
    );
    connection
        .execute(&table.iter().patch(), &[(":value", "{\"age\":13,\"grades\":[9]}")])
        .unwrap();
    assert_eq!(
        documents(&connection, &table.iter().data()),
        vec![
            document("{\"name\":\"Alex\",\"grades\":[9],\"age\":13}"),
            document("{\"name\":\"Bob\",\"age\":13,\"grades\":[9]}")
        ]
    );
    assert_eq!(
        documents(&connection, &table.iter().field("grades")),
        vec![document("[9]"), document("[9]")]
    );
}

#[test]
fn remove_field_keeps_the_rows() {
    let (connection, table) =
        with_documents("people", &["{\"name\":\"Hiruna\",\"age\":19}", "{\"name\":\"Bob\",\"age\":13}"]);
    connection.execute(&table.iter().remove("age"), ()).unwrap();
    assert_eq!(
        documents(&connection, &table.iter().data()),
        vec![document("{\"name\":\"Hiruna\"}"), document("{\"name\":\"Bob\"}")]
    );
    connection.execute(&table.iter().remove("age"), ()).unwrap();
    assert_eq!(integers(&connection, &table.iter().id()), vec![1, 2]);
}

#[test]
fn writes_touch_the_filtered_rows_only() {
    let (connection, table) = with_documents("people", &["{\"age\":19}", "{\"age\":13}", "{\"age\":20}"]);
    let adults = table.iter().filter(field("age").gte(text("18")));
    connection.execute(&adults.set("adult"), &[(":value", &1)]).unwrap();
    assert_eq!(
        documents(&connection, &table.iter().data()),
        vec![document("{\"age\":19,\"adult\":1}"), document("{\"age\":13}"), document("{\"age\":20,\"adult\":1}")]
    );
}

#[test]
fn delete_removes_the_filtered_rows() {
    let (connection, table) = with_documents("test", &["9", "10", "12", "3"]);
    assert_eq!(integers(&connection, &table.iter().id()).len(), 4);
    connection.execute(&table.iter().filter(field("").gte(text("10"))).delete(), ()).unwrap();
    assert_eq!(integers(&connection, &table.iter().field("")), vec![9, 3]);
    connection.execute(&table.iter().delete(), ()).unwrap();
    assert_eq!(integers(&connection, &table.iter().id()), Vec::<i64>::new());
}

#[test]
fn delete_by_id_succeeds_without_a_row() {
    let (connection, table) = with_documents("people", &["1", "2"]);
    assert_eq!(connection.execute(&table.delete(), (1,)).unwrap(), 1);
    assert_eq!(integers(&connection, &table.iter().id()), vec![2]);
    assert_eq!(connection.execute(&table.delete(), (1,)).unwrap(), 0);
    assert_eq!(connection.execute(&table.delete(), (77,)).unwrap(), 0);
    assert_eq!(integers(&connection, &table.iter().id()), vec![2]);
}

#[test]
fn one_row_reads() {
    let (connection, table) =
        with_documents("people", &["{\"name\":\"Hiruna\"}", "{\"name\":\"Bobby\"}"]);
    let row = table.get(2);
    let mut prepared = connection.prepare(&row.id()).unwrap();
    assert_eq!(prepared.query_row((row.id,), |r| r.get::<_, i64>(0)).unwrap(), 2);
    let mut prepared = connection.prepare(&row.field("name")).unwrap();
    assert_eq!(prepared.query_row((row.id,), |r| r.get::<_, String>(0)).unwrap(), "Bobby");
    let mut prepared = connection.prepare(&row.data()).unwrap();
    assert_eq!(
        prepared.query_row((row.id,), |r| r.get::<_, String>(0)).unwrap(),
        "{\"name\":\"Bobby\"}"
    );
    let mut prepared = connection.prepare(&row.entry()).unwrap();
    assert_eq!(
        prepared
            .query_row((row.id,), |r| Ok((r.get::<_, i64>(0)?, r.get::<_, String>(1)?)))
            .unwrap(),
        (2, text("{\"name\":\"Bobby\"}"))
    );
}

#[test]
fn one_row_read_of_a_missing_id_gives_no_row() {
    let (connection, table) = with_documents("people", &["{\"name\":\"Hiruna\"}"]);
    let row = table.get(5);
    let mut prepared = connection.prepare(&row.id()).unwrap();
    assert!(matches!(
        prepared.query_row((row.id,), |r| r.get::<_, i64>(0)),
        Err(rusqlite::Error::QueryReturnedNoRows)
    ));
}

#[test]
fn one_row_remove_touches_that_row() {
    let (connection, table) =
        with_documents("people", &["{\"name\":\"Hiruna\",\"age\":19}", "{\"name\":\"Bob\",\"age\":13}"]);
    let row = table.get(2);
    assert_eq!(connection.execute(&row.remove("age"), (row.id,)).unwrap(), 1);
    assert_eq!(
        documents(&connection, &table.iter().data()),
        vec![document("{\"name\":\"Hiruna\",\"age\":19}"), document("{\"name\":\"Bob\"}")]
    );
    let missing = table.get(9);
    assert_eq!(connection.execute(&missing.remove("age"), (missing.id,)).unwrap(), 0);
}

#[test]
fn sort_orders_the_rows() {
    let (connection, table) = with_documents(
        "test",
        &["{\"a\":3,\"b\":2}", "{\"a\":6,\"b\":1}", "{\"a\":2,\"b\":8}", "{\"a\":8,\"b\":4}"],
    );
    assert_eq!(
        integers(&connection, &table.iter().sort(field("a").ascending()).field("a")),
        vec![2, 3, 6, 8]
    );
    assert_eq!(
        integers(&connection, &table.iter().sort(field("a").descending()).field("a")),
        vec![8, 6, 3, 2]
    );
    assert_eq!(
        integers(&connection, &table.iter().sort(field("a").ascending().not()).field("a")),
        vec![8, 6, 3, 2]
    );
}

#[test]
fn sort_by_two_keys_counts_the_first_most() {
    let (connection, table) = with_documents(
        "test",
        &["{\"a\":2,\"b\":2}", "{\"a\":2,\"b\":1}", "{\"a\":8,\"b\":4}", "{\"a\":2,\"b\":8}"],
    );
    let order = field("a").ascending().and(field("b").ascending());
    assert_eq!(integers(&connection, &table.iter().sort(order).id()), vec![2, 1, 4, 3]);
    let order = field("a").descending().and(field("b").descending());
    assert_eq!(integers(&connection, &table.iter().sort(order).id()), vec![3, 4, 1, 2]);
}

#[test]
fn sorted_window() {
    let (connection, table) = with_documents(
        "test",
        &["{\"a\":3}", "{\"a\":6}", "{\"a\":2}", "{\"a\":8}", "{\"a\":5}"],
    );
    let query = table.iter().sort(field("a").ascending()).take(2).skip(1);
    assert_eq!(integers(&connection, &query.field("a")), vec![3, 5]);
    let query = table
        .iter()
        .filter(field("a").gt(text("2")))
        .sort(field("a").descending())
        .skip(1)
        .take(2);
    assert_eq!(integers(&connection, &query.field("a")), vec![6, 5]);
}

#[test]
fn window_keeps_the_rows_from_offset_to_offset_plus_limit() {
    let stored: Vec<String> = (0..10).map(|i| format!("{}", i * 10)).collect();
    let stored: Vec<&str> = stored.iter().map(|s| s.as_str()).collect();
    let (connection, table) = with_documents("numbers", &stored);
    let all = integers(&connection, &table.iter().sort(field("").ascending()).field(""));
    assert_eq!(all, vec![0, 10, 20, 30, 40, 50, 60, 70, 80, 90]);
    for n in 0..12u32 {
        for m in 0..12u32 {
            let query = table.iter().sort(field("").ascending()).take(n).skip(m);
            let from = (m as usize).min(all.len());
            let to = (m as usize + n as usize).min(all.len());
            assert_eq!(integers(&connection, &query.field("")), all[from..to].to_vec());
            let query = table.iter().sort(field("").ascending()).skip(m).take(n);
            assert_eq!(integers(&connection, &query.field("")), all[from..to].to_vec());
        }
    }
}

#[test]
fn take_nothing_gives_no_row() {
    let (connection, table) = with_documents("numbers", &["1", "2", "3"]);
    assert_eq!(integers(&connection, &table.iter().take(0).field("")), Vec::<i64>::new());
    assert_eq!(integers(&connection, &table.iter().take(0).skip(1).field("")), Vec::<i64>::new());
}

#[test]
fn skip_beyond_the_rows_gives_no_row() {
    let (connection, table) = with_documents("numbers", &["1", "2", "3"]);
    assert_eq!(integers(&connection, &table.iter().skip(3).field("")), Vec::<i64>::new());
    assert_eq!(integers(&connection, &table.iter().skip(100).take(2).field("")), Vec::<i64>::new());
    assert_eq!(integers(&connection, &table.iter().skip(2).field("")), vec![3]);
}

#[test]
fn skip_and_take_without_sort_follow_the_table() {
    let (connection, table) = with_documents(
        "people",
        &["{\"name\":\"Hiruna\"}", "{\"name\":\"Bob\"}", "{\"name\":\"Callum\"}", "{\"name\":\"John\"}"],
    );
    assert_eq!(integers(&connection, &table.iter().skip(2).id()), vec![3, 4]);
    assert_eq!(integers(&connection, &table.iter().take(2).id()), vec![1, 2]);
}

#[test]
fn grouping_of_and_selects_the_same_rows() {
    let (connection, table) = with_documents(
        "test",
        &[
            "{\"a\":1,\"b\":1,\"c\":1}",
            "{\"a\":1,\"b\":1,\"c\":2}",
            "{\"a\":1,\"b\":2,\"c\":1}",
            "{\"a\":2,\"b\":1,\"c\":1}",
            "{\"a\":1,\"b\":1}",
            "{\"a\":1,\"c\":1}",
            "{\"b\":1,\"c\":1}",
            "{\"a\":1,\"b\":1,\"c\":1,\"d\":4}",
        ],
    );
    let a = || field("a").eq(text("1"));
    let b = || field("b").eq(text("1"));
    let c = || field("c").eq(text("1"));
    let left = table.iter().filter(a().and(b()).and(c()));
    let right = table.iter().filter(a().and(b().and(c())));
    assert_ne!(left.id(), right.id());
    assert_eq!(integers(&connection, &left.id()), vec![1, 8]);
    assert_eq!(integers(&connection, &right.id()), vec![1, 8]);
}

#[test]
fn grouping_of_or_selects_the_same_rows() {
    let (connection, table) = with_documents(
        "test",
        &["{\"a\":1}", "{\"b\":1}", "{\"c\":1}", "{\"d\":1}", "{\"a\":2,\"b\":2,\"c\":1}"],
    );
    let a = || field("a").eq(text("1"));
    let b = || field("b").eq(text("1"));
    let c = || field("c").eq(text("1"));
    let left = table.iter().filter(a().or(b()).or(c()));
    let right = table.iter().filter(a().or(b().or(c())));
    assert_eq!(integers(&connection, &left.id()), vec![1, 2, 3, 5]);
    assert_eq!(integers(&connection, &right.id()), vec![1, 2, 3, 5]);
}

#[test]
fn not_equal_selects_the_complement_among_the_rows_with_a_value() {
    let (connection, table) = with_documents(
        "test",
        &["{\"k\":1}", "{\"k\":2}", "{\"k\":null}", "{\"j\":1}", "{\"k\":1,\"j\":2}", "{\"k\":\"1\"}"],
    );
    let with_value = integers(&connection, &table.iter().filter(field("k").exists_()).id());
    assert_eq!(with_value, vec![1, 2, 5, 6]);
    let equal = integers(&connection, &table.iter().filter(field("k").eq(text("1"))).id());
    let not_equal =
        integers(&connection, &table.iter().filter(field("k").eq(text("1")).not()).id());
    assert_eq!(equal, vec![1, 5]);
    assert_eq!(not_equal, vec![2, 6]);
    for id in with_value {
        assert_ne!(equal.contains(&id), not_equal.contains(&id));
    }
    for id in [3, 4] {
        assert!(!equal.contains(&id) && !not_equal.contains(&id));
    }
}

#[test]
fn not_over_the_root_of_the_document() {
    let (connection, table) = with_documents("test", &["1", "2", "3", "1"]);
    let query = table.iter().filter(field("").eq(text("1")).not());
    assert_eq!(integers(&connection, &query.field("")), vec![2, 3]);
}

#[test]
fn comparisons_select() {
    let (connection, table) = with_documents(
        "test",
        &["{\"number\":3}", "{\"number\":9}", "{\"number\":2}", "{\"number\":4}", "{\"number\":3}"],
    );
    let number = |filter: String| integers(&connection, &filter);
    assert_eq!(number(table.iter().filter(field("number").eq(text("3"))).field("number")), vec![3, 3]);
    assert_eq!(
        number(table.iter().filter(field("number").neq(text("3"))).field("number")),
        vec![9, 2, 4]
    );
    assert_eq!(number(table.iter().filter(field("number").gt(text("4"))).field("number")), vec![9]);
    assert_eq!(
        number(table.iter().filter(field("number").gte(text("4"))).field("number")),
        vec![9, 4]
    );
    assert_eq!(
        number(table.iter().filter(field("number").lt(text("4"))).field("number")),
        vec![3, 2, 3]
    );
    assert_eq!(
        number(table.iter().filter(field("number").lte(text("4"))).field("number")),
        vec![3, 2, 4, 3]
    );
}

#[test]
fn column_keys_select() {
    let (connection, table) = with_documents("test", &["10", "20", "30"]);
    let query = table.iter().filter(nosqlite::column("id").gt(text("1")));
    assert_eq!(integers(&connection, &query.id()), vec![2, 3]);
    let query = table.iter().sort(nosqlite::column("id").descending());
    assert_eq!(integers(&connection, &query.field("")), vec![30, 20, 10]);
}

#[test]
fn like_selects_by_pattern() {
    let (connection, table) = with_documents(
        "test",
        &[
            "{\"name\":\"Hiruna\"}",
            "{\"name\":\"Alex\"}",
            "{\"name\":\"Bob\"}",
            "{\"name\":\"Haruna\"}",
            "{\"name\":\"Felix\"}",
        ],
    );
    let query = table.iter().filter(field("name").like(true, text("x"), false));
    assert_eq!(integers(&connection, &query.id()), vec![2, 5]);
    let query = table.iter().filter(field("name").like(false, text("H%runa"), false));
    assert_eq!(integers(&connection, &query.id()), vec![1, 4]);
    let query = table.iter().filter(field("name").like(false, text("Ha"), true));
    assert_eq!(integers(&connection, &query.id()), vec![4]);
}

#[test]
fn absent_filter_in_a_composition_selects_by_the_rest() {
    let (connection, table) = with_documents("test", &["1", "2", "3"]);
    let query = table.iter().filter(Filter::and((), field("").gt(text("1"))));
    assert_eq!(integers(&connection, &query.field("")), vec![2, 3]);
    let query = table.iter().filter(Filter::not(Filter::or((), ())));
    assert_eq!(integers(&connection, &query.field("")), vec![1, 2, 3]);
}

#[test]
fn unchecked_filter_goes_to_the_engine_as_it_is() {
    let (connection, table) = with_documents("test", &["1", "2", "3", "4"]);
    let query = table.iter().filter(Unchecked(text("id % 2 = 0")));
    assert_eq!(integers(&connection, &query.id()), vec![2, 4]);
}

#[test]
fn malformed_unchecked_filter_is_a_statement_error() {
    let (connection, table) = with_documents("test", &["1"]);
    let query = table.iter().filter(Unchecked(text("id = (")));
    assert!(connection.prepare(&query.id()).is_err());
}

#[test]
fn index_is_created() {
    let (connection, table) =
        with_documents("test", &["{\"id\":1,\"name\":\"a\"}", "{\"id\":2,\"name\":\"b\"}"]);
    connection.execute(&table.index("bench_index", &[field("id")]), ()).unwrap();
    connection.execute(&table.index("both", &[field("name"), field("id")]), ()).unwrap();
    let found = integers(
        &connection,
        "SELECT count(*) FROM sqlite_master WHERE type = 'index' AND tbl_name = 'test'",
    );
    assert_eq!(found, vec![2]);
    let query = table.iter().filter(field("id").gt(text("1")).and(field("id").lt(text("3"))));
    assert_eq!(integers(&connection, &query.id()), vec![2]);
}

#[test]
fn reading_a_number_column_as_a_document_is_a_type_error() {
    let (connection, table) = with_documents("people", &["{\"age\":19}"]);
    let read = columns(&connection, &table.iter().field("age"));
    assert_eq!(read.len(), 1);
    assert!(matches!(read[0], ColumnValue::Integer(19)));
    assert!(matches!(parse(&read[0]), Err(nosqlite::CodecError::InvalidType)));
    let read = columns(&connection, &table.iter().field("missing"));
    assert!(matches!(read[0], ColumnValue::Null));
    assert!(matches!(parse(&read[0]), Err(nosqlite::CodecError::InvalidType)));
}

#[test]
fn custom_table_layout() {
    let table: Table<String> = Table::unchecked("uuid", "doc", "notes");
    let connection = Connection::open_in_memory().unwrap();
    connection.execute(&table.bootstrap(), ()).unwrap();
    connection
        .execute("INSERT INTO notes (uuid, doc) VALUES (?, ?)", ("a-1", "{\"n\":1}"))
        .unwrap();
    connection
        .execute("INSERT INTO notes (uuid, doc) VALUES (?, ?)", ("b-2", "{\"n\":2}"))
        .unwrap();
    let row = table.get(text("b-2"));
    let mut prepared = connection.prepare(&row.field("n")).unwrap();
    assert_eq!(prepared.query_row((row.id.as_str(),), |r| r.get::<_, i64>(0)).unwrap(), 2);
    assert_eq!(connection.execute(&table.delete(), ("a-1",)).unwrap(), 1);
    assert_eq!(integers(&connection, &table.iter().field("n")), vec![2]);
}
