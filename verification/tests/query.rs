use select_monitor::query::{
    count_query, keyspace_name, row_count, table_name, QueryResult, Row, Value,
};

fn one_cell(cell: Option<Value>) -> QueryResult {
    QueryResult { rows: Some(vec![Row { columns: vec![cell] }]) }
}

#[test]
fn the_query_counts_the_rows_of_the_table() {
    assert_eq!(count_query(), "SELECT COUNT(*) FROM comments");
}

#[test]
fn keyspace_and_table_are_fixed() {
    assert_eq!(keyspace_name(), "myapp");
    assert_eq!(table_name(), "comments");
}

#[test]
fn count_is_the_first_value_of_the_first_row() {
    assert_eq!(row_count(&one_cell(Some(Value::BigInt(42)))), 42);
    assert_eq!(row_count(&one_cell(Some(Value::BigInt(0)))), 0);
    assert_eq!(row_count(&one_cell(Some(Value::BigInt(-7)))), -7);
    assert_eq!(row_count(&one_cell(Some(Value::BigInt(i64::MAX)))), i64::MAX);
    assert_eq!(row_count(&one_cell(Some(Value::BigInt(i64::MIN)))), i64::MIN);
}

#[test]
fn later_rows_and_columns_do_not_count() {
    let result = QueryResult {
        rows: Some(vec![
            Row { columns: vec![Some(Value::BigInt(3)), Some(Value::BigInt(99)), None] },
            Row { columns: vec![Some(Value::BigInt(1000))] },
        ]),
    };
    assert_eq!(row_count(&result), 3);
}

#[test]
fn an_answer_without_rows_counts_zero() {
    assert_eq!(row_count(&QueryResult { rows: None }), 0);
    assert_eq!(row_count(&QueryResult { rows: Some(vec![]) }), 0);
}

#[test]
fn a_null_count_counts_zero() {
    assert_eq!(row_count(&one_cell(None)), 0);
    let result = QueryResult {
        rows: Some(vec![Row { columns: vec![None, Some(Value::BigInt(5))] }]),
    };
    assert_eq!(row_count(&result), 0);
}

#[test]
fn a_row_without_columns_counts_zero() {
    let result = QueryResult {
        rows: Some(vec![Row { columns: vec![] }, Row { columns: vec![Some(Value::BigInt(5))] }]),
    };
    assert_eq!(row_count(&result), 0);
}

#[test]
fn a_value_of_another_type_counts_zero() {
    assert_eq!(row_count(&one_cell(Some(Value::Other))), 0);
}

#[test]
fn only_a_bigint_holds_an_integer() {
    assert_eq!(Value::BigInt(12).as_bigint(), Some(12));
    assert_eq!(Value::Other.as_bigint(), None);
}

#[test]
fn taking_the_count_leaves_the_answer_as_it_was() {
    let result = one_cell(Some(Value::BigInt(42)));
    let copy = result.clone();
    for _ in 0..5 {
        assert_eq!(row_count(&result), 42);
    }
    assert_eq!(result, copy);
}
