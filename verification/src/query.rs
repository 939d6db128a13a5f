//! The one query that the monitor sends, and the count in its answer.

use vstd::prelude::*;
use vstd::string::*;

verus! {

/// The keyspace that the monitor works in.
pub open spec fn keyspace_text() -> Seq<char> {
    "myapp"@
}

/// The table whose rows are counted.
pub open spec fn table_text() -> Seq<char> {
    "comments"@
}

/// The query that counts the rows of the table.
pub open spec fn count_query_text() -> Seq<char> {
    "SELECT COUNT(*) FROM "@ + table_text()
}

/// The keyspace that the monitor works in.
pub fn keyspace_name() -> (name: &'static str)
    ensures
        name@ == keyspace_text(),
{
    "myapp"
}

/// The table whose rows are counted.
pub fn table_name() -> (name: &'static str)
    ensures
        name@ == table_text(),
{
    "comments"
}

/// The query that counts the rows of the table.
pub fn count_query() -> (query: String)
    ensures
        query@ == count_query_text(),
{
    let mut query = String::from_str("SELECT COUNT(*) FROM ");
    query.append(table_name());
    query
}

/// A column value, as far as the monitor tells values apart: a 64-bit
/// integer, or anything else.
#[derive(Clone, Copy, Debug, PartialEq, Eq, Structural)]
pub enum Value {
    /// A 64-bit signed integer, which is what a count comes as.
    BigInt(i64),
    /// A value of any other type.
    Other,
}

impl Value {
    /// The integer that this value holds, if it holds one.
    pub open spec fn bigint(self) -> Option<i64> {
        match self {
            Value::BigInt(n) => Some(n),
            Value::Other => None,
        }
    }

    /// The integer that this value holds, if it holds one.
    pub fn as_bigint(&self) -> (held: Option<i64>)
        ensures
            held == self.bigint(),
    {
        match self {
            Value::BigInt(n) => Some(*n),
            Value::Other => None,
        }
    }
}

/// One row of an answer: its columns in order, `None` where a column is
/// null.
#[derive(Clone, Debug, PartialEq, Eq)]
pub struct Row {
    pub columns: Vec<Option<Value>>,
}

impl View for Row {
    type V = Seq<Option<Value>>;

    open spec fn view(&self) -> Seq<Option<Value>> {
        self.columns@
    }
}

/// The answer to a query: its rows in order, or `None` where the query is
/// of a kind that returns no rows.
#[derive(Clone, Debug, PartialEq, Eq)]
pub struct QueryResult {
    pub rows: Option<Vec<Row>>,
}

/// The rows of an answer as mathematical sequences.
pub type Rows = Option<Seq<Seq<Option<Value>>>>;

impl View for QueryResult {
    type V = Rows;

    open spec fn view(&self) -> Rows {
        match self.rows {
            Some(rows) => Some(rows@.map_values(|row: Row| row@)),
            None => None,
        }
    }
}

/// The first column of the first row, where there is one and it is not
/// null.
pub open spec fn first_value(rows: Rows) -> Option<Value> {
    match rows {
        Some(rows) => if rows.len() > 0 && rows[0].len() > 0 {
            rows[0][0]
        } else {
            None
        },
        None => None,
    }
}

/// The count that an answer carries: the integer in the first column of the
/// first row. Where there is no row, no column, a null or a value that is no
/// 64-bit integer, the count is zero.
pub open spec fn count_of(rows: Rows) -> int {
    match first_value(rows) {
        Some(Value::BigInt(n)) => n as int,
        _ => 0,
    }
}

/// Takes the count out of an answer.
pub fn row_count(result: &QueryResult) -> (count: i64)
    ensures
        count == count_of(result@),
{
    match &result.rows {
        Some(rows) => {
            if rows.len() > 0 && rows[0].columns.len() > 0 {
                match &rows[0].columns[0] {
                    Some(value) => match value.as_bigint() {
                        Some(n) => n,
                        None => 0,
                    },
                    None => 0,
                }
            } else {
                0
            }
        },
        None => 0,
    }
}

/// An answer without a row, without a column, or with a null in the first
/// column of the first row counts as zero.
pub proof fn law_absent_count_is_zero(rows: Rows)
    requires
        rows is None || rows->0.len() == 0 || rows->0[0].len() == 0 || rows->0[0][0] is None,
    ensures
        count_of(rows) == 0,
{
}

/// The count is the integer in the first column of the first row, whatever
/// else the answer holds.
pub proof fn law_count_is_first_value(rows: Rows, n: i64)
    requires
        rows is Some,
        rows->0.len() > 0,
        rows->0[0].len() > 0,
        rows->0[0][0] == Some(Value::BigInt(n)),
    ensures
        count_of(rows) == n,
{
}

} // verus!
