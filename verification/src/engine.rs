//! The calls into the storage engine. Nothing in this file is proved. What
//! the engine answers depends on the database behind the connection, so the
//! functions that reach it promise nothing about their results.

use vstd::prelude::*;
use crate::article::Record;
use crate::command::SqlValue;

verus! {

#[verifier::external_type_specification]
#[verifier::external_body]
pub struct ExConnection(rusqlite::Connection);

#[verifier::external_type_specification]
#[verifier::external_body]
pub struct ExPrepared<'conn>(rusqlite::Statement<'conn>);

#[verifier::external_type_specification]
#[verifier::external_body]
pub struct ExEngineError(rusqlite::Error);

/// `rusqlite::Connection::last_insert_rowid`: the row id of the most recent
/// successful insert on this connection. Nothing is claimed of it.
pub assume_specification[ rusqlite::Connection::last_insert_rowid ](
    conn: &rusqlite::Connection,
) -> (rowid: i64)
;

/// `rusqlite::Connection::prepare`: compiles the text of a statement.
/// Nothing is claimed of the result.
pub assume_specification<'conn>[ rusqlite::Connection::prepare ](
    conn: &'conn rusqlite::Connection,
    sql: &str,
) -> (prepared: Result<rusqlite::Statement<'conn>, rusqlite::Error>)
;

/// `rusqlite::Connection::execute`: prepares the statement, binds `params`
/// in order and runs it. `Ok` carries the number of rows that the statement
/// changed. Nothing is claimed of the result.
#[verifier::external_body]
pub(crate) fn execute(conn: &rusqlite::Connection, sql: &str, params: &Vec<SqlValue>) -> (changed:
    Result<usize, rusqlite::Error>) {
    conn.execute(
        sql,
        rusqlite::params_from_iter(
            params.iter().map(
                |value| match value {
                    SqlValue::Integer(i) => rusqlite::types::Value::Integer(*i),
                    SqlValue::Text(s) => rusqlite::types::Value::Text(s.clone()),
                },
            ),
        ),
    )
}

/// `rusqlite::Statement::query_row`: binds `params` in order, runs the query
/// and reads the columns 0, 1 and 2 of its first row as an integer and two
/// texts. Nothing is claimed of the result.
#[verifier::external_body]
pub(crate) fn query_row(prepared: &mut rusqlite::Statement<'_>, params: &Vec<SqlValue>) -> (row:
    Result<Record, rusqlite::Error>) {
    prepared.query_row(
        rusqlite::params_from_iter(
            params.iter().map(
                |value| match value {
                    SqlValue::Integer(i) => rusqlite::types::Value::Integer(*i),
                    SqlValue::Text(s) => rusqlite::types::Value::Text(s.clone()),
                },
            ),
        ),
        |row| Ok(Record { id: row.get(0)?, title: row.get(1)?, content: row.get(2)? }),
    )
}

/// `rusqlite::OptionalExtension::optional`: a value stays, as `Some`; the
/// error that a query returned no rows becomes `Ok(None)`; any other error
/// stays. Which errors say "no rows" is not stated here.
#[verifier::external_body]
pub(crate) fn optional(row: Result<Record, rusqlite::Error>) -> (fetched: Result<
    Option<Record>,
    rusqlite::Error,
>)
    ensures
        match fetched {
            Ok(Some(record)) => row == Ok::<Record, rusqlite::Error>(record),
            Ok(None) => row is Err,
            Err(error) => row == Err::<Record, rusqlite::Error>(error),
        },
{
    rusqlite::OptionalExtension::optional(row)
}

/// `rusqlite::Statement::query_map`: binds `params` in order, runs the query
/// and reads the columns 0, 1 and 2 of each row as an integer and two texts,
/// in the order in which the engine returns the rows. A row that cannot be
/// read so is an `Err` in the list. Nothing is claimed of the result.
#[verifier::external_body]
pub(crate) fn query_map(prepared: &mut rusqlite::Statement<'_>, params: &Vec<SqlValue>) -> (rows:
    Result<Vec<Result<Record, rusqlite::Error>>, rusqlite::Error>) {
    let rows = prepared.query_map(
        rusqlite::params_from_iter(
            params.iter().map(
                |value| match value {
                    SqlValue::Integer(i) => rusqlite::types::Value::Integer(*i),
                    SqlValue::Text(s) => rusqlite::types::Value::Text(s.clone()),
                },
            ),
        ),
        |row| Ok(Record { id: row.get(0)?, title: row.get(1)?, content: row.get(2)? }),
    )?;
    Ok(rows.collect())
}

} // verus!
