//! The operations of the service. Each runs one command on the connection
//! that it is given and turns the engine's answer into its result.
//!
//! What the engine answers is not known here, so each contract says what
//! the operation may return whatever the answer is: the outcome, as
//! `outcome` defines it, of some answer that is either a value or a storage
//! failure.

use vstd::prelude::*;
use crate::article::{Article, ArticleView, Record, RecordView};
use crate::command::Command;
use crate::engine::{execute, optional, query_map, query_row};
use crate::error::{engine_failure, settled, ErrorKind, MyError, MyErrorView};
use crate::outcome::{
    changed_view, create_outcome, created, fetched_view, found, list_outcome, listed,
    listing_view, outcome_view, read_outcome, scanned_view, update_outcome, updated,
};

verus! {

/// Whether `answer` is a value, or a failure of the storage engine.
pub open spec fn from_engine<T>(answer: Result<T, MyErrorView>) -> bool {
    answer matches Err(error) ==> error.kind == ErrorKind::Storage
}

/// The view of a result that carries no value.
pub open spec fn unit_view(result: Result<(), MyError>) -> Result<(), MyErrorView> {
    match result {
        Ok(()) => Ok(()),
        Err(error) => Err(error@),
    }
}

/// What `init_db` may return: success, or the report of the engine's error.
pub open spec fn may_init(result: Result<(), MyErrorView>) -> bool {
    result matches Err(error) ==> engine_failure(error)
}

/// What `create` may return for `article`.
pub open spec fn may_create(article: ArticleView, result: Result<ArticleView, MyErrorView>) -> bool {
    exists|inserted: Result<int, MyErrorView>|
        from_engine(inserted) && result == #[trigger] create_outcome(article, inserted)
}

/// What `read` may return for `id`.
pub open spec fn may_read(id: int, result: Result<ArticleView, MyErrorView>) -> bool {
    exists|fetched: Result<Option<RecordView>, MyErrorView>|
        from_engine(fetched) && result == #[trigger] read_outcome(id, fetched)
}

/// What `list` may return.
pub open spec fn may_list(result: Result<Seq<ArticleView>, MyErrorView>) -> bool {
    exists|scanned: Result<Seq<Option<RecordView>>, MyErrorView>|
        from_engine(scanned) && result == #[trigger] list_outcome(scanned)
}

/// What `update` may return for `id` and `article`.
pub open spec fn may_update(
    id: int,
    article: ArticleView,
    result: Result<ArticleView, MyErrorView>,
) -> bool {
    exists|changed: Result<nat, MyErrorView>|
        from_engine(changed) && result == #[trigger] update_outcome(id, article, changed)
}

/// Runs a command that returns no rows. `Ok` carries the number of rows
/// that the engine says it changed; a failure reports the engine's error.
fn run(conn: &rusqlite::Connection, command: &Command) -> (changed: Result<usize, MyError>)
    ensures
        changed matches Err(error) ==> engine_failure(error@),
        from_engine(changed_view(changed)),
{
    let answer = execute(conn, command.sql, &command.params);
    let changed = settled(answer);
    changed
}

/// Runs a query and reads its first row. `Ok(None)` means that it returned
/// no row; a failure reports the engine's error.
fn fetch_one(conn: &rusqlite::Connection, command: &Command) -> (fetched: Result<
    Option<Record>,
    MyError,
>)
    ensures
        fetched matches Err(error) ==> engine_failure(error@),
        from_engine(fetched_view(fetched)),
{
    let answer = match conn.prepare(command.sql) {
        Ok(mut prepared) => optional(query_row(&mut prepared, &command.params)),
        Err(err) => Err(err),
    };
    let fetched = settled(answer);
    fetched
}

/// Runs a query and reads all its rows, in the order in which the engine
/// returns them. A row that cannot be read is an `Err` in the list.
fn fetch_all(conn: &rusqlite::Connection, command: &Command) -> (scanned: Result<
    Vec<Result<Record, rusqlite::Error>>,
    MyError,
>)
    ensures
        scanned matches Err(error) ==> engine_failure(error@),
        from_engine(scanned_view(scanned)),
{
    let answer = match conn.prepare(command.sql) {
        Ok(mut prepared) => query_map(&mut prepared, &command.params),
        Err(err) => Err(err),
    };
    let scanned = settled(answer);
    scanned
}

/// Makes sure that the table of articles exists. Safe to call on a database
/// that has the table already.
pub fn init_db(conn: &rusqlite::Connection) -> (result: Result<(), MyError>)
    ensures
        may_init(unit_view(result)),
{
    match run(conn, &Command::schema()) {
        Ok(_) => Ok(()),
        Err(error) => Err(error),
    }
}

/// Stores `article` as a new row and returns it under the id that the
/// engine assigned. The id of `article` plays no part.
pub fn create(conn: &rusqlite::Connection, article: Article) -> (result: Result<Article, MyError>)
    ensures
        may_create(article@, outcome_view(result)),
{
    let inserted = match run(conn, &Command::insert(&article)) {
        Ok(_) => Ok(conn.last_insert_rowid()),
        Err(error) => Err(error),
    };
    created(article, inserted)
}

/// Returns the article stored under `id`.
pub fn read(conn: &rusqlite::Connection, id: i32) -> (result: Result<Article, MyError>)
    ensures
        may_read(id as int, outcome_view(result)),
{
    let fetched = fetch_one(conn, &Command::select_one(id));
    found(id, fetched)
}

/// Returns every article, in the order in which the engine scans the table.
/// A row that cannot be read as an article is left out.
pub fn list(conn: &rusqlite::Connection) -> (result: Result<Vec<Article>, MyError>)
    ensures
        may_list(listing_view(result)),
{
    let scanned = fetch_all(conn, &Command::select_all());
    listed(scanned)
}

/// Gives the article stored under `id` the title and content of `article`,
/// and returns `article` under `id`. The id of `article` plays no part.
pub fn update(conn: &rusqlite::Connection, id: i32, article: Article) -> (result: Result<
    Article,
    MyError,
>)
    ensures
        may_update(id as int, article@, outcome_view(result)),
{
    let changed = run(conn, &Command::update(id, &article));
    updated(id, article, changed)
}

} // verus!
