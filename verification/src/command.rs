//! The commands that the service sends to the storage engine.

use vstd::prelude::*;
use crate::article::{Article, ArticleView};

verus! {

/// Creates the table of articles unless it is there already.
pub const SCHEMA_SQL: &'static str =
    "CREATE TABLE IF NOT EXISTS articles (id INTEGER NOT NULL PRIMARY KEY, title TEXT NOT NULL, content TEXT NOT NULL)";

/// Stores a new article; the engine assigns the id.
pub const INSERT_SQL: &'static str = "INSERT INTO articles (title, content) VALUES (?1, ?2)";

/// Fetches the article stored under one id.
pub const SELECT_ONE_SQL: &'static str = "SELECT id, title, content FROM articles WHERE id = ?1";

/// Fetches every article, in the order in which the engine scans the table.
pub const SELECT_ALL_SQL: &'static str = "SELECT id, title, content FROM articles";

/// Replaces title and content of the article stored under one id.
pub const UPDATE_SQL: &'static str = "UPDATE articles SET title = ?1, content = ?2 WHERE id = ?3";

/// A value bound to a parameter of a command, as a mathematical value.
pub enum SqlValueView {
    Integer(int),
    Text(Seq<char>),
}

/// A value bound to a parameter of a command.
#[derive(Debug, PartialEq, Eq)]
pub enum SqlValue {
    Integer(i64),
    Text(String),
}

impl View for SqlValue {
    type V = SqlValueView;

    open spec fn view(&self) -> SqlValueView {
        match self {
            SqlValue::Integer(i) => SqlValueView::Integer(*i as int),
            SqlValue::Text(s) => SqlValueView::Text(s@),
        }
    }
}

/// A command as a mathematical value.
pub struct CommandView {
    pub sql: Seq<char>,
    pub params: Seq<SqlValueView>,
}

/// A command: its text, and the values bound to `?1`, `?2`, ... in turn.
#[derive(Debug, PartialEq, Eq)]
pub struct Command {
    pub sql: &'static str,
    pub params: Vec<SqlValue>,
}

impl View for Command {
    type V = CommandView;

    open spec fn view(&self) -> CommandView {
        CommandView { sql: self.sql@, params: self.params@.map_values(|p: SqlValue| p@) }
    }
}

/// The command that creates the table of articles.
pub open spec fn schema_command() -> CommandView {
    CommandView { sql: SCHEMA_SQL@, params: seq![] }
}

/// The command that stores `article`; its id plays no part.
pub open spec fn insert_command(article: ArticleView) -> CommandView {
    CommandView {
        sql: INSERT_SQL@,
        params: seq![SqlValueView::Text(article.title), SqlValueView::Text(article.content)],
    }
}

/// The command that fetches the article stored under `id`.
pub open spec fn select_one_command(id: int) -> CommandView {
    CommandView { sql: SELECT_ONE_SQL@, params: seq![SqlValueView::Integer(id)] }
}

/// The command that fetches every article.
pub open spec fn select_all_command() -> CommandView {
    CommandView { sql: SELECT_ALL_SQL@, params: seq![] }
}

/// The command that gives the article stored under `id` the title and
/// content of `article`; the id of `article` plays no part.
pub open spec fn update_command(id: int, article: ArticleView) -> CommandView {
    CommandView {
        sql: UPDATE_SQL@,
        params: seq![
            SqlValueView::Text(article.title),
            SqlValueView::Text(article.content),
            SqlValueView::Integer(id),
        ],
    }
}

impl Command {
    /// The command that creates the table of articles.
    pub fn schema() -> (command: Command)
        ensures
            command@ == schema_command(),
    {
        let command = Command { sql: SCHEMA_SQL, params: Vec::new() };
        assert(command@.params =~= seq![]);
        command
    }

    /// The command that stores `article`.
    pub fn insert(article: &Article) -> (command: Command)
        ensures
            command@ == insert_command(article@),
    {
        let mut params: Vec<SqlValue> = Vec::new();
        params.push(SqlValue::Text(article.title.clone()));
        params.push(SqlValue::Text(article.content.clone()));
        let command = Command { sql: INSERT_SQL, params };
        assert(command@.params =~= insert_command(article@).params);
        command
    }

    /// The command that fetches the article stored under `id`.
    pub fn select_one(id: i32) -> (command: Command)
        ensures
            command@ == select_one_command(id as int),
    {
        let mut params: Vec<SqlValue> = Vec::new();
        params.push(SqlValue::Integer(id as i64));
        let command = Command { sql: SELECT_ONE_SQL, params };
        assert(command@.params =~= select_one_command(id as int).params);
        command
    }

    /// The command that fetches every article.
    pub fn select_all() -> (command: Command)
        ensures
            command@ == select_all_command(),
    {
        let command = Command { sql: SELECT_ALL_SQL, params: Vec::new() };
        assert(command@.params =~= seq![]);
        command
    }

    /// The command that gives the article stored under `id` the title and
    /// content of `article`.
    pub fn update(id: i32, article: &Article) -> (command: Command)
        ensures
            command@ == update_command(id as int, article@),
    {
        let mut params: Vec<SqlValue> = Vec::new();
        params.push(SqlValue::Text(article.title.clone()));
        params.push(SqlValue::Text(article.content.clone()));
        params.push(SqlValue::Integer(id as i64));
        let command = Command { sql: UPDATE_SQL, params };
        assert(command@.params =~= update_command(id as int, article@).params);
        command
    }
}

} // verus!
