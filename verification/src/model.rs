//! A model of the table of articles, and of what the commands of the
//! service mean to an engine that keeps such a table.
//!
//! The model is a yardstick for the service, not a claim about any engine:
//! the laws of this crate say what the operations amount to on a table that
//! behaves like this one. Two things are the engine's to choose, and the
//! model leaves them open: the id of a new row, and the order of a scan.

use vstd::prelude::*;
use crate::article::RecordView;
use crate::outcome::fits_id;
use crate::command::{CommandView, SqlValueView};

verus! {

/// What the table holds of one article, beside its id.
pub struct Stored {
    pub title: Seq<char>,
    pub content: Seq<char>,
}

/// The table of articles: what is stored, by id.
pub type Table = Map<int, Stored>;

/// The text bound to a parameter.
pub open spec fn text_of(value: SqlValueView) -> Seq<char>
    recommends
        value is Text,
{
    match value {
        SqlValueView::Text(text) => text,
        SqlValueView::Integer(_) => Seq::empty(),
    }
}

/// The integer bound to a parameter.
pub open spec fn integer_of(value: SqlValueView) -> int
    recommends
        value is Integer,
{
    match value {
        SqlValueView::Integer(i) => i,
        SqlValueView::Text(_) => 0,
    }
}

/// The row that the table holds under `id`.
pub open spec fn row(table: Table, id: int) -> RecordView
    recommends
        table.dom().contains(id),
{
    RecordView { id, title: table[id].title, content: table[id].content }
}

/// The table after an insert command, where the engine gave the new row
/// the id `rowid`, one that was not in use. The command binds the title,
/// then the content.
pub open spec fn after_insert(table: Table, command: CommandView, rowid: int) -> Table
    recommends
        command.params.len() == 2,
{
    table.insert(
        rowid,
        Stored { title: text_of(command.params[0]), content: text_of(command.params[1]) },
    )
}

/// The answer to a command that selects one row. The command binds the
/// id.
pub open spec fn select_one(table: Table, command: CommandView) -> Option<RecordView>
    recommends
        command.params.len() == 1,
{
    let id = integer_of(command.params[0]);
    if table.dom().contains(id) {
        Some(row(table, id))
    } else {
        None
    }
}

/// The number of rows that an update command changes. The command binds
/// the title, then the content, then the id.
pub open spec fn update_count(table: Table, command: CommandView) -> nat
    recommends
        command.params.len() == 3,
{
    if table.dom().contains(integer_of(command.params[2])) {
        1
    } else {
        0
    }
}

/// The table after an update command: the row under the id has the new
/// title and content, if there is such a row; no row is added.
pub open spec fn after_update(table: Table, command: CommandView) -> Table
    recommends
        command.params.len() == 3,
{
    let id = integer_of(command.params[2]);
    if table.dom().contains(id) {
        table.insert(
            id,
            Stored { title: text_of(command.params[0]), content: text_of(command.params[1]) },
        )
    } else {
        table
    }
}

/// Whether `order` is an order in which the engine may scan the table: it
/// visits every row once.
pub open spec fn is_scan(table: Table, order: Seq<int>) -> bool {
    order.no_duplicates() && order.to_set() == table.dom()
}

/// What a scan hands out for the row under `id`: the row, or nothing if its
/// id is none that an article can hold.
pub open spec fn scanned_row(table: Table, id: int) -> Option<RecordView> {
    if fits_id(id) {
        Some(row(table, id))
    } else {
        None
    }
}

/// The answer to a command that selects every row, where the engine scans
/// the table in the order `order`.
pub open spec fn select_all(table: Table, order: Seq<int>) -> Seq<Option<RecordView>> {
    order.map_values(|id: int| scanned_row(table, id))
}

/// The table after the articles bound by `commands` were inserted in turn
/// into an empty table, the engine assigning the ids `rowids` in turn. The
/// engine gives a new row an id that is not in use, so no id is in `rowids`
/// twice.
pub open spec fn after_inserts(commands: Seq<CommandView>, rowids: Seq<int>) -> Table
    recommends
        commands.len() == rowids.len(),
    decreases commands.len(),
{
    if commands.len() == 0 {
        Map::empty()
    } else {
        after_insert(
            after_inserts(commands.drop_last(), rowids.drop_last()),
            commands.last(),
            rowids.last(),
        )
    }
}

} // verus!
