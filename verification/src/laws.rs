//! What holds of the operations: first whatever the engine answers, then
//! on a table that behaves as `model` describes, where the answer to the
//! command of each operation is the one that such a table gives.

use vstd::prelude::*;
use crate::article::{article_of, stored_as, ArticleView, RecordView};
use crate::error::{not_found, ErrorKind, MyErrorView};
use crate::model::{
    after_insert, after_inserts, after_update, is_scan, row, select_all, select_one, update_count,
    Stored, Table,
};
use crate::command::{insert_command, select_one_command, update_command, CommandView};
use crate::outcome::{
    create_outcome, fits_id, keeper, kept, list_outcome, read_outcome, update_outcome,
};
use crate::service::{may_create, may_list, may_read, may_update};

verus! {

/// Whatever the engine answers, creating returns the article that the
/// caller sent under an id that an article can hold, or a storage failure.
pub proof fn lemma_create_returns(article: ArticleView, result: Result<ArticleView, MyErrorView>)
    requires
        may_create(article, result),
    ensures
        match result {
            Ok(created) => exists|id: int| fits_id(id) && created == stored_as(id, article),
            Err(error) => error.kind == ErrorKind::Storage,
        },
{
}

/// Whatever the engine answers, reading returns an article that has an id,
/// "not found" for the id that was asked for, or a storage failure.
pub proof fn lemma_read_returns(id: int, result: Result<ArticleView, MyErrorView>)
    requires
        may_read(id, result),
    ensures
        match result {
            Ok(article) => article.id is Some,
            Err(error) => error == not_found(id) || error.kind == ErrorKind::Storage,
        },
{
}

/// Whatever the engine answers, listing returns articles that have an id,
/// or a storage failure.
pub proof fn lemma_list_returns(result: Result<Seq<ArticleView>, MyErrorView>)
    requires
        may_list(result),
    ensures
        match result {
            Ok(articles) => forall|i: int| 0 <= i < articles.len() ==> articles[i].id is Some,
            Err(error) => error.kind == ErrorKind::Storage,
        },
{
    if let Ok(articles) = result {
        let rows = choose|rows: Seq<Option<RecordView>>| articles == kept(rows);
        assert forall|i: int| 0 <= i < articles.len() implies articles[i].id is Some by {
            assert(kept(rows).contains(articles[i]));
            rows.lemma_filter_map_contains(keeper(), articles[i]);
        }
    }
}

/// Whatever the engine answers, updating returns the article that the
/// caller sent under the id that was asked for, "not found" for that id, or
/// a storage failure.
pub proof fn lemma_update_returns(
    id: int,
    article: ArticleView,
    result: Result<ArticleView, MyErrorView>,
)
    requires
        may_update(id, article, result),
    ensures
        match result {
            Ok(updated) => updated == stored_as(id, article),
            Err(error) => error == not_found(id) || error.kind == ErrorKind::Storage,
        },
{
}

/// The insert commands for `articles`, in the same order.
pub open spec fn insert_commands(articles: Seq<ArticleView>) -> Seq<CommandView> {
    articles.map_values(|article: ArticleView| insert_command(article))
}

/// An article that was created is read back as it was created: under the
/// id that the engine assigned, with the title and content that the caller
/// sent. This holds where an article can hold the assigned id.
pub proof fn lemma_read_after_create(table: Table, article: ArticleView, rowid: int)
    requires
        fits_id(rowid),
    ensures
        create_outcome(article, Ok(rowid)) == Ok::<ArticleView, MyErrorView>(
            stored_as(rowid, article),
        ),
        read_outcome(
            rowid,
            Ok(
                select_one(
                    after_insert(table, insert_command(article), rowid),
                    select_one_command(rowid),
                ),
            ),
        ) == create_outcome(article, Ok(rowid)),
{
}

/// Reading an id under which the table holds nothing is answered with "not
/// found", never with a storage failure.
pub proof fn lemma_read_absent(table: Table, id: int)
    requires
        !table.dom().contains(id),
    ensures
        read_outcome(id, Ok(select_one(table, select_one_command(id)))) == Err::<
            ArticleView,
            MyErrorView,
        >(not_found(id)),
        not_found(id).kind == ErrorKind::NotFound,
{
}

/// Updating an id under which the table holds nothing is answered with "not
/// found" and leaves the table as it was, so that every listing of it stays
/// what it was.
pub proof fn lemma_update_absent(table: Table, id: int, article: ArticleView)
    requires
        !table.dom().contains(id),
    ensures
        update_outcome(id, article, Ok(update_count(table, update_command(id, article))))
            == Err::<ArticleView, MyErrorView>(not_found(id)),
        after_update(table, update_command(id, article)) == table,
        forall|order: Seq<int>|
            list_outcome(
                Ok(
                    #[trigger] select_all(
                        after_update(table, update_command(id, article)),
                        order,
                    ),
                ),
            ) == list_outcome(Ok(select_all(table, order))),
{
}

/// After an update of an id under which the table holds an article, reading
/// that id yields the title and content of the update and nothing of what
/// was stored before; the update itself returns the same article.
pub proof fn lemma_read_after_update(table: Table, id: int, article: ArticleView)
    requires
        table.dom().contains(id),
    ensures
        update_outcome(id, article, Ok(update_count(table, update_command(id, article))))
            == Ok::<ArticleView, MyErrorView>(stored_as(id, article)),
        read_outcome(
            id,
            Ok(
                select_one(
                    after_update(table, update_command(id, article)),
                    select_one_command(id),
                ),
            ),
        ) == Ok::<ArticleView, MyErrorView>(stored_as(id, article)),
{
}

/// An update changes no other row, and adds none.
pub proof fn lemma_update_keeps_others(table: Table, id: int, article: ArticleView, other: int)
    requires
        other != id,
    ensures
        after_update(table, update_command(id, article)).dom() == table.dom(),
        select_one(
            after_update(table, update_command(id, article)),
            select_one_command(other),
        ) == select_one(table, select_one_command(other)),
{
}

/// The table after a run of creates holds, under each assigned id, the
/// article created with it, and nothing else.
pub proof fn lemma_after_creates(articles: Seq<ArticleView>, rowids: Seq<int>)
    requires
        articles.len() == rowids.len(),
        rowids.no_duplicates(),
    ensures
        after_inserts(insert_commands(articles), rowids).dom() == rowids.to_set(),
        forall|k: int|
            0 <= k < articles.len() ==> #[trigger] after_inserts(
                insert_commands(articles),
                rowids,
            )[rowids[k]] == (Stored { title: articles[k].title, content: articles[k].content }),
    decreases articles.len(),
{
    let commands = insert_commands(articles);
    let table = after_inserts(commands, rowids);
    if articles.len() > 0 {
        let n = articles.len() - 1;
        assert(commands.drop_last() =~= insert_commands(articles.drop_last()));
        lemma_after_creates(articles.drop_last(), rowids.drop_last());
        assert forall|id: int| table.dom().contains(id) <==> rowids.to_set().contains(id) by {
            if rowids.contains(id) {
                let j = choose|j: int| 0 <= j < rowids.len() && rowids[j] == id;
                if j < n {
                    assert(rowids.drop_last()[j] == id);
                }
            }
        }
        assert forall|k: int| 0 <= k < articles.len() implies #[trigger] table[rowids[k]] == (
        Stored { title: articles[k].title, content: articles[k].content }) by {
            if k < n {
                assert(rowids.drop_last()[k] == rowids[k]);
            }
        }
    }
}

/// Where an article can hold the id of every row, a listing leaves no row
/// out: it is the articles of the rows, in the order of the scan.
pub proof fn lemma_listing_of_scan(table: Table, order: Seq<int>)
    requires
        forall|i: int| 0 <= i < order.len() ==> fits_id(#[trigger] order[i]),
    ensures
        kept(select_all(table, order)) == order.map_values(|id: int| article_of(row(table, id))),
    decreases order.len(),
{
    if order.len() > 0 {
        lemma_listing_of_scan(table, order.drop_last());
        assert(select_all(table, order).drop_last() =~= select_all(table, order.drop_last()));
    }
}

/// The articles created in a run of creates, each under the id that the
/// engine assigned to it.
pub open spec fn created_articles(articles: Seq<ArticleView>, rowids: Seq<int>) -> Seq<
    ArticleView,
>
    recommends
        articles.len() == rowids.len(),
{
    Seq::new(articles.len(), |k: int| stored_as(rowids[k], articles[k]))
}

/// A listing after a run of creates on an empty table holds as many
/// articles as were created, no two with the same id, and they are the
/// created articles, each under the id that the engine assigned to it. The
/// order is the engine's. This holds where an article can hold each
/// assigned id.
pub proof fn lemma_list_after_creates(
    articles: Seq<ArticleView>,
    rowids: Seq<int>,
    order: Seq<int>,
)
    requires
        articles.len() == rowids.len(),
        rowids.no_duplicates(),
        forall|k: int| 0 <= k < rowids.len() ==> fits_id(#[trigger] rowids[k]),
        is_scan(after_inserts(insert_commands(articles), rowids), order),
    ensures
        ({
            let table = after_inserts(insert_commands(articles), rowids);
            let listing = kept(select_all(table, order));
            &&& list_outcome(Ok(select_all(table, order))) == Ok::<Seq<ArticleView>, MyErrorView>(
                listing,
            )
            &&& listing.len() == articles.len()
            &&& forall|i: int, j: int|
                0 <= i < j < listing.len() ==> listing[i].id != listing[j].id
            &&& listing.to_set() == created_articles(articles, rowids).to_set()
        }),
{
    let table = after_inserts(insert_commands(articles), rowids);
    let listing = kept(select_all(table, order));
    let created = created_articles(articles, rowids);
    lemma_after_creates(articles, rowids);
    assert forall|i: int| 0 <= i < order.len() implies fits_id(#[trigger] order[i]) by {
        assert(order.to_set().contains(order[i]));
    }
    lemma_listing_of_scan(table, order);
    order.unique_seq_to_set();
    rowids.unique_seq_to_set();
    assert forall|article: ArticleView| listing.contains(article) implies created.contains(
        article,
    ) by {
        let i = choose|i: int| 0 <= i < listing.len() && listing[i] == article;
        assert(order.to_set().contains(order[i]));
        let k = choose|k: int| 0 <= k < rowids.len() && rowids[k] == order[i];
        assert(table[rowids[k]] == (Stored {
            title: articles[k].title,
            content: articles[k].content,
        }));
        assert(created[k] == article);
    }
    assert forall|article: ArticleView| created.contains(article) implies listing.contains(
        article,
    ) by {
        let k = choose|k: int| 0 <= k < created.len() && created[k] == article;
        assert(rowids.to_set().contains(rowids[k]));
        let i = choose|i: int| 0 <= i < order.len() && order[i] == rowids[k];
        assert(table[rowids[k]] == (Stored {
            title: articles[k].title,
            content: articles[k].content,
        }));
        assert(listing[i] == article);
    }
}

} // verus!
