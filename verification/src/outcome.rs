//! What each operation returns, given what the storage engine answered.
//!
//! The functions here make no call into the engine: they take its answer as
//! an argument, and say for every answer what the caller gets.

use vstd::prelude::*;
use crate::article::{
    article_of, article_views, stored_as, Article, ArticleView, Record, RecordView,
};
use crate::error::{not_found, out_of_range, MyError, MyErrorView};

verus! {

/// The result of an operation that yields one article, as a mathematical
/// value.
pub open spec fn outcome_view(result: Result<Article, MyError>) -> Result<
    ArticleView,
    MyErrorView,
> {
    match result {
        Ok(article) => Ok(article@),
        Err(error) => Err(error@),
    }
}

/// The result of a listing as a mathematical value.
pub open spec fn listing_view(result: Result<Vec<Article>, MyError>) -> Result<
    Seq<ArticleView>,
    MyErrorView,
> {
    match result {
        Ok(articles) => Ok(article_views(articles@)),
        Err(error) => Err(error@),
    }
}

/// The engine's answer to an insert as a mathematical value: the row id that
/// it assigned.
pub open spec fn inserted_view(inserted: Result<i64, MyError>) -> Result<int, MyErrorView> {
    match inserted {
        Ok(rowid) => Ok(rowid as int),
        Err(error) => Err(error@),
    }
}

/// The engine's answer to a query for one row as a mathematical value.
pub open spec fn fetched_view(fetched: Result<Option<Record>, MyError>) -> Result<
    Option<RecordView>,
    MyErrorView,
> {
    match fetched {
        Ok(Some(record)) => Ok(Some(record@)),
        Ok(None) => Ok(None),
        Err(error) => Err(error@),
    }
}

/// One row of a scan as a mathematical value: the row, or nothing where it
/// could not be read as a row of the table.
pub open spec fn row_view<E>(row: Result<Record, E>) -> Option<RecordView> {
    match row {
        Ok(record) => Some(record@),
        Err(_) => None,
    }
}

/// The rows of a scan as mathematical values, in the same order.
pub open spec fn row_views<E>(rows: Seq<Result<Record, E>>) -> Seq<Option<RecordView>> {
    rows.map_values(|row: Result<Record, E>| row_view(row))
}

/// The engine's answer to a scan of the table as a mathematical value.
pub open spec fn scanned_view<E>(scanned: Result<Vec<Result<Record, E>>, MyError>) -> Result<
    Seq<Option<RecordView>>,
    MyErrorView,
> {
    match scanned {
        Ok(rows) => Ok(row_views(rows@)),
        Err(error) => Err(error@),
    }
}

/// The engine's answer to an update as a mathematical value: the number of
/// rows that it changed.
pub open spec fn changed_view(changed: Result<usize, MyError>) -> Result<nat, MyErrorView> {
    match changed {
        Ok(count) => Ok(count as nat),
        Err(error) => Err(error@),
    }
}

/// Whether an article can hold `rowid` as its id.
pub open spec fn fits_id(rowid: int) -> bool {
    i32::MIN <= rowid <= i32::MAX
}

/// What creating `article` returns when the engine answers `inserted`: the
/// article under the id that the engine assigned; a failure if the engine
/// failed, or if an article cannot hold that id.
pub open spec fn create_outcome(article: ArticleView, inserted: Result<int, MyErrorView>) -> Result<
    ArticleView,
    MyErrorView,
> {
    match inserted {
        Ok(rowid) => if fits_id(rowid) {
            Ok(stored_as(rowid, article))
        } else {
            Err(out_of_range(rowid))
        },
        Err(error) => Err(error),
    }
}

/// What reading `id` returns when the engine answers `fetched`: the article
/// of the row; not found if there is no row; the engine's failure otherwise.
pub open spec fn read_outcome(id: int, fetched: Result<Option<RecordView>, MyErrorView>) -> Result<
    ArticleView,
    MyErrorView,
> {
    match fetched {
        Ok(Some(record)) => Ok(article_of(record)),
        Ok(None) => Err(not_found(id)),
        Err(error) => Err(error),
    }
}

/// The article of a row that could be read, nothing for one that could not.
pub open spec fn keep(row: Option<RecordView>) -> Option<ArticleView> {
    match row {
        Some(record) => Some(article_of(record)),
        None => None,
    }
}

/// `keep` as a function value.
pub open spec fn keeper() -> spec_fn(Option<RecordView>) -> Option<ArticleView> {
    |row: Option<RecordView>| keep(row)
}

/// The articles of the rows that could be read, in the order of the rows.
/// Rows that could not be read are left out.
pub open spec fn kept(rows: Seq<Option<RecordView>>) -> Seq<ArticleView> {
    rows.filter_map(keeper())
}

/// What listing returns when the engine answers `scanned`.
pub open spec fn list_outcome(scanned: Result<Seq<Option<RecordView>>, MyErrorView>) -> Result<
    Seq<ArticleView>,
    MyErrorView,
> {
    match scanned {
        Ok(rows) => Ok(kept(rows)),
        Err(error) => Err(error),
    }
}

/// What updating `id` with `article` returns when the engine answers
/// `changed`: not found if no row was changed; otherwise `article` under
/// `id`, as the caller sent it.
pub open spec fn update_outcome(
    id: int,
    article: ArticleView,
    changed: Result<nat, MyErrorView>,
) -> Result<ArticleView, MyErrorView> {
    match changed {
        Ok(count) => if count == 0 {
            Err(not_found(id))
        } else {
            Ok(stored_as(id, article))
        },
        Err(error) => Err(error),
    }
}

/// The result of creating `article`, given the engine's answer.
pub fn created(article: Article, inserted: Result<i64, MyError>) -> (result: Result<
    Article,
    MyError,
>)
    ensures
        outcome_view(result) == create_outcome(article@, inserted_view(inserted)),
{
    match inserted {
        Ok(rowid) => {
            if i32::MIN as i64 <= rowid && rowid <= i32::MAX as i64 {
                Ok(article.stored_as(rowid as i32))
            } else {
                Err(MyError::out_of_range(rowid))
            }
        },
        Err(error) => Err(error),
    }
}

/// The result of reading `id`, given the engine's answer.
pub fn found(id: i32, fetched: Result<Option<Record>, MyError>) -> (result: Result<
    Article,
    MyError,
>)
    ensures
        outcome_view(result) == read_outcome(id as int, fetched_view(fetched)),
{
    match fetched {
        Ok(Some(record)) => Ok(record.into_article()),
        Ok(None) => Err(MyError::not_found(id)),
        Err(error) => Err(error),
    }
}

/// The result of listing, given the engine's answer.
pub fn listed<E>(scanned: Result<Vec<Result<Record, E>>, MyError>) -> (result: Result<
    Vec<Article>,
    MyError,
>)
    ensures
        listing_view(result) == list_outcome(scanned_view(scanned)),
{
    match scanned {
        Ok(rows) => {
            let ghost all = row_views(rows@);
            let mut articles: Vec<Article> = Vec::new();
            for i in 0..rows.len()
                invariant
                    all == row_views(rows@),
                    article_views(articles@) == kept(all.take(i as int)),
            {
                proof {
                    all.lemma_filter_map_take_succ(keeper(), i as int);
                }
                match &rows[i] {
                    Ok(record) => {
                        articles.push(record.to_article());
                        assert(article_views(articles@) =~= kept(all.take(i as int)) + seq![
                            article_of(record@),
                        ]);
                    },
                    Err(_) => {},
                }
            }
            assert(all.take(rows.len() as int) =~= all);
            Ok(articles)
        },
        Err(error) => Err(error),
    }
}

/// The result of updating `id` with `article`, given the engine's answer.
pub fn updated(id: i32, article: Article, changed: Result<usize, MyError>) -> (result: Result<
    Article,
    MyError,
>)
    ensures
        outcome_view(result) == update_outcome(id as int, article@, changed_view(changed)),
{
    match changed {
        Ok(count) => {
            if count == 0 {
                Err(MyError::not_found(id))
            } else {
                Ok(article.stored_as(id))
            }
        },
        Err(error) => Err(error),
    }
}

} // verus!
