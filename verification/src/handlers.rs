//! The endpoints of the service: one function for each, from the decoded
//! request to the reply.

use vstd::prelude::*;
use crate::article::{Article, ArticleView};
use crate::error::MyErrorView;
use crate::response::{
    article_response, greeting, listing_response, Body, Response, GREETING,
};
use crate::service::{create, list, may_create, may_list, may_read, may_update, read, update};

verus! {

/// Greets the caller.
pub fn hello() -> (response: Response)
    ensures
        response@ == greeting(),
{
    Response { status: 200, body: Body::Text(String::from_str(GREETING)) }
}

/// Creates `article` and replies with the article as it was stored, or with
/// the failure.
pub fn create_article(conn: &rusqlite::Connection, article: Article) -> (response: Response)
    ensures
        exists|result: Result<ArticleView, MyErrorView>|
            may_create(article@, result) && response@ == #[trigger] article_response(result),
{
    Response::article(create(conn, article))
}

/// Replies with the article stored under `id`, or with the failure.
pub fn get_article(conn: &rusqlite::Connection, id: i32) -> (response: Response)
    ensures
        exists|result: Result<ArticleView, MyErrorView>|
            may_read(id as int, result) && response@ == #[trigger] article_response(result),
{
    Response::article(read(conn, id))
}

/// Replies with every article, or with the failure.
pub fn get_articles(conn: &rusqlite::Connection) -> (response: Response)
    ensures
        exists|result: Result<Seq<ArticleView>, MyErrorView>|
            may_list(result) && response@ == #[trigger] listing_response(result),
{
    Response::listing(list(conn))
}

/// Updates the article stored under `id` and replies with the article as
/// the caller sent it, under `id`, or with the failure.
pub fn update_article(conn: &rusqlite::Connection, id: i32, article: Article) -> (response:
    Response)
    ensures
        exists|result: Result<ArticleView, MyErrorView>|
            may_update(id as int, article@, result) && response@ == #[trigger] article_response(
                result,
            ),
{
    Response::article(update(conn, id, article))
}

} // verus!
