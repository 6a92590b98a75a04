//! The replies of the service: a status code and a body, for the transport
//! to send as it sees fit.

use vstd::prelude::*;
use crate::article::{article_views, Article, ArticleView};
use crate::error::{status_of, MyError, MyErrorView};
use crate::outcome::{listing_view, outcome_view};

verus! {

/// The text that greets a caller at the root of the service.
pub const GREETING: &'static str = "Welcome to the blog";

/// The body of a reply as a mathematical value.
pub enum BodyView {
    Text(Seq<char>),
    Article(ArticleView),
    Articles(Seq<ArticleView>),
    Error(MyErrorView),
}

/// The body of a reply.
#[derive(Debug, PartialEq, Eq)]
pub enum Body {
    /// Plain text.
    Text(String),
    /// One article.
    Article(Article),
    /// A list of articles.
    Articles(Vec<Article>),
    /// A failure; the caller is shown its message.
    Error(MyError),
}

impl View for Body {
    type V = BodyView;

    open spec fn view(&self) -> BodyView {
        match self {
            Body::Text(text) => BodyView::Text(text@),
            Body::Article(article) => BodyView::Article(article@),
            Body::Articles(articles) => BodyView::Articles(article_views(articles@)),
            Body::Error(error) => BodyView::Error(error@),
        }
    }
}

/// A reply as a mathematical value.
pub struct ResponseView {
    pub status: int,
    pub body: BodyView,
}

/// A reply: the status code and the body.
#[derive(Debug, PartialEq, Eq)]
pub struct Response {
    pub status: u16,
    pub body: Body,
}

impl View for Response {
    type V = ResponseView;

    open spec fn view(&self) -> ResponseView {
        ResponseView { status: self.status as int, body: self.body@ }
    }
}

/// The reply to a caller at the root of the service.
pub open spec fn greeting() -> ResponseView {
    ResponseView { status: 200, body: BodyView::Text(GREETING@) }
}

/// The reply that reports a failure: the status code of its kind, and the
/// failure as the body.
pub open spec fn failure(error: MyErrorView) -> ResponseView {
    ResponseView { status: status_of(error.kind), body: BodyView::Error(error) }
}

/// The reply for the result of an operation that yields one article.
pub open spec fn article_response(result: Result<ArticleView, MyErrorView>) -> ResponseView {
    match result {
        Ok(article) => ResponseView { status: 200, body: BodyView::Article(article) },
        Err(error) => failure(error),
    }
}

/// The reply for the result of a listing.
pub open spec fn listing_response(result: Result<Seq<ArticleView>, MyErrorView>) -> ResponseView {
    match result {
        Ok(articles) => ResponseView { status: 200, body: BodyView::Articles(articles) },
        Err(error) => failure(error),
    }
}

impl Response {
    /// The reply that reports `error`.
    pub fn failure(error: MyError) -> (response: Response)
        ensures
            response@ == failure(error@),
    {
        Response { status: error.status(), body: Body::Error(error) }
    }

    /// The reply for the result of an operation that yields one article.
    pub fn article(result: Result<Article, MyError>) -> (response: Response)
        ensures
            response@ == article_response(outcome_view(result)),
    {
        match result {
            Ok(article) => Response { status: 200, body: Body::Article(article) },
            Err(error) => Response::failure(error),
        }
    }

    /// The reply for the result of a listing.
    pub fn listing(result: Result<Vec<Article>, MyError>) -> (response: Response)
        ensures
            response@ == listing_response(listing_view(result)),
    {
        match result {
            Ok(articles) => Response { status: 200, body: Body::Articles(articles) },
            Err(error) => Response::failure(error),
        }
    }
}

} // verus!
