//! The article, the only entity of the service.

use vstd::prelude::*;

verus! {

/// An article as a mathematical value.
pub struct ArticleView {
    pub id: Option<int>,
    pub title: Seq<char>,
    pub content: Seq<char>,
}

/// An article. `id` is absent until the storage engine has assigned one.
#[derive(Debug, PartialEq, Eq)]
pub struct Article {
    pub id: Option<i32>,
    pub title: String,
    pub content: String,
}

impl View for Article {
    type V = ArticleView;

    open spec fn view(&self) -> ArticleView {
        ArticleView {
            id: match self.id {
                Some(id) => Some(id as int),
                None => None,
            },
            title: self.title@,
            content: self.content@,
        }
    }
}

/// A row of the table of articles as a mathematical value.
pub struct RecordView {
    pub id: int,
    pub title: Seq<char>,
    pub content: Seq<char>,
}

/// A row of the table of articles, as the storage engine hands it out.
#[derive(Debug, PartialEq, Eq)]
pub struct Record {
    pub id: i32,
    pub title: String,
    pub content: String,
}

impl View for Record {
    type V = RecordView;

    open spec fn view(&self) -> RecordView {
        RecordView { id: self.id as int, title: self.title@, content: self.content@ }
    }
}

/// The article stored under `id` with the title and content of `article`.
pub open spec fn stored_as(id: int, article: ArticleView) -> ArticleView {
    ArticleView { id: Some(id), title: article.title, content: article.content }
}

/// The article that a row holds.
pub open spec fn article_of(record: RecordView) -> ArticleView {
    ArticleView { id: Some(record.id), title: record.title, content: record.content }
}

/// The views of a sequence of articles, in the same order.
pub open spec fn article_views(articles: Seq<Article>) -> Seq<ArticleView> {
    articles.map_values(|article: Article| article@)
}

impl Clone for Article {
    fn clone(&self) -> (copy: Article)
        ensures
            copy == *self,
    {
        Article { id: self.id, title: self.title.clone(), content: self.content.clone() }
    }
}

impl Clone for Record {
    fn clone(&self) -> (copy: Record)
        ensures
            copy == *self,
    {
        Record { id: self.id, title: self.title.clone(), content: self.content.clone() }
    }
}

impl Article {
    /// This article as it is stored under `id`.
    pub fn stored_as(self, id: i32) -> (article: Article)
        ensures
            article@ == stored_as(id as int, self@),
    {
        Article { id: Some(id), title: self.title, content: self.content }
    }
}

impl Record {
    /// The article that this row holds.
    pub fn into_article(self) -> (article: Article)
        ensures
            article@ == article_of(self@),
    {
        Article { id: Some(self.id), title: self.title, content: self.content }
    }

    /// A copy of the article that this row holds.
    pub fn to_article(&self) -> (article: Article)
        ensures
            article@ == article_of(self@),
    {
        Article { id: Some(self.id), title: self.title.clone(), content: self.content.clone() }
    }
}

} // verus!
