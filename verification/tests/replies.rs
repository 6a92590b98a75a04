use article_service::article::{Article, Record};
use article_service::error::{ErrorKind, MyError};
use article_service::handlers::{create_article, get_article, get_articles, hello, update_article};
use article_service::response::{Body, Response, GREETING};
use article_service::service::init_db;
use rusqlite::Connection;

fn store() -> Connection {
    let conn = Connection::open_in_memory().unwrap();
    init_db(&conn).unwrap();
    conn
}

fn article(id: Option<i32>, title: &str, content: &str) -> Article {
    Article { id, title: title.to_string(), content: content.to_string() }
}

fn not_found(id: i32) -> Response {
    Response {
        status: 404,
        body: Body::Error(MyError {
            kind: ErrorKind::NotFound,
            message: format!("Article with id {} not found", id),
        }),
    }
}

#[test]
fn hello_greets() {
    assert_eq!(GREETING, "Welcome to the blog");
    assert_eq!(
        hello(),
        Response { status: 200, body: Body::Text("Welcome to the blog".to_string()) }
    );
}

#[test]
fn reply_for_an_article() {
    assert_eq!(
        Response::article(Ok(article(Some(1), "A", "B"))),
        Response { status: 200, body: Body::Article(article(Some(1), "A", "B")) }
    );
}

#[test]
fn reply_for_a_listing() {
    assert_eq!(
        Response::listing(Ok(vec![article(Some(1), "A", "B")])),
        Response { status: 200, body: Body::Articles(vec![article(Some(1), "A", "B")]) }
    );
    assert_eq!(
        Response::listing(Ok(vec![])),
        Response { status: 200, body: Body::Articles(vec![]) }
    );
}

#[test]
fn reply_for_a_failure_has_the_status_of_its_kind() {
    assert_eq!(Response::article(Err(MyError::not_found(4))), not_found(4));
    assert_eq!(Response::failure(MyError::not_found(4)), not_found(4));
    let storage = MyError { kind: ErrorKind::Storage, message: "disk full".to_string() };
    assert_eq!(
        Response::article(Err(storage.clone())),
        Response { status: 500, body: Body::Error(storage.clone()) }
    );
    assert_eq!(
        Response::listing(Err(storage.clone())),
        Response { status: 500, body: Body::Error(storage) }
    );
}

#[test]
fn endpoints_scenario() {
    let conn = store();
    assert_eq!(
        create_article(&conn, article(None, "A", "B")),
        Response { status: 200, body: Body::Article(article(Some(1), "A", "B")) }
    );
    assert_eq!(
        create_article(&conn, article(None, "C", "D")),
        Response { status: 200, body: Body::Article(article(Some(2), "C", "D")) }
    );
    assert_eq!(
        get_article(&conn, 1),
        Response { status: 200, body: Body::Article(article(Some(1), "A", "B")) }
    );
    assert_eq!(
        update_article(&conn, 1, article(None, "X", "Y")),
        Response { status: 200, body: Body::Article(article(Some(1), "X", "Y")) }
    );
    assert_eq!(
        get_article(&conn, 1),
        Response { status: 200, body: Body::Article(article(Some(1), "X", "Y")) }
    );
    assert_eq!(get_article(&conn, 99), not_found(99));
    assert_eq!(update_article(&conn, 99, article(None, "X", "Y")), not_found(99));
    let listing = get_articles(&conn);
    assert_eq!(listing.status, 200);
    match listing.body {
        Body::Articles(mut articles) => {
            articles.sort_by_key(|a| a.id);
            assert_eq!(articles, vec![article(Some(1), "X", "Y"), article(Some(2), "C", "D")]);
        }
        other => panic!("a listing was expected, not {:?}", other),
    }
}

#[test]
fn endpoints_report_storage_failures_with_status_500() {
    let conn = Connection::open_in_memory().unwrap();
    let expected = Response {
        status: 500,
        body: Body::Error(MyError {
            kind: ErrorKind::Storage,
            message: "no such table: articles".to_string(),
        }),
    };
    assert_eq!(create_article(&conn, article(None, "A", "B")), expected);
    assert_eq!(get_article(&conn, 1), expected);
    assert_eq!(get_articles(&conn), expected);
    assert_eq!(update_article(&conn, 1, article(None, "A", "B")), expected);
}

#[test]
fn records_and_articles() {
    let record = Record { id: 4, title: "T".to_string(), content: "C".to_string() };
    assert_eq!(record.to_article(), article(Some(4), "T", "C"));
    assert_eq!(record.clone().into_article(), article(Some(4), "T", "C"));
    let draft = article(None, "T", "C");
    assert_eq!(draft.clone().stored_as(9), article(Some(9), "T", "C"));
    assert_eq!(draft.clone(), draft);
}
