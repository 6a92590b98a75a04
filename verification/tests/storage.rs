use article_service::article::Article;
use article_service::error::{settled, ErrorKind, MyError};
use article_service::service::{create, init_db, list, read, update};
use rusqlite::Connection;

fn article(id: Option<i32>, title: &str, content: &str) -> Article {
    Article { id, title: title.to_string(), content: content.to_string() }
}

#[test]
fn init_db_is_safe_to_repeat_and_keeps_the_rows() {
    let conn = Connection::open_in_memory().unwrap();
    assert_eq!(init_db(&conn), Ok(()));
    create(&conn, article(None, "A", "B")).unwrap();
    assert_eq!(init_db(&conn), Ok(()));
    assert_eq!(list(&conn), Ok(vec![article(Some(1), "A", "B")]));
}

#[test]
fn init_db_keeps_a_table_that_was_made_with_other_spelling() {
    let conn = Connection::open_in_memory().unwrap();
    conn.execute(
        "CREATE TABLE articles (ID INTEGER NOT NULL, TITLE TEXT NOT NULL, CONTENT TEXT NOT NULL, PRIMARY KEY (ID))",
        [],
    )
    .unwrap();
    conn.execute("INSERT INTO articles (TITLE, CONTENT) VALUES ('A', 'B')", []).unwrap();
    assert_eq!(init_db(&conn), Ok(()));
    assert_eq!(read(&conn, 1), Ok(article(Some(1), "A", "B")));
    assert_eq!(create(&conn, article(None, "C", "D")), Ok(article(Some(2), "C", "D")));
}

#[test]
fn init_db_reports_a_failure_of_the_engine() {
    let conn = Connection::open_in_memory().unwrap();
    conn.execute("PRAGMA query_only = ON", []).ok();
    let failure = init_db(&conn).unwrap_err();
    assert_eq!(failure.kind, ErrorKind::Storage);
    assert_eq!(failure.message, "attempt to write a readonly database");
}

#[test]
fn operations_without_the_table_are_storage_failures() {
    let conn = Connection::open_in_memory().unwrap();
    let expected = MyError {
        kind: ErrorKind::Storage,
        message: "no such table: articles".to_string(),
    };
    assert_eq!(create(&conn, article(None, "A", "B")), Err(expected.clone()));
    assert_eq!(read(&conn, 1), Err(expected.clone()));
    assert_eq!(list(&conn), Err(expected.clone()));
    assert_eq!(update(&conn, 1, article(None, "A", "B")), Err(expected));
}

#[test]
fn list_leaves_out_rows_that_are_no_articles() {
    let conn = Connection::open_in_memory().unwrap();
    init_db(&conn).unwrap();
    create(&conn, article(None, "A", "B")).unwrap();
    conn.execute("INSERT INTO articles (title, content) VALUES (x'00ff', 'blob title')", [])
        .unwrap();
    conn.execute(
        "INSERT INTO articles (id, title, content) VALUES (3000000000, 'far', 'away')",
        [],
    )
    .unwrap();
    let count: i64 = conn.query_row("SELECT COUNT(*) FROM articles", [], |row| row.get(0)).unwrap();
    assert_eq!(count, 3);
    assert_eq!(list(&conn), Ok(vec![article(Some(1), "A", "B")]));
}

#[test]
fn reading_a_row_that_is_no_article_is_a_storage_failure() {
    let conn = Connection::open_in_memory().unwrap();
    init_db(&conn).unwrap();
    conn.execute("INSERT INTO articles (title, content) VALUES (x'00ff', 'blob title')", [])
        .unwrap();
    let failure = read(&conn, 1).unwrap_err();
    assert_eq!(failure.kind, ErrorKind::Storage);
    assert_eq!(failure.status(), 500);
}

#[test]
fn create_reports_an_id_that_an_article_cannot_hold() {
    let conn = Connection::open_in_memory().unwrap();
    init_db(&conn).unwrap();
    conn.execute(
        "INSERT INTO articles (id, title, content) VALUES (3000000000, 'far', 'away')",
        [],
    )
    .unwrap();
    let failure = create(&conn, article(None, "A", "B")).unwrap_err();
    assert_eq!(failure.kind, ErrorKind::Storage);
    assert_eq!(failure.message, "Article id 3000000001 is out of range");
}

#[test]
fn ids_go_up_to_the_largest_that_an_article_can_hold() {
    let conn = Connection::open_in_memory().unwrap();
    init_db(&conn).unwrap();
    conn.execute(
        "INSERT INTO articles (id, title, content) VALUES (2147483646, 'near', 'the end')",
        [],
    )
    .unwrap();
    assert_eq!(read(&conn, 2147483646), Ok(article(Some(2147483646), "near", "the end")));
    assert_eq!(create(&conn, article(None, "A", "B")), Ok(article(Some(2147483647), "A", "B")));
    assert_eq!(read(&conn, i32::MAX), Ok(article(Some(i32::MAX), "A", "B")));
    assert_eq!(list(&conn).unwrap().len(), 2);
}

#[test]
fn negative_ids_are_read_and_updated_like_others() {
    let conn = Connection::open_in_memory().unwrap();
    init_db(&conn).unwrap();
    conn.execute("INSERT INTO articles (id, title, content) VALUES (-5, 'below', 'zero')", [])
        .unwrap();
    assert_eq!(read(&conn, -5), Ok(article(Some(-5), "below", "zero")));
    assert_eq!(update(&conn, -5, article(None, "X", "Y")), Ok(article(Some(-5), "X", "Y")));
    assert_eq!(list(&conn), Ok(vec![article(Some(-5), "X", "Y")]));
}

#[test]
fn storage_failure_carries_the_text_of_the_engine() {
    let failure = MyError::from(rusqlite::Error::QueryReturnedNoRows);
    assert_eq!(failure.kind, ErrorKind::Storage);
    assert_eq!(failure.message, "Query returned no rows");
    assert_eq!(failure.message, rusqlite::Error::QueryReturnedNoRows.to_string());
    let other = MyError::from(rusqlite::Error::InvalidColumnIndex(7));
    assert_eq!(other.message, "Invalid column index: 7");
}

#[test]
fn settled_keeps_a_value_as_it_is() {
    assert_eq!(settled::<usize>(Ok(0)), Ok(0));
    assert_eq!(settled::<usize>(Ok(3)), Ok(3));
    assert_eq!(settled::<Option<i32>>(Ok(None)), Ok(None));
    assert_eq!(settled::<Option<i32>>(Ok(Some(-4))), Ok(Some(-4)));
    assert_eq!(settled::<Vec<u8>>(Ok(vec![1, 2])), Ok(vec![1, 2]));
}

#[test]
fn settled_reports_an_error_with_the_text_of_the_engine() {
    assert_eq!(
        settled::<usize>(Err(rusqlite::Error::QueryReturnedNoRows)),
        Err(MyError { kind: ErrorKind::Storage, message: "Query returned no rows".to_string() })
    );
    assert_eq!(
        settled::<usize>(Err(rusqlite::Error::InvalidColumnIndex(2))),
        Err(MyError { kind: ErrorKind::Storage, message: "Invalid column index: 2".to_string() })
    );
}

#[test]
fn a_failed_write_reports_the_error_of_the_engine() {
    let conn = Connection::open_in_memory().unwrap();
    init_db(&conn).unwrap();
    create(&conn, article(None, "A", "B")).unwrap();
    conn.execute("PRAGMA query_only = ON", []).ok();
    let expected = MyError {
        kind: ErrorKind::Storage,
        message: "attempt to write a readonly database".to_string(),
    };
    assert_eq!(create(&conn, article(None, "C", "D")), Err(expected.clone()));
    assert_eq!(update(&conn, 1, article(None, "X", "Y")), Err(expected));
    assert_eq!(read(&conn, 1), Ok(article(Some(1), "A", "B")));
    assert_eq!(list(&conn), Ok(vec![article(Some(1), "A", "B")]));
}
