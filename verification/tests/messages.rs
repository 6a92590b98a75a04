use article_service::decimal::{push_decimal, push_digits};
use article_service::error::{ErrorKind, MyError};

fn decimal(n: i64) -> String {
    let mut out = String::new();
    push_decimal(&mut out, n);
    out
}

fn digits(n: u64) -> String {
    let mut out = String::new();
    push_digits(&mut out, n);
    out
}

#[test]
fn digits_of_small_and_large_numbers() {
    assert_eq!(digits(0), "0");
    assert_eq!(digits(7), "7");
    assert_eq!(digits(9), "9");
    assert_eq!(digits(10), "10");
    assert_eq!(digits(99), "99");
    assert_eq!(digits(100), "100");
    assert_eq!(digits(1234567890), "1234567890");
    assert_eq!(digits(u64::MAX), "18446744073709551615");
}

#[test]
fn decimal_matches_the_standard_notation() {
    for n in [0i64, 1, -1, 9, 10, -10, 42, 99, 100, 101, -999, 1000, 2147483647, -2147483648] {
        assert_eq!(decimal(n), n.to_string());
    }
    assert_eq!(decimal(i64::MAX), "9223372036854775807");
    assert_eq!(decimal(i64::MIN), "-9223372036854775808");
}

#[test]
fn push_decimal_appends_to_what_is_there() {
    let mut out = "id=".to_string();
    push_decimal(&mut out, -305);
    assert_eq!(out, "id=-305");
    push_digits(&mut out, 40);
    assert_eq!(out, "id=-30540");
}

#[test]
fn not_found_names_the_id() {
    let error = MyError::not_found(99);
    assert_eq!(error.kind, ErrorKind::NotFound);
    assert_eq!(error.message, "Article with id 99 not found");
    assert_eq!(MyError::not_found(-1).message, "Article with id -1 not found");
    assert_eq!(MyError::not_found(0).message, "Article with id 0 not found");
    assert_eq!(MyError::not_found(i32::MIN).message, "Article with id -2147483648 not found");
}

#[test]
fn out_of_range_names_the_row_id() {
    let error = MyError::out_of_range(3000000000);
    assert_eq!(error.kind, ErrorKind::Storage);
    assert_eq!(error.message, "Article id 3000000000 is out of range");
}

#[test]
fn status_follows_the_kind() {
    assert_eq!(MyError::not_found(1).status(), 404);
    assert_eq!(MyError::out_of_range(1 << 40).status(), 500);
    assert_eq!(MyError::from(rusqlite::Error::QueryReturnedNoRows).status(), 500);
}

#[test]
fn a_copy_of_a_failure_equals_it() {
    let error = MyError::not_found(12);
    assert_eq!(error.clone(), error);
}
