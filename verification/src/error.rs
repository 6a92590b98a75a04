//! The failures that the service reports.

use vstd::prelude::*;
use vstd::string::to_string_from_display_ensures;
use crate::decimal::{decimal, push_decimal};

verus! {

/// What went wrong, as far as the caller can act on it.
#[derive(Debug, Clone, Copy, PartialEq, Eq, Structural)]
pub enum ErrorKind {
    /// The article asked for does not exist.
    NotFound,
    /// The storage engine failed, or returned what the service cannot use.
    Storage,
}

/// A failure as a mathematical value.
pub struct MyErrorView {
    pub kind: ErrorKind,
    pub message: Seq<char>,
}

/// A failure of one operation, with the message that the caller is shown.
#[derive(Debug, PartialEq, Eq)]
pub struct MyError {
    pub kind: ErrorKind,
    pub message: String,
}

impl View for MyError {
    type V = MyErrorView;

    open spec fn view(&self) -> MyErrorView {
        MyErrorView { kind: self.kind, message: self.message@ }
    }
}

/// The message for an id under which no article is stored.
pub open spec fn not_found_message(id: int) -> Seq<char> {
    "Article with id "@ + decimal(id) + " not found"@
}

/// The message for an id that the engine assigned and an article cannot hold.
pub open spec fn out_of_range_message(rowid: int) -> Seq<char> {
    "Article id "@ + decimal(rowid) + " is out of range"@
}

/// The failure for an id under which no article is stored.
pub open spec fn not_found(id: int) -> MyErrorView {
    MyErrorView { kind: ErrorKind::NotFound, message: not_found_message(id) }
}

/// The failure for an id that the engine assigned and an article cannot hold.
pub open spec fn out_of_range(rowid: int) -> MyErrorView {
    MyErrorView { kind: ErrorKind::Storage, message: out_of_range_message(rowid) }
}

/// Whether `message` is the description that the engine gives of its error
/// `err`.
pub open spec fn describes(err: rusqlite::Error, message: Seq<char>) -> bool {
    exists|text: String|
        #[trigger] to_string_from_display_ensures::<rusqlite::Error>(&err, text) && text@
            == message
}

/// Whether `error` is the failure that reports the engine's error `err`: a
/// storage failure whose message is the engine's description of `err`.
pub open spec fn reports(err: rusqlite::Error, error: MyErrorView) -> bool {
    error.kind == ErrorKind::Storage && describes(err, error.message)
}

/// Whether `error` is the failure that reports some error of the engine.
pub open spec fn engine_failure(error: MyErrorView) -> bool {
    exists|err: rusqlite::Error| #[trigger] reports(err, error)
}

/// Whether `result` is what the service makes of the engine's answer
/// `answer`: a value stays as it is, an error becomes the failure that
/// reports it.
pub open spec fn settles<T>(answer: Result<T, rusqlite::Error>, result: Result<T, MyError>) -> bool {
    match answer {
        Ok(value) => result == Ok::<T, MyError>(value),
        Err(err) => result matches Err(error) && reports(err, error@),
    }
}

/// The status code under which a failure of this kind is reported.
pub open spec fn status_of(kind: ErrorKind) -> int {
    match kind {
        ErrorKind::NotFound => 404,
        ErrorKind::Storage => 500,
    }
}

impl Clone for MyError {
    fn clone(&self) -> (copy: MyError)
        ensures
            copy == *self,
    {
        MyError { kind: self.kind, message: self.message.clone() }
    }
}

impl MyError {
    /// The failure for an id under which no article is stored.
    pub fn not_found(id: i32) -> (error: MyError)
        ensures
            error@ == not_found(id as int),
    {
        let mut message = String::from_str("Article with id ");
        push_decimal(&mut message, id as i64);
        message.append(" not found");
        MyError { kind: ErrorKind::NotFound, message }
    }

    /// The failure for an id that the engine assigned and an article cannot
    /// hold.
    pub fn out_of_range(rowid: i64) -> (error: MyError)
        ensures
            error@ == out_of_range(rowid as int),
    {
        let mut message = String::from_str("Article id ");
        push_decimal(&mut message, rowid);
        message.append(" is out of range");
        MyError { kind: ErrorKind::Storage, message }
    }

    /// A failure of the storage engine. The message is the engine's own
    /// description of the error.
    pub fn from(err: rusqlite::Error) -> (error: MyError)
        ensures
            error.kind == ErrorKind::Storage,
            to_string_from_display_ensures::<rusqlite::Error>(&err, error.message),
            reports(err, error@),
    {
        MyError { kind: ErrorKind::Storage, message: err.to_string() }
    }

    /// The status code under which this failure is reported.
    pub fn status(&self) -> (code: u16)
        ensures
            code == status_of(self.kind),
    {
        match self.kind {
            ErrorKind::NotFound => 404,
            ErrorKind::Storage => 500,
        }
    }
}

/// What the service makes of an answer of the engine: a value stays as it
/// is, an error becomes the failure that reports it.
pub fn settled<T>(answer: Result<T, rusqlite::Error>) -> (result: Result<T, MyError>)
    ensures
        settles(answer, result),
{
    match answer {
        Ok(value) => Ok(value),
        Err(err) => Err(MyError::from(err)),
    }
}

} // verus!
