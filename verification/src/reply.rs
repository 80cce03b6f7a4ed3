//! How the HTTP handlers answer: each handler runs one query and turns its
//! outcome into a reply by one of the rules here.

use vstd::prelude::*;

verus! {

/// The answer of a handler, before it is encoded as an HTTP response.
#[derive(Debug, PartialEq)]
pub enum Reply<T> {
    /// 200 OK with `T` as the JSON body.
    Json(T),
    /// 201 Created with `T` as the JSON body.
    Created(T),
    /// 200 OK with an empty body.
    Done,
    /// 304 Not Modified: nothing changed since the agent's last fetch.
    NotModified,
    /// 500 Internal Server Error, with the error's text as the body.
    ServerError(String),
}

impl<T> Reply<T> {
    /// The HTTP status code of a reply.
    pub open spec fn spec_status(self) -> u16 {
        match self {
            Reply::Json(_) => 200,
            Reply::Created(_) => 201,
            Reply::Done => 200,
            Reply::NotModified => 304,
            Reply::ServerError(_) => 500,
        }
    }

    /// The reply to a read: the rows as JSON, or a server error with the query's error.
    pub open spec fn listing_of(outcome: Result<T, String>) -> Reply<T> {
        match outcome {
            Ok(rows) => Reply::Json(rows),
            Err(e) => Reply::ServerError(e),
        }
    }

    /// The reply to an insert or update: the stored row with 201 Created,
    /// or a server error with the query's error.
    pub open spec fn creation_of(outcome: Result<T, String>) -> Reply<T> {
        match outcome {
            Ok(row) => Reply::Created(row),
            Err(e) => Reply::ServerError(e),
        }
    }

    /// The reply to an edit: the updated row as JSON with 200 OK, or a
    /// server error with the query's error.
    pub open spec fn update_of(outcome: Result<T, String>) -> Reply<T> {
        match outcome {
            Ok(row) => Reply::Json(row),
            Err(e) => Reply::ServerError(e),
        }
    }

    /// The reply to a delete: an empty 200, or a server error with the query's error.
    pub open spec fn completion_of(outcome: Result<(), String>) -> Reply<T> {
        match outcome {
            Ok(_) => Reply::Done,
            Err(e) => Reply::ServerError(e),
        }
    }

    /// The text of an error reply.
    pub open spec fn error_text(self) -> Option<String> {
        match self {
            Reply::ServerError(e) => Some(e),
            _ => None,
        }
    }

    /// The HTTP status code of the reply.
    pub fn status(&self) -> (r: u16)
        ensures
            r == self.spec_status(),
    {
        match self {
            Reply::Json(_) => 200,
            Reply::Created(_) => 201,
            Reply::Done => 200,
            Reply::NotModified => 304,
            Reply::ServerError(_) => 500,
        }
    }

    /// The answer to a read: the rows as JSON, or a server error with the query's error.
    pub fn listing(outcome: Result<T, String>) -> (r: Reply<T>)
        ensures
            r == Self::listing_of(outcome),
    {
        match outcome {
            Ok(rows) => Reply::Json(rows),
            Err(e) => Reply::ServerError(e),
        }
    }

    /// The answer to an insert or an update: the stored row as JSON with
    /// 201 Created, or a server error with the query's error.
    pub fn creation(outcome: Result<T, String>) -> (r: Reply<T>)
        ensures
            r == Self::creation_of(outcome),
    {
        match outcome {
            Ok(row) => Reply::Created(row),
            Err(e) => Reply::ServerError(e),
        }
    }

    /// The answer to an edit: the updated row as JSON with 200 OK, or a
    /// server error with the query's error.
    pub fn update(outcome: Result<T, String>) -> (r: Reply<T>)
        ensures
            r == Self::update_of(outcome),
    {
        match outcome {
            Ok(row) => Reply::Json(row),
            Err(e) => Reply::ServerError(e),
        }
    }

    /// The answer to a delete: an empty 200, or a server error with the query's error.
    pub fn completion(outcome: Result<(), String>) -> (r: Reply<T>)
        ensures
            r == Self::completion_of(outcome),
    {
        match outcome {
            Ok(_) => Reply::Done,
            Err(e) => Reply::ServerError(e),
        }
    }

    /// The early answer to an agent that fetches its configuration: not
    /// modified when the server's update flag is clear, and no early answer
    /// (`None`, go on and build the configuration) when it is set.
    pub fn unless_pending(update: bool) -> (r: Option<Reply<T>>)
        ensures
            update ==> r is None,
            !update ==> r == Some(Reply::<T>::NotModified),
    {
        if update {
            None
        } else {
            Some(Reply::NotModified)
        }
    }
}

/// Every handler's reply is a success (status 2xx) exactly when its query
/// succeeded, and a failed query's error text is passed on unchanged.
pub proof fn lemma_success_iff_ok<T>(outcome: Result<T, String>, done: Result<(), String>)
    ensures
        (200 <= Reply::listing_of(outcome).spec_status() < 300) <==> outcome is Ok,
        (200 <= Reply::creation_of(outcome).spec_status() < 300) <==> outcome is Ok,
        (200 <= Reply::update_of(outcome).spec_status() < 300) <==> outcome is Ok,
        (200 <= Reply::<T>::completion_of(done).spec_status() < 300) <==> done is Ok,
        outcome matches Err(e) ==> {
            &&& Reply::listing_of(outcome).error_text() == Some(e)
            &&& Reply::creation_of(outcome).error_text() == Some(e)
            &&& Reply::update_of(outcome).error_text() == Some(e)
        },
        done matches Err(e) ==> Reply::<T>::completion_of(done).error_text() == Some(e),
        outcome is Ok ==> Reply::update_of(outcome).spec_status() == 200,
        outcome is Ok ==> Reply::creation_of(outcome).spec_status() == 201,
{
}

} // verus!
