//! Outcomes of request handling, independent of any web framework.

use vstd::prelude::*;

verus! {

/// The HTTP statuses that the API answers with.
#[derive(Clone, Copy, Debug, PartialEq, Eq, Structural)]
pub enum Status {
    Okay,
    BadRequest,
    Unauthorized,
    Forbidden,
    NotFound,
    InternalServerError,
}

/// What a request guard decides: the guarded value, or a refusal with its status.
#[derive(Debug)]
pub enum Outcome<T> {
    Success(T),
    Failure(Status),
}

/// How a database lookup failed: no row matched, or anything else went wrong.
#[derive(Clone, Copy, Debug, PartialEq, Eq, Structural)]
pub enum DbError {
    RowNotFound,
    Other,
}

/// The status a route answers with once its database write has run.
pub fn write_status<T>(result: &Result<T, DbError>) -> (status: Status)
    ensures
        status == (if result is Ok { Status::Okay } else { Status::InternalServerError }),
{
    match result {
        Ok(_) => Status::Okay,
        Err(_) => Status::InternalServerError,
    }
}

/// A database read handed on as the route's answer; any failure becomes a server error.
pub fn read_result<T>(result: Result<T, DbError>) -> (answer: Result<T, Status>)
    ensures
        match result {
            Ok(v) => answer == Ok::<T, Status>(v),
            Err(_) => answer == Err::<T, Status>(Status::InternalServerError),
        },
{
    match result {
        Ok(v) => Ok(v),
        Err(_) => Err(Status::InternalServerError),
    }
}

} // verus!
