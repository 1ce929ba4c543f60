//! What the HTTP handlers decide: which request is let through, what is
//! stored on a user's behalf, and what each outcome is answered with.

pub mod auth;
pub mod access;
pub mod notes;
pub mod users;

use vstd::prelude::*;

verus! {

pub const BAD_REQUEST: u16 = 400;

pub const UNAUTHORIZED: u16 = 401;

pub const FORBIDDEN: u16 = 403;

pub const NOT_FOUND: u16 = 404;

pub const UNPROCESSABLE_ENTITY: u16 = 422;

pub const INTERNAL_SERVER_ERROR: u16 = 500;

/// The body of an error answer.
#[derive(Debug, Clone)]
pub struct Data {
    pub message: String,
}

/// An error answer: an HTTP status code and a message.
#[derive(Debug, Clone)]
pub struct AppError {
    pub status_code: u16,
    pub data: Data,
}

/// The error answer with status `status_code` and message `message`.
pub open spec fn is_error(e: AppError, status_code: u16, message: Seq<char>) -> bool {
    e.status_code == status_code && e.data.message@ == message
}

impl AppError {
    pub fn bad_request(msg: &str) -> (r: Self)
        ensures
            is_error(r, BAD_REQUEST, msg@),
    {
        Self::new(BAD_REQUEST, msg)
    }

    pub fn not_found(msg: &str) -> (r: Self)
        ensures
            is_error(r, NOT_FOUND, msg@),
    {
        Self::new(NOT_FOUND, msg)
    }

    pub fn unauthorized(msg: &str) -> (r: Self)
        ensures
            is_error(r, UNAUTHORIZED, msg@),
    {
        Self::new(UNAUTHORIZED, msg)
    }

    pub fn unprocessable(msg: &str) -> (r: Self)
        ensures
            is_error(r, UNPROCESSABLE_ENTITY, msg@),
    {
        Self::new(UNPROCESSABLE_ENTITY, msg)
    }

    pub fn internal(msg: &str) -> (r: Self)
        ensures
            is_error(r, INTERNAL_SERVER_ERROR, msg@),
    {
        Self::new(INTERNAL_SERVER_ERROR, msg)
    }

    fn new(status_code: u16, msg: &str) -> (r: Self)
        ensures
            is_error(r, status_code, msg@),
    {
        AppError { status_code, data: Data { message: msg.to_owned() } }
    }
}

/// A store outcome (its error written as text) turned into an answer: a
/// failure of the store is a bad request.
pub fn or_bad_request<T>(outcome: Result<T, String>) -> (r: Result<T, AppError>)
    ensures
        match outcome {
            Ok(v) => r == Ok::<T, AppError>(v),
            Err(e) => r matches Err(a) && is_error(a, BAD_REQUEST, e@),
        },
{
    match outcome {
        Ok(v) => Ok(v),
        Err(e) => Err(AppError::bad_request(e.as_str())),
    }
}

/// A lookup turned into an answer: a failure of the store is a bad request,
/// nothing found is `not found` with `missing` as the message.
pub fn found_or_not_found<T>(outcome: Result<Option<T>, String>, missing: &str) -> (r: Result<
    T,
    AppError,
>)
    ensures
        match outcome {
            Ok(Some(v)) => r == Ok::<T, AppError>(v),
            Ok(None) => r matches Err(a) && is_error(a, NOT_FOUND, missing@),
            Err(e) => r matches Err(a) && is_error(a, BAD_REQUEST, e@),
        },
{
    match outcome {
        Ok(Some(v)) => Ok(v),
        Ok(None) => Err(AppError::not_found(missing)),
        Err(e) => Err(AppError::bad_request(e.as_str())),
    }
}

} // verus!
