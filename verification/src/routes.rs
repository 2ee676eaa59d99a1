//! What the broker answers where no endpoint does: its greeting, and the
//! body of each status that it answers an unserved request with.

use crate::error::HTTPError;
use crate::types::{Alive, ErrorResponse, ResponseErrorAt};
use crate::utils::{get_timestamp_millisec, HELLO_MESSAGE};
use vstd::prelude::*;

verus! {

/// The greeting of the broker, with the name of who runs it.
pub fn home(provider: &str) -> (alive: Alive)
    ensures
        alive.message@ == HELLO_MESSAGE@,
        alive.provider@ == provider@,
{
    Alive {
        message: HELLO_MESSAGE.to_owned(),
        timestamp: get_timestamp_millisec(),
        provider: provider.to_owned(),
    }
}

/// The error that an unserved request is answered with under a status, for
/// the statuses that have one.
pub open spec fn error_of_status(status: u16) -> Option<HTTPError> {
    if status == 400 {
        Some(HTTPError::BadRequest)
    } else if status == 401 {
        Some(HTTPError::Unauthorized)
    } else if status == 403 {
        Some(HTTPError::Forbidden)
    } else if status == 404 {
        Some(HTTPError::FileNotFound)
    } else if status == 500 {
        Some(HTTPError::ServerError)
    } else if status == 502 {
        Some(HTTPError::RemoteServiceUnavailable)
    } else {
        None
    }
}

/// The error that an unserved request is answered with under a status.
pub fn catcher_error(status: u16) -> (error: Option<HTTPError>)
    ensures
        error == error_of_status(status),
{
    if status == 400 {
        Some(HTTPError::BadRequest)
    } else if status == 401 {
        Some(HTTPError::Unauthorized)
    } else if status == 403 {
        Some(HTTPError::Forbidden)
    } else if status == 404 {
        Some(HTTPError::FileNotFound)
    } else if status == 500 {
        Some(HTTPError::ServerError)
    } else if status == 502 {
        Some(HTTPError::RemoteServiceUnavailable)
    } else {
        None
    }
}

/// A body that holds the message of an error and names no place.
pub open spec fn plain_body(body: ErrorResponse, error: HTTPError) -> bool {
    body.message@ == error.message_text() && body.wrong is None
}

fn body_of(error: HTTPError) -> (body: ErrorResponse)
    ensures
        plain_body(body, error),
{
    ErrorResponse {
        message: error.message().to_owned(),
        timestamp: get_timestamp_millisec(),
        wrong: None,
    }
}

pub fn err_bad_request() -> (body: ErrorResponse)
    ensures
        plain_body(body, HTTPError::BadRequest),
{
    body_of(HTTPError::BadRequest)
}

pub fn err_unauthorized() -> (body: ErrorResponse)
    ensures
        plain_body(body, HTTPError::Unauthorized),
{
    body_of(HTTPError::Unauthorized)
}

pub fn err_forbidden() -> (body: ErrorResponse)
    ensures
        plain_body(body, HTTPError::Forbidden),
{
    body_of(HTTPError::Forbidden)
}

/// The body for an address that no endpoint serves: it names the address,
/// with an empty trace.
pub fn err_not_found(uri: &str) -> (body: ErrorResponse)
    ensures
        body.message@ == HTTPError::FileNotFound.message_text(),
        ({
            &&& body.wrong matches Some(wrong)
            &&& wrong.api matches Some(api)
            &&& api@ == uri@
            &&& wrong.trace matches Some(trace)
            &&& trace@ == ""@
            &&& wrong.at is None
        }),
{
    ErrorResponse {
        message: HTTPError::FileNotFound.message().to_owned(),
        timestamp: get_timestamp_millisec(),
        wrong: Some(
            ResponseErrorAt { api: Some(uri.to_owned()), trace: Some("".to_owned()), at: None },
        ),
    }
}

pub fn err_server_error() -> (body: ErrorResponse)
    ensures
        plain_body(body, HTTPError::ServerError),
{
    body_of(HTTPError::ServerError)
}

pub fn err_bad_gateway() -> (body: ErrorResponse)
    ensures
        plain_body(body, HTTPError::RemoteServiceUnavailable),
{
    body_of(HTTPError::RemoteServiceUnavailable)
}

} // verus!
